//! Hoisting of `func`-tagged blocks out of a shader body.
//!
//! A body may define helper functions inline by prefixing them with the
//! marker `func `. Before the body is wrapped in `main`, every such block is
//! cut out of the body and emitted as a top-level definition, without the
//! marker. The extent of a block is found by counting braces, so nested
//! blocks inside a function do not end it early.

use vstd::prelude::*;

verus! {

/// Number of characters in the marker `func `.
pub const MARKER_LEN: usize = 5;

/// Whether the marker `func ` is spelled out in `s` starting at index `i`.
pub open spec fn is_marker_at(s: Seq<char>, i: int) -> bool {
    &&& 0 <= i
    &&& i + 5 <= s.len()
    &&& s[i] == 'f'
    &&& s[i + 1] == 'u'
    &&& s[i + 2] == 'n'
    &&& s[i + 3] == 'c'
    &&& s[i + 4] == ' '
}

/// Index of the first marker that starts at or after `from`, if any.
pub open spec fn first_marker(s: Seq<char>, from: int) -> Option<int>
    decreases s.len() - from,
{
    if from < 0 || from + 5 > s.len() {
        None
    } else if is_marker_at(s, from) {
        Some(from)
    } else {
        first_marker(s, from + 1)
    }
}

/// Index of the brace that closes the first block found when reading `s`
/// from index `i` with `depth` braces already open.
///
/// With `depth == 0` no block has been entered yet, and a `}` met in that
/// state means there is no well-formed block. Running out of text before
/// the block is closed means the same.
pub open spec fn block_close(s: Seq<char>, i: int, depth: nat) -> Option<int>
    decreases s.len() - i,
{
    if i < 0 || i >= s.len() {
        None
    } else if s[i] == '{' {
        block_close(s, i + 1, depth + 1)
    } else if s[i] == '}' {
        if depth == 0 {
            None
        } else if depth == 1 {
            Some(i)
        } else {
            block_close(s, i + 1, (depth - 1) as nat)
        }
    } else {
        block_close(s, i + 1, depth)
    }
}

/// `s` with the characters at indices `from..to` removed.
pub open spec fn without_span(s: Seq<char>, from: int, to: int) -> Seq<char> {
    s.subrange(0, from) + s.subrange(to, s.len() as int)
}

/// Result of hoisting: the top-level definitions that were cut out, one per
/// line, and what is left of the body.
pub struct Hoisted {
    pub definitions: Seq<char>,
    pub body: Seq<char>,
}

/// Hoists every complete `func` block found at or after `from`.
///
/// The first marker at or after `from` is located and its block measured
/// from the marker onwards. The text between the marker and the closing
/// brace (inclusive) becomes a definition line, the whole span from the
/// marker to the closing brace is removed from the body, and the search
/// resumes at the place where the span began. A marker without a complete
/// block ends the pass and leaves the remaining text as it is.
pub open spec fn hoist_from(body: Seq<char>, from: int) -> Hoisted
    decreases body.len(),
    via hoist_from_decreases
{
    match first_marker(body, from) {
        None => Hoisted { definitions: Seq::empty(), body },
        Some(m) => match block_close(body, m, 0) {
            None => Hoisted { definitions: Seq::empty(), body },
            Some(e) => {
                let rest = hoist_from(without_span(body, m, e + 1), m);
                Hoisted {
                    definitions: body.subrange(m + 5, e + 1).push('\n') + rest.definitions,
                    body: rest.body,
                }
            },
        },
    }
}

#[via_fn]
proof fn hoist_from_decreases(body: Seq<char>, from: int) {
    match first_marker(body, from) {
        None => {},
        Some(m) => {
            lemma_first_marker(body, from);
            match block_close(body, m, 0) {
                None => {},
                Some(e) => {
                    lemma_block_close_bounds(body, m, 0);
                },
            }
        },
    }
}

/// Hoisting applied to a whole body.
pub open spec fn hoist(body: Seq<char>) -> Hoisted {
    hoist_from(body, 0)
}

/// `first_marker` returns the least marker position at or after `from`, and
/// returns `None` only when there is no marker there at all.
pub proof fn lemma_first_marker(s: Seq<char>, from: int)
    requires
        0 <= from,
    ensures
        match first_marker(s, from) {
            Some(m) => from <= m && is_marker_at(s, m) && forall|j: int|
                from <= j < m ==> !is_marker_at(s, j),
            None => forall|j: int| from <= j ==> !is_marker_at(s, j),
        },
    decreases s.len() - from,
{
    if from + 5 <= s.len() && !is_marker_at(s, from) {
        lemma_first_marker(s, from + 1);
    }
}

/// A closing brace reported by `block_close` lies at or after the starting
/// index, inside the text, and is a `}`; when the scan starts outside any
/// block, an opening brace comes before it.
pub proof fn lemma_block_close_bounds(s: Seq<char>, i: int, depth: nat)
    ensures
        match block_close(s, i, depth) {
            Some(e) => i <= e < s.len() && s[e] == '}' && (depth == 0 ==> exists|o: int|
                i <= o < e && s[o] == '{'),
            None => true,
        },
    decreases s.len() - i,
{
    if 0 <= i < s.len() {
        if s[i] == '{' {
            lemma_block_close_bounds(s, i + 1, depth + 1);
        } else if s[i] == '}' {
            if depth > 1 {
                lemma_block_close_bounds(s, i + 1, (depth - 1) as nat);
            }
        } else {
            lemma_block_close_bounds(s, i + 1, depth);
            if depth == 0 {
                match block_close(s, i, depth) {
                    Some(e) => {
                        let o = choose|o: int| i + 1 <= o < e && s[o] == '{';
                        assert(i <= o < e && s[o] == '{');
                    },
                    None => {},
                }
            }
        }
    }
}

/// What the character `c` adds to the number of open braces.
pub open spec fn brace_step(c: char) -> int {
    if c == '{' {
        1
    } else if c == '}' {
        -1
    } else {
        0
    }
}

/// How many more braces `s` opens than it closes.
pub open spec fn brace_balance(s: Seq<char>) -> int
    decreases s.len(),
{
    if s.len() == 0 {
        0
    } else {
        brace_step(s[0]) + brace_balance(s.drop_first())
    }
}

/// The block that `block_close` measures is balanced, and it is the
/// shortest such: counting from `depth` open braces at index `i`, the
/// count is back at zero right after the reported closing brace, it never
/// falls below zero on the way, and no closing brace before the reported
/// one brings it down to zero.
pub proof fn lemma_block_close_balanced(s: Seq<char>, i: int, depth: nat)
    requires
        0 <= i,
        block_close(s, i, depth) is Some,
    ensures
        depth + brace_balance(s.subrange(i, block_close(s, i, depth).unwrap() + 1)) == 0,
        forall|k: int|
            i <= k <= block_close(s, i, depth).unwrap() ==> depth + #[trigger] brace_balance(
                s.subrange(i, k),
            ) >= 0,
        forall|k: int|
            i < k <= block_close(s, i, depth).unwrap() && s[k - 1] == '}' ==> depth
                + #[trigger] brace_balance(s.subrange(i, k)) >= 1,
    decreases s.len() - i,
{
    let e = block_close(s, i, depth).unwrap();
    lemma_block_close_bounds(s, i, depth);
    let next: nat = (depth + brace_step(s[i])) as nat;
    assert(brace_balance(s.subrange(i, i)) == 0);
    assert forall|k: int| i < k <= e + 1 implies brace_balance(s.subrange(i, k)) == brace_step(
        s[i],
    ) + brace_balance(s.subrange(i + 1, k)) by {
        assert(s.subrange(i, k).drop_first() =~= s.subrange(i + 1, k));
    }
    assert(brace_balance(s.subrange(i, e + 1)) == brace_step(s[i]) + brace_balance(
        s.subrange(i + 1, e + 1),
    ));
    if e == i {
        if !(s[i] == '}' && depth == 1) {
            lemma_block_close_bounds(s, i + 1, next);
        }
        assert(brace_balance(s.subrange(i + 1, i + 1)) == 0);
    } else {
        assert(block_close(s, i, depth) == block_close(s, i + 1, next));
        lemma_block_close_balanced(s, i + 1, next);
        assert forall|k: int| i <= k <= e implies depth + #[trigger] brace_balance(
            s.subrange(i, k),
        ) >= 0 by {
            if k > i {
                assert(next + brace_balance(s.subrange(i + 1, k)) >= 0);
            }
        }
        assert forall|k: int| i < k <= e && s[k - 1] == '}' implies depth
            + #[trigger] brace_balance(s.subrange(i, k)) >= 1 by {
            if k > i + 1 {
                assert(next + brace_balance(s.subrange(i + 1, k)) >= 1);
            } else {
                assert(brace_balance(s.subrange(i + 1, k)) == 0);
            }
        }
    }
}

/// The marker that tags a block for hoisting.
pub open spec fn marker() -> Seq<char> {
    seq!['f', 'u', 'n', 'c', ' ']
}

/// A block that is closed inside a text is closed at the same place when
/// the text stands between two others: what comes before the starting
/// point and what comes after the closing brace play no part.
pub proof fn lemma_block_close_in_context(
    before: Seq<char>,
    text: Seq<char>,
    after: Seq<char>,
    i: int,
    depth: nat,
)
    requires
        0 <= i,
        block_close(text, i, depth) is Some,
    ensures
        block_close(before + text + after, before.len() + i, depth) == Some(
            before.len() + block_close(text, i, depth).unwrap(),
        ),
    decreases text.len() - i,
{
    let whole = before + text + after;
    assert(i < text.len());
    assert(whole[before.len() + i] == text[i]);
    if text[i] == '{' {
        lemma_block_close_in_context(before, text, after, i + 1, depth + 1);
    } else if text[i] == '}' {
        if depth > 1 {
            lemma_block_close_in_context(before, text, after, i + 1, (depth - 1) as nat);
        }
    } else {
        lemma_block_close_in_context(before, text, after, i + 1, depth);
    }
}

/// Measuring a block from a marker is measuring it from the character
/// after the marker: the marker holds no brace.
pub proof fn lemma_block_close_skips_marker(s: Seq<char>, m: int)
    requires
        is_marker_at(s, m),
    ensures
        block_close(s, m, 0) == block_close(s, m + 5, 0),
{
    assert(block_close(s, m, 0) == block_close(s, m + 1, 0));
    assert(block_close(s, m + 1, 0) == block_close(s, m + 2, 0));
    assert(block_close(s, m + 2, 0) == block_close(s, m + 3, 0));
    assert(block_close(s, m + 3, 0) == block_close(s, m + 4, 0));
    assert(block_close(s, m + 4, 0) == block_close(s, m + 5, 0));
}

/// Markers are found in a text at the places where they are found in the
/// same text with something put in front, moved by the length of that.
pub proof fn lemma_first_marker_after_prefix(prefix: Seq<char>, s: Seq<char>, from: int)
    requires
        0 <= from,
    ensures
        first_marker(prefix + s, prefix.len() + from) == match first_marker(s, from) {
            Some(m) => Some(prefix.len() + m),
            None => None,
        },
    decreases s.len() - from,
{
    let whole = prefix + s;
    let shift = prefix.len() as int;
    if from + 5 <= s.len() {
        assert(whole[shift + from] == s[from]);
        assert(whole[shift + from + 1] == s[from + 1]);
        assert(whole[shift + from + 2] == s[from + 2]);
        assert(whole[shift + from + 3] == s[from + 3]);
        assert(whole[shift + from + 4] == s[from + 4]);
        if !is_marker_at(s, from) {
            lemma_first_marker_after_prefix(prefix, s, from + 1);
        }
    }
}

/// A block is closed in a text where it is closed in the same text with
/// something put in front, moved by the length of that, and it is left
/// open in the one if it is left open in the other.
pub proof fn lemma_block_close_after_prefix(
    prefix: Seq<char>,
    s: Seq<char>,
    i: int,
    depth: nat,
)
    requires
        0 <= i,
    ensures
        block_close(prefix + s, prefix.len() + i, depth) == match block_close(s, i, depth) {
            Some(e) => Some(prefix.len() + e),
            None => None,
        },
    decreases s.len() - i,
{
    let whole = prefix + s;
    if i < s.len() {
        assert(whole[prefix.len() + i] == s[i]);
        if s[i] == '{' {
            lemma_block_close_after_prefix(prefix, s, i + 1, depth + 1);
        } else if s[i] == '}' {
            if depth > 1 {
                lemma_block_close_after_prefix(prefix, s, i + 1, (depth - 1) as nat);
            }
        } else {
            lemma_block_close_after_prefix(prefix, s, i + 1, depth);
        }
    }
}

/// Hoisting does not look back: what stands before the starting point
/// stays in front of the body, and the same blocks are hoisted as without
/// it.
pub proof fn lemma_hoist_after_prefix(prefix: Seq<char>, s: Seq<char>, from: int)
    requires
        0 <= from,
    ensures
        hoist_from(prefix + s, prefix.len() + from) == (Hoisted {
            definitions: hoist_from(s, from).definitions,
            body: prefix + hoist_from(s, from).body,
        }),
    decreases s.len(),
{
    let shift = prefix.len() as int;
    lemma_first_marker_after_prefix(prefix, s, from);
    match first_marker(s, from) {
        None => {},
        Some(m) => {
            lemma_first_marker(s, from);
            lemma_block_close_after_prefix(prefix, s, m, 0);
            match block_close(s, m, 0) {
                None => {},
                Some(e) => {
                    lemma_block_close_bounds(s, m, 0);
                    let rest = without_span(s, m, e + 1);
                    assert(without_span(prefix + s, shift + m, shift + e + 1) =~= prefix + rest);
                    assert((prefix + s).subrange(shift + m + 5, shift + e + 1) =~= s.subrange(
                        m + 5,
                        e + 1,
                    ));
                    lemma_hoist_after_prefix(prefix, rest, m);
                },
            }
        },
    }
}

/// Text without the letter `f` in front of a body changes nothing about
/// what is hoisted out of the body, and stays in front of it.
pub proof fn lemma_hoist_keeps_plain_prefix(prefix: Seq<char>, s: Seq<char>)
    requires
        forall|j: int| 0 <= j < prefix.len() ==> prefix[j] != 'f',
    ensures
        hoist(prefix + s) == (Hoisted {
            definitions: hoist(s).definitions,
            body: prefix + hoist(s).body,
        }),
{
    let whole = prefix + s;
    let shift = prefix.len() as int;
    lemma_first_marker(whole, 0);
    lemma_first_marker(whole, shift);
    assert forall|j: int| 0 <= j < shift implies !is_marker_at(whole, j) by {
        if j + 5 <= whole.len() {
            assert(whole[j] == prefix[j]);
        }
    }
    assert(first_marker(whole, 0) == first_marker(whole, shift));
    lemma_hoist_after_prefix(prefix, s, 0);
}

/// A body whose first marker, if it has one, is not followed by a complete
/// block is left as it is, and nothing is hoisted.
pub proof fn lemma_hoist_nothing(body: Seq<char>)
    requires
        match first_marker(body, 0) {
            Some(m) => block_close(body, m, 0) is None,
            None => true,
        },
    ensures
        hoist(body) == (Hoisted { definitions: Seq::empty(), body }),
{
}

/// Hoisting one block. Let a body read `before`, the marker, `block`,
/// `after`, where this marker is the first one at or after `from` and
/// `block` is a complete block that ends with its closing brace. Then
/// `block` is the first definition, character for character and without
/// the marker, and the pass goes on in `before + after` from where the
/// marker stood. Braces nested in `block` do not cut it short, and nothing
/// of `before` or `after` gets into it.
pub proof fn lemma_hoist_block(
    before: Seq<char>,
    block: Seq<char>,
    after: Seq<char>,
    from: int,
)
    requires
        0 <= from,
        first_marker(before + marker() + block + after, from) == Some(before.len() as int),
        block_close(block, 0, 0) == Some(block.len() - 1),
    ensures
        hoist_from(before + marker() + block + after, from).definitions == block.push('\n')
            + hoist_from(before + after, before.len() as int).definitions,
        hoist_from(before + marker() + block + after, from).body == hoist_from(
            before + after,
            before.len() as int,
        ).body,
{
    let body = before + marker() + block + after;
    let m = before.len() as int;
    let e = m + 5 + block.len() - 1;
    lemma_first_marker(body, from);
    lemma_block_close_skips_marker(body, m);
    lemma_block_close_in_context(before + marker(), block, after, 0, 0);
    assert(body =~= (before + marker()) + block + after);
    assert(block_close(body, m, 0) == Some(e));
    assert(body.subrange(m + 5, e + 1) =~= block);
    assert(without_span(body, m, e + 1) =~= before + after);
}

/// Hoisting the only block of a body yields that block as the only
/// definition and leaves the body without the marker and the block.
pub proof fn lemma_hoist_single_block(before: Seq<char>, block: Seq<char>, after: Seq<char>)
    requires
        first_marker(before + marker() + block + after, 0) == Some(before.len() as int),
        block_close(block, 0, 0) == Some(block.len() - 1),
        first_marker(before + after, before.len() as int) is None,
    ensures
        hoist(before + marker() + block + after) == (Hoisted {
            definitions: block.push('\n'),
            body: before + after,
        }),
{
    lemma_hoist_block(before, block, after, 0);
    assert(block.push('\n') + Seq::<char>::empty() =~= block.push('\n'));
}

/// Hoisting two blocks. When a body holds exactly two markers, each
/// followed by a complete block, both blocks are hoisted in their order,
/// each once and whole, and the body keeps what stood around them.
pub proof fn lemma_hoist_two_blocks(
    before: Seq<char>,
    first: Seq<char>,
    between: Seq<char>,
    second: Seq<char>,
    after: Seq<char>,
)
    requires
        first_marker(before + marker() + first + between + marker() + second + after, 0) == Some(
            before.len() as int,
        ),
        first_marker(before + between + marker() + second + after, before.len() as int) == Some(
            (before.len() + between.len()) as int,
        ),
        first_marker(before + between + after, (before.len() + between.len()) as int) is None,
        block_close(first, 0, 0) == Some(first.len() - 1),
        block_close(second, 0, 0) == Some(second.len() - 1),
    ensures
        hoist(before + marker() + first + between + marker() + second + after) == (Hoisted {
            definitions: first.push('\n') + second.push('\n'),
            body: before + between + after,
        }),
{
    let tail = between + marker() + second + after;
    let whole = before + marker() + first + between + marker() + second + after;
    assert(whole =~= before + marker() + first + tail);
    lemma_hoist_block(before, first, tail, 0);
    let rest = (before + between) + marker() + second + after;
    assert(rest =~= before + tail);
    assert(rest =~= before + between + marker() + second + after);
    lemma_hoist_block(before + between, second, after, before.len() as int);
    assert(second.push('\n') + Seq::<char>::empty() =~= second.push('\n'));
}

/// Finds the first marker in `s` that starts at or after `from`.
pub fn find_marker(s: &Vec<char>, from: usize) -> (found: Option<usize>)
    ensures
        match found {
            Some(m) => first_marker(s@, from as int) == Some(m as int),
            None => first_marker(s@, from as int) is None,
        },
{
    let n = s.len();
    if n < MARKER_LEN {
        return None;
    }
    let mut i: usize = from;
    while i <= n - MARKER_LEN
        invariant
            n == s.len(),
            n >= MARKER_LEN,
            from <= i,
            first_marker(s@, from as int) == first_marker(s@, i as int),
        decreases n - i,
    {
        if s[i] == 'f' && s[i + 1] == 'u' && s[i + 2] == 'n' && s[i + 3] == 'c' && s[i + 4]
            == ' ' {
            return Some(i);
        }
        i += 1;
    }
    None
}

/// Finds the brace that closes the first block at or after `from`.
pub fn find_block_close(s: &Vec<char>, from: usize) -> (found: Option<usize>)
    ensures
        match found {
            Some(e) => block_close(s@, from as int, 0) == Some(e as int),
            None => block_close(s@, from as int, 0) is None,
        },
{
    let n = s.len();
    let mut i: usize = from;
    let mut depth: usize = 0;
    while i < n
        invariant
            n == s.len(),
            from <= i,
            depth <= i - from,
            block_close(s@, from as int, 0) == block_close(s@, i as int, depth as nat),
        decreases n - i,
    {
        let c = s[i];
        if c == '{' {
            depth += 1;
        } else if c == '}' {
            if depth == 0 {
                return None;
            } else if depth == 1 {
                return Some(i);
            }
            depth -= 1;
        }
        i += 1;
    }
    None
}

/// Appends `src[from..to]` to `dst`.
pub fn append_span(dst: &mut Vec<char>, src: &Vec<char>, from: usize, to: usize)
    requires
        from <= to <= src.len(),
    ensures
        final(dst)@ == old(dst)@ + src@.subrange(from as int, to as int),
{
    let mut i: usize = from;
    while i < to
        invariant
            from <= i <= to <= src.len(),
            dst@ == old(dst)@ + src@.subrange(from as int, i as int),
        decreases to - i,
    {
        dst.push(src[i]);
        i += 1;
        assert(dst@ =~= old(dst)@ + src@.subrange(from as int, i as int));
    }
}

/// Copies `s` leaving out the characters at indices `from..to`.
pub fn remove_span(s: &Vec<char>, from: usize, to: usize) -> (out: Vec<char>)
    requires
        from <= to <= s.len(),
    ensures
        out@ == without_span(s@, from as int, to as int),
{
    let mut out: Vec<char> = Vec::new();
    append_span(&mut out, s, 0, from);
    append_span(&mut out, s, to, s.len());
    assert(out@ =~= without_span(s@, from as int, to as int));
    out
}

/// Cuts every complete `func` block out of `body`.
///
/// Returns the hoisted definitions, one per line and in the order in which
/// they stood in the body, followed by what remains of the body.
pub fn hoist_functions(body: Vec<char>) -> (out: (Vec<char>, Vec<char>))
    ensures
        out.0@ == hoist(body@).definitions,
        out.1@ == hoist(body@).body,
{
    let mut definitions: Vec<char> = Vec::new();
    let mut rest = body;
    let mut from: usize = 0;
    let mut done = false;
    while !done
        invariant
            hoist(body@).definitions == definitions@ + hoist_from(rest@, from as int).definitions,
            hoist(body@).body == hoist_from(rest@, from as int).body,
            done ==> hoist_from(rest@, from as int) == (Hoisted {
                definitions: Seq::empty(),
                body: rest@,
            }),
        decreases rest.len() + (if done { 0int } else { 1int }),
    {
        let marker = find_marker(&rest, from);
        let close = match marker {
            Some(m) => find_block_close(&rest, m),
            None => None,
        };
        match (marker, close) {
            (Some(m), Some(e)) => {
                proof {
                    lemma_first_marker(rest@, from as int);
                    lemma_block_close_bounds(rest@, m as int, 0);
                }
                let ghost before = definitions@;
                let ghost prev = rest@;
                append_span(&mut definitions, &rest, m + MARKER_LEN, e + 1);
                definitions.push('\n');
                rest = remove_span(&rest, m, e + 1);
                from = m;
                assert(definitions@ + hoist_from(rest@, m as int).definitions =~= before + (
                prev.subrange(m + 5, e + 1).push('\n') + hoist_from(rest@, m as int).definitions));
            },
            _ => {
                done = true;
            },
        }
    }
    assert(definitions@ + Seq::<char>::empty() =~= definitions@);
    (definitions, rest)
}

} // verus!
