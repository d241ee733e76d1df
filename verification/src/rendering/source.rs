//! The text of a generated shader pair, as a function of what was declared.
//!
//! Everything here is ghost code: it says which characters the vertex and
//! fragment sources consist of for a given builder state, and states what
//! follows from that.

use vstd::prelude::*;
use crate::rendering::hoist::{hoist, lemma_hoist_keeps_plain_prefix};
use crate::text::occurs_at;

verus! {

/// A declared shader variable: its type, then its name.
pub type Entry = (Seq<char>, Seq<char>);

/// What a shader builder has accumulated.
pub struct BuilderModel {
    /// Vertex inputs declared by the user, in call order.
    pub attributes: Seq<Entry>,
    /// Values passed from the vertex to the fragment stage, in call order.
    /// Names carry the `v_` prefix.
    pub varyings: Seq<Entry>,
    /// Values supplied from outside, in call order. Names carry the `u_`
    /// prefix.
    pub uniforms: Seq<Entry>,
    /// Statements of the vertex stage.
    pub vertex_body: Seq<char>,
    /// Statements of the fragment stage.
    pub fragment_body: Seq<char>,
    /// Positions have three components instead of two.
    pub use_3d: bool,
    /// Positions are multiplied by the projection matrix.
    pub use_proj: bool,
    /// Positions are multiplied by the view matrix.
    pub use_view: bool,
    /// Floats use high instead of medium precision.
    pub use_highp: bool,
}

/// The state of a builder on which nothing has been declared.
pub open spec fn empty_model() -> BuilderModel {
    BuilderModel {
        attributes: Seq::empty(),
        varyings: Seq::empty(),
        uniforms: Seq::empty(),
        vertex_body: Seq::empty(),
        fragment_body: Seq::empty(),
        use_3d: false,
        use_proj: false,
        use_view: false,
        use_highp: false,
    }
}

/// Whether `name` is the name of the built-in position attribute, which no
/// declared attribute may take.
pub open spec fn is_reserved(name: Seq<char>) -> bool {
    name == "position"@
}

/// Whether no entry of `entries` takes the reserved name.
pub open spec fn all_unreserved(entries: Seq<Entry>) -> bool {
    forall|i: int| 0 <= i < entries.len() ==> !is_reserved(#[trigger] entries[i].1)
}

/// The vertex statement that copies the attribute `name` into the varying
/// `v_<name>`.
pub open spec fn forwarding_statement(name: Seq<char>) -> Seq<char> {
    "v_"@ + name + " = "@ + name + ";\n"@
}

/// One declaration: `<qualifier> <type> <name>;` and a line break.
pub open spec fn declaration_line(qualifier: Seq<char>, entry: Entry) -> Seq<char> {
    qualifier + " "@ + entry.0 + " "@ + entry.1 + ";\n"@
}

/// The declarations of `entries`, one line each, first entry first.
pub open spec fn declaration_lines(qualifier: Seq<char>, entries: Seq<Entry>) -> Seq<char>
    decreases entries.len(),
{
    if entries.len() == 0 {
        Seq::empty()
    } else {
        declaration_lines(qualifier, entries.drop_last()) + declaration_line(
            qualifier,
            entries.last(),
        )
    }
}

/// The line that fixes the float precision of a stage.
pub open spec fn precision_line(use_highp: bool) -> Seq<char> {
    if use_highp {
        "precision highp float;\n"@
    } else {
        "precision mediump float;\n"@
    }
}

/// The type of the built-in `position` attribute.
pub open spec fn position_type(use_3d: bool) -> Seq<char> {
    if use_3d {
        "vec3"@
    } else {
        "vec2"@
    }
}

/// The built-in `position` attribute as an entry.
pub open spec fn position_entry(use_3d: bool) -> Entry {
    (position_type(use_3d), "position"@)
}

/// The position promoted to homogeneous coordinates, ending the statement.
pub open spec fn homogeneous_position(use_3d: bool) -> Seq<char> {
    if use_3d {
        "vec4(position, 1.0);\n"@
    } else {
        "vec4(position, 0.0, 1.0);\n"@
    }
}

/// The matrices applied to the position, outermost first: the projection
/// matrix, then the view matrix, each only if enabled.
pub open spec fn transform_prefix(use_proj: bool, use_view: bool) -> Seq<char> {
    (if use_proj {
        "u_proj * "@
    } else {
        Seq::empty()
    }) + (if use_view {
        "u_view * "@
    } else {
        Seq::empty()
    })
}

/// The statement that assigns the transformed position.
pub open spec fn position_statement(m: BuilderModel) -> Seq<char> {
    "gl_Position = "@ + transform_prefix(m.use_proj, m.use_view) + homogeneous_position(m.use_3d)
}

/// The declarations shared by both stages: varyings, then uniforms.
pub open spec fn shared_declarations(m: BuilderModel) -> Seq<char> {
    declaration_lines("varying"@, m.varyings) + declaration_lines("uniform"@, m.uniforms)
}

/// The part of a stage's source that follows its own header: the shared
/// declarations set off by blank lines, the definitions hoisted out of the
/// body, and `main` wrapped around what is left of the body.
pub open spec fn stage_text(shared: Seq<char>, body: Seq<char>) -> Seq<char> {
    "\n"@ + shared + "\n"@ + hoist(body).definitions + "void main() {\n"@ + hoist(body).body
        + "}\n"@
}

/// The vertex stage's body as it is compiled: the position assignment
/// first, then the user's statements.
pub open spec fn full_vertex_body(m: BuilderModel) -> Seq<char> {
    position_statement(m) + m.vertex_body
}

/// The header of the vertex stage: precision, the `position` attribute,
/// then the user's attributes.
pub open spec fn vertex_header(m: BuilderModel) -> Seq<char> {
    precision_line(m.use_highp) + declaration_line("attribute"@, position_entry(m.use_3d))
        + declaration_lines("attribute"@, m.attributes)
}

/// The complete source of the vertex stage.
pub open spec fn vertex_source(m: BuilderModel) -> Seq<char> {
    vertex_header(m) + stage_text(shared_declarations(m), full_vertex_body(m))
}

/// The complete source of the fragment stage.
pub open spec fn fragment_source(m: BuilderModel) -> Seq<char> {
    precision_line(m.use_highp) + stage_text(shared_declarations(m), m.fragment_body)
}

/// Adding an entry adds its line after the lines of all earlier entries.
pub proof fn lemma_declaration_lines_push(
    qualifier: Seq<char>,
    entries: Seq<Entry>,
    entry: Entry,
)
    ensures
        declaration_lines(qualifier, entries.push(entry)) == declaration_lines(
            qualifier,
            entries,
        ) + declaration_line(qualifier, entry),
{
    assert(entries.push(entry).drop_last() =~= entries);
}

/// The lines of two lists declared one after the other are the lines of
/// the first list followed by the lines of the second.
pub proof fn lemma_declaration_lines_concat(
    qualifier: Seq<char>,
    first: Seq<Entry>,
    second: Seq<Entry>,
)
    ensures
        declaration_lines(qualifier, first + second) == declaration_lines(qualifier, first)
            + declaration_lines(qualifier, second),
    decreases second.len(),
{
    if second.len() == 0 {
        assert(first + second =~= first);
        assert(declaration_lines(qualifier, first) + Seq::<char>::empty()
            =~= declaration_lines(qualifier, first));
    } else {
        assert((first + second).drop_last() =~= first + second.drop_last());
        lemma_declaration_lines_concat(qualifier, first, second.drop_last());
        assert(declaration_lines(qualifier, first + second) =~= declaration_lines(
            qualifier,
            first,
        ) + declaration_lines(qualifier, second));
    }
}

/// Declarations are generated in the order in which they were made: the
/// line of the entry at index `i` stands after the lines of exactly the
/// entries before it and before the lines of exactly the entries after it.
/// No line is moved, merged or left out, whatever the entries hold.
pub proof fn lemma_declaration_order(qualifier: Seq<char>, entries: Seq<Entry>, i: int)
    requires
        0 <= i < entries.len(),
    ensures
        declaration_lines(qualifier, entries) == declaration_lines(
            qualifier,
            entries.subrange(0, i),
        ) + declaration_line(qualifier, entries[i]) + declaration_lines(
            qualifier,
            entries.subrange(i + 1, entries.len() as int),
        ),
        occurs_at(
            declaration_lines(qualifier, entries),
            declaration_line(qualifier, entries[i]),
            declaration_lines(qualifier, entries.subrange(0, i)).len() as int,
        ),
{
    let before = entries.subrange(0, i);
    let after = entries.subrange(i + 1, entries.len() as int);
    let line = declaration_line(qualifier, entries[i]);
    assert(entries =~= before.push(entries[i]) + after);
    lemma_declaration_lines_concat(qualifier, before.push(entries[i]), after);
    lemma_declaration_lines_push(qualifier, before, entries[i]);
    let head = declaration_lines(qualifier, before);
    let tail = declaration_lines(qualifier, after);
    assert((head + line + tail).subrange(head.len() as int, (head.len() + line.len()) as int) =~= line);
}

/// The vertex source declares the built-in attribute right after the
/// precision line: `attribute vec2 position;` for flat positions and
/// `attribute vec3 position;` for positions in space.
pub proof fn lemma_position_attribute(m: BuilderModel)
    ensures
        occurs_at(
            vertex_source(m),
            if m.use_3d {
                "attribute vec3 position;\n"@
            } else {
                "attribute vec2 position;\n"@
            },
            precision_line(m.use_highp).len() as int,
        ),
{
    reveal_strlit("attribute");
    reveal_strlit(" ");
    reveal_strlit("vec2");
    reveal_strlit("vec3");
    reveal_strlit("position");
    reveal_strlit(";\n");
    reveal_strlit("attribute vec2 position;\n");
    reveal_strlit("attribute vec3 position;\n");
    let line = declaration_line("attribute"@, position_entry(m.use_3d));
    assert(line =~= if m.use_3d {
        "attribute vec3 position;\n"@
    } else {
        "attribute vec2 position;\n"@
    });
    let head = precision_line(m.use_highp);
    let tail = declaration_lines("attribute"@, m.attributes) + stage_text(
        shared_declarations(m),
        full_vertex_body(m),
    );
    assert(vertex_source(m) =~= head + line + tail);
    assert((head + line + tail).subrange(head.len() as int, (head.len() + line.len()) as int) =~= line);
}

/// With both matrices enabled the position is multiplied by the view
/// matrix first and by the projection matrix last: the statement reads
/// `gl_Position = u_proj * u_view * ` followed directly by the homogeneous
/// position, and it opens the vertex body.
pub proof fn lemma_transform_order(m: BuilderModel)
    requires
        m.use_proj,
        m.use_view,
    ensures
        position_statement(m) == "gl_Position = u_proj * u_view * "@ + homogeneous_position(
            m.use_3d,
        ),
        occurs_at(full_vertex_body(m), position_statement(m), 0),
{
    reveal_strlit("gl_Position = ");
    reveal_strlit("u_proj * ");
    reveal_strlit("u_view * ");
    reveal_strlit("gl_Position = u_proj * u_view * ");
    assert("gl_Position = "@ + transform_prefix(true, true) =~= "gl_Position = u_proj * u_view * "@);
    assert(full_vertex_body(m).subrange(0, position_statement(m).len() as int)
        =~= position_statement(m));
}

/// Hoisting leaves the position assignment alone: whatever the vertex
/// body holds, the same definitions are hoisted out of it with and without
/// the assignment in front, and the assignment opens what is left for
/// `main`. So the vertex source reads: header, shared declarations, the
/// definitions hoisted out of the user's statements, and `main` holding
/// the position assignment and then the rest of the user's statements.
pub proof fn lemma_position_opens_main(m: BuilderModel)
    ensures
        hoist(full_vertex_body(m)).definitions == hoist(m.vertex_body).definitions,
        hoist(full_vertex_body(m)).body == position_statement(m) + hoist(m.vertex_body).body,
        vertex_source(m) == vertex_header(m) + "\n"@ + shared_declarations(m) + "\n"@ + hoist(
            m.vertex_body,
        ).definitions + "void main() {\n"@ + position_statement(m) + hoist(m.vertex_body).body
            + "}\n"@,
{
    reveal_strlit("gl_Position = ");
    reveal_strlit("u_proj * ");
    reveal_strlit("u_view * ");
    reveal_strlit("vec4(position, 1.0);\n");
    reveal_strlit("vec4(position, 0.0, 1.0);\n");
    let statement = position_statement(m);
    assert forall|j: int| 0 <= j < statement.len() implies statement[j] != 'f' by {
        let assign = "gl_Position = "@;
        let matrices = transform_prefix(m.use_proj, m.use_view);
        let position = homogeneous_position(m.use_3d);
        assert(forall|k: int| 0 <= k < assign.len() ==> assign[k] != 'f');
        assert(forall|k: int| 0 <= k < "u_proj * "@.len() ==> "u_proj * "@[k] != 'f');
        assert(forall|k: int| 0 <= k < "u_view * "@.len() ==> "u_view * "@[k] != 'f');
        assert(forall|k: int| 0 <= k < matrices.len() ==> matrices[k] != 'f');
        assert(forall|k: int| 0 <= k < position.len() ==> position[k] != 'f');
    }
    lemma_hoist_keeps_plain_prefix(statement, m.vertex_body);
    assert(vertex_source(m) =~= vertex_header(m) + "\n"@ + shared_declarations(m) + "\n"@ + hoist(
        m.vertex_body,
    ).definitions + "void main() {\n"@ + position_statement(m) + hoist(m.vertex_body).body
        + "}\n"@);
}

/// The statement that forwards an attribute is added at the end of the
/// vertex body, and the position assignment is put in front of the body
/// when the source is generated: in the vertex stage the forwarding
/// statement stands after the position assignment and after every
/// statement added before it.
pub proof fn lemma_forwarding_follows_position(m: BuilderModel, name: Seq<char>)
    ensures
        occurs_at(
            full_vertex_body(
                BuilderModel { vertex_body: m.vertex_body + forwarding_statement(name), ..m },
            ),
            forwarding_statement(name),
            (position_statement(m).len() + m.vertex_body.len()) as int,
        ),
{
    let after = BuilderModel { vertex_body: m.vertex_body + forwarding_statement(name), ..m };
    let head = position_statement(m) + m.vertex_body;
    let line = forwarding_statement(name);
    assert(full_vertex_body(after) =~= head + line);
    assert((head + line).subrange(head.len() as int, (head.len() + line.len()) as int) =~= line);
}

/// The generated sources depend on nothing but what was declared: two
/// builder states that agree yield the same pair of sources.
pub proof fn lemma_sources_determined(a: BuilderModel, b: BuilderModel)
    requires
        a == b,
    ensures
        vertex_source(a) == vertex_source(b),
        fragment_source(a) == fragment_source(b),
{
}

} // verus!
