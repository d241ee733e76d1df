use canvas_gl::rendering::hoist::{
    append_span, find_block_close, find_marker, hoist_functions, remove_span, MARKER_LEN,
};

fn chars(text: &str) -> Vec<char> {
    text.chars().collect()
}

#[test]
fn marker_positions() {
    assert_eq!(MARKER_LEN, 5);
    let text = chars("a func b func c");
    assert_eq!(find_marker(&text, 0), Some(2));
    assert_eq!(find_marker(&text, 2), Some(2));
    assert_eq!(find_marker(&text, 3), Some(9));
    assert_eq!(find_marker(&text, 10), None);
    assert_eq!(find_marker(&text, 15), None);
    assert_eq!(find_marker(&text, 100), None);
}

#[test]
fn marker_needs_the_space() {
    assert_eq!(find_marker(&chars("func"), 0), None);
    assert_eq!(find_marker(&chars("func\t"), 0), None);
    assert_eq!(find_marker(&chars("Func "), 0), None);
    assert_eq!(find_marker(&chars("function f"), 0), None);
    assert_eq!(find_marker(&chars("func "), 0), Some(0));
    assert_eq!(find_marker(&chars("ffunc "), 0), Some(1));
    assert_eq!(find_marker(&chars(""), 0), None);
}

#[test]
fn block_ends() {
    assert_eq!(find_block_close(&chars("f() {}"), 0), Some(5));
    assert_eq!(find_block_close(&chars("f() { { } { { } } } tail }"), 0), Some(18));
    assert_eq!(find_block_close(&chars("{}{}"), 0), Some(1));
    assert_eq!(find_block_close(&chars("{}{}"), 1), None);
    assert_eq!(find_block_close(&chars("{}{}"), 2), Some(3));
    assert_eq!(find_block_close(&chars("{}{}"), 4), None);
}

#[test]
fn block_without_end() {
    assert_eq!(find_block_close(&chars(""), 0), None);
    assert_eq!(find_block_close(&chars("no braces"), 0), None);
    assert_eq!(find_block_close(&chars("} {}"), 0), None);
    assert_eq!(find_block_close(&chars("{ { }"), 0), None);
    assert_eq!(find_block_close(&chars("{"), 0), None);
    assert_eq!(find_block_close(&chars("{}"), 7), None);
}

#[test]
fn spans() {
    let text = chars("0123456789");
    assert_eq!(remove_span(&text, 2, 5), chars("0156789"));
    assert_eq!(remove_span(&text, 0, 10), chars(""));
    assert_eq!(remove_span(&text, 4, 4), text);
    assert_eq!(remove_span(&text, 0, 1), chars("123456789"));
    assert_eq!(remove_span(&text, 9, 10), chars("012345678"));

    let mut out = chars("ab");
    append_span(&mut out, &text, 3, 6);
    assert_eq!(out, chars("ab345"));
    append_span(&mut out, &text, 6, 6);
    assert_eq!(out, chars("ab345"));
    append_span(&mut out, &text, 0, 10);
    assert_eq!(out, chars("ab3450123456789"));
}

#[test]
fn hoisting_keeps_every_other_character() {
    let body = "x = 1;\nfunc float f(float a) {\n\treturn a * 2.0;\n}\ny = f(x);\nfunc void g() {}\n";
    let (definitions, rest) = hoist_functions(chars(body));
    assert_eq!(definitions, chars("float f(float a) {\n\treturn a * 2.0;\n}\nvoid g() {}\n"));
    assert_eq!(rest, chars("x = 1;\n\ny = f(x);\n\n"));
    // Per block the marker goes and one line break comes.
    assert_eq!(definitions.len() + rest.len(), body.chars().count() - 2 * (MARKER_LEN - 1));
}

#[test]
fn hoisting_a_function_inside_a_function() {
    // The inner marker belongs to the text of the outer block, which leaves
    // the body as a whole.
    let (definitions, rest) = hoist_functions(chars("func a() { func b() {} } c"));
    assert_eq!(definitions, chars("a() { func b() {} }\n"));
    assert_eq!(rest, chars(" c"));
}
