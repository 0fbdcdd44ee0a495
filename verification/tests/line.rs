use pkg_a::greet;
use pkg_a::labelled_line;

#[test]
fn labelled_line_of_the_program() {
    assert_eq!(labelled_line("pkg-b", &greet("Nix")), "[pkg-b] Hello, Nix!");
}

#[test]
fn labelled_line_brackets_label_then_text() {
    assert_eq!(labelled_line("a", "b"), "[a] b");
    assert_eq!(labelled_line("tag", "some text"), "[tag] some text");
}

#[test]
fn labelled_line_with_empty_parts() {
    assert_eq!(labelled_line("", ""), "[] ");
    assert_eq!(labelled_line("", "text"), "[] text");
    assert_eq!(labelled_line("label", ""), "[label] ");
}

#[test]
fn labelled_line_is_a_single_line() {
    let line = labelled_line("pkg-b", &greet("Nix"));
    assert!(!line.contains('\n'));
    assert_eq!(line.len(), 19);
}
