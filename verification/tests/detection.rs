use nixlings::detect::contains_marker;
use nixlings::detect::is_done;

const MARKER: &str = "# I AM NOT DONE";

fn bytes(s: &str) -> Vec<u8> {
    s.as_bytes().to_vec()
}

fn marker() -> Vec<u8> {
    bytes(MARKER)
}

#[test]
fn marker_at_start_means_not_done() {
    let contents = bytes("# I AM NOT DONE\n{ description = \"exercise\"; }\n");
    assert!(contains_marker(&contents, &marker()));
    assert!(!is_done(&contents, &marker()));
}

#[test]
fn marker_in_middle_means_not_done() {
    let contents = bytes("{ description = \"x\";\n  # I AM NOT DONE\n  out = 1; }\n");
    assert!(contains_marker(&contents, &marker()));
    assert!(!is_done(&contents, &marker()));
}

#[test]
fn marker_at_end_means_not_done() {
    let contents = bytes("{ out = 1; }\n# I AM NOT DONE");
    assert!(contains_marker(&contents, &marker()));
    assert!(!is_done(&contents, &marker()));
}

#[test]
fn marker_with_surrounding_whitespace_means_not_done() {
    let contents = bytes("   \t # I AM NOT DONE \t  \n");
    assert!(contains_marker(&contents, &marker()));
    assert!(!is_done(&contents, &marker()));
}

#[test]
fn no_marker_means_done() {
    let contents = bytes("{ description = \"finished exercise\"; out = 1; }\n");
    assert!(!contains_marker(&contents, &marker()));
    assert!(is_done(&contents, &marker()));
}

#[test]
fn removing_every_occurrence_flips_to_done() {
    let with_marker = "# I AM NOT DONE\nbody\n# I AM NOT DONE\n";
    assert!(!is_done(&bytes(with_marker), &marker()));
    let without = with_marker.replace(MARKER, "");
    assert!(is_done(&bytes(&without), &marker()));
}

#[test]
fn different_case_does_not_count() {
    let contents = bytes("# i am not done\n");
    assert!(is_done(&contents, &marker()));
}

#[test]
fn missing_character_does_not_count() {
    let contents = bytes("# I AM NOT DON\n");
    assert!(is_done(&contents, &marker()));
}

#[test]
fn extra_character_inside_does_not_count() {
    let contents = bytes("# I AM  NOT DONE\n");
    assert!(is_done(&contents, &marker()));
}

#[test]
fn empty_file_is_done() {
    assert!(is_done(&bytes(""), &marker()));
}

#[test]
fn empty_marker_is_always_present() {
    assert!(contains_marker(&bytes("anything"), &bytes("")));
    assert!(contains_marker(&bytes(""), &bytes("")));
}

#[test]
fn marker_longer_than_file_is_absent() {
    assert!(is_done(&bytes("# I AM"), &marker()));
}
