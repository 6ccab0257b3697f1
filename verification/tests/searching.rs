use render_gl::text::text_contains;
use render_gl::text::text_ends_with;
use render_gl::text::text_eq;

#[test]
fn text_eq_compares_characters() {
    assert!(text_eq("", ""));
    assert!(text_eq("void main", "void main"));
    assert!(!text_eq("void main", "void mai"));
    assert!(!text_eq("void main", "void maiN"));
}

#[test]
fn empty_needle_is_always_contained() {
    assert!(text_contains("", ""));
    assert!(text_contains("abc", ""));
}

#[test]
fn contains_finds_needle_anywhere() {
    assert!(text_contains("void main(){}", "void main"));
    assert!(text_contains("#version 450\nvoid main(){}", "void main"));
    assert!(text_contains("void main", "void main"));
    assert!(!text_contains("void mai", "void main"));
    assert!(!text_contains("vvoid mainn", "void  main"));
}

#[test]
fn near_matches_do_not_count() {
    assert!(!text_contains("void moin void mai", "void main"));
    assert!(text_contains("void maivoid main", "void main"));
}

#[test]
fn ends_with_looks_at_the_tail_only() {
    assert!(text_ends_with("triangle.vert", ".vert"));
    assert!(text_ends_with(".vert", ".vert"));
    assert!(!text_ends_with("vert", ".vert"));
    assert!(!text_ends_with("triangle.vert.glsl", ".vert"));
    assert!(text_ends_with("a", ""));
}
