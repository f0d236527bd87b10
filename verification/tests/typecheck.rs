use cpython::{type_check, type_check_exact, Py_END_OF_BUFFER};

#[test]
fn exact_check_accepts_the_type_itself() {
    assert_eq!(type_check_exact(true), 1);
}

#[test]
fn exact_check_rejects_every_other_type() {
    assert_eq!(type_check_exact(false), 0);
}

#[test]
fn check_accepts_the_type_itself() {
    assert_eq!(type_check(true, false), 1);
}

#[test]
fn check_accepts_a_subtype() {
    assert_eq!(type_check(false, true), 1);
}

#[test]
fn check_rejects_an_unrelated_type() {
    assert_eq!(type_check(false, false), 0);
}

#[test]
fn exact_success_implies_check_success() {
    assert_eq!(type_check_exact(true), 1);
    assert_eq!(type_check(true, false), 1);
    assert_eq!(type_check(true, true), 1);
}

#[test]
fn end_of_buffer_sentinel() {
    assert_eq!(Py_END_OF_BUFFER, -1);
}
