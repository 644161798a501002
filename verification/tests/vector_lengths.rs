use semantic_units::embedding::{same_length, LengthMismatch};

#[test]
fn vectors_of_the_same_length_pass() {
    assert_eq!(same_length(3, 3), Ok(()));
    assert_eq!(same_length(0, 0), Ok(()));
}

#[test]
fn vectors_of_different_length_fail_with_length_mismatch() {
    assert_eq!(same_length(3, 2), Err(LengthMismatch { left: 3, right: 2 }));
    assert_eq!(same_length(0, 1), Err(LengthMismatch { left: 0, right: 1 }));
    assert_eq!(same_length(3, 2).unwrap_err().message(), "Vectors must have the same length");
}
