use frieze::fs::{check_outcome, CheckOutcome};

#[test]
fn an_identical_file_is_up_to_date() {
    let expected = b"openapi: 3.0.3\n".to_vec();
    assert_eq!(
        check_outcome(&expected, Some(expected.clone())),
        CheckOutcome::UpToDate
    );
    assert_eq!(check_outcome(&vec![], Some(vec![])), CheckOutcome::UpToDate);
}

#[test]
fn a_modified_file_is_stale() {
    let expected = b"openapi: 3.0.3\n".to_vec();
    assert_eq!(
        check_outcome(&expected, Some(b"tampered content\n".to_vec())),
        CheckOutcome::Stale
    );
    assert_eq!(
        check_outcome(&expected, Some(b"openapi: 3.0.4\n".to_vec())),
        CheckOutcome::Stale
    );
    assert_eq!(
        check_outcome(&expected, Some(b"openapi: 3.0.3\n\n".to_vec())),
        CheckOutcome::Stale
    );
}

#[test]
fn an_absent_file_is_missing() {
    assert_eq!(check_outcome(&b"x".to_vec(), None), CheckOutcome::Missing);
}
