use ununi::error::{ErrorKind, PickerError};

#[test]
fn every_failure_has_its_kind_and_its_cause() {
    let cases = [
        (PickerError::CorpusUnavailable("no route".to_string()), ErrorKind::CorpusUnavailable, true),
        (PickerError::MalformedRecord("xyz".to_string()), ErrorKind::MalformedRecord, true),
        (PickerError::IndexUnavailable("locked".to_string()), ErrorKind::IndexUnavailable, true),
        (PickerError::QuerySyntax("dangling AND".to_string()), ErrorKind::QuerySyntax, false),
        (PickerError::InjectionFailure("gone".to_string()), ErrorKind::InjectionFailure, false),
    ];
    let causes = ["no route", "xyz", "locked", "dangling AND", "gone"];
    for ((error, kind, fatal), cause) in cases.iter().zip(causes) {
        assert_eq!(error.kind(), *kind);
        assert_eq!(error.is_fatal(), *fatal);
        assert_eq!(error.detail(), cause);
    }
}

#[test]
fn failures_of_one_kind_differ_by_their_cause() {
    let one = PickerError::MalformedRecord("a".to_string());
    let other = PickerError::MalformedRecord("b".to_string());
    assert_ne!(one, other);
    assert_eq!(one.kind(), other.kind());
    assert_eq!(one.clone(), one);
    assert_ne!(one, PickerError::IndexUnavailable("a".to_string()));
}
