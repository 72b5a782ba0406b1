use heave::sqlite;
use heave::FailedTo;

#[test]
fn failures_of_the_same_kind_are_equal() {
    assert_eq!(FailedTo::ConvertValue, FailedTo::ConvertValue);
    assert_eq!(
        FailedTo::ExecutePredicate(vec!["a".to_string()]),
        FailedTo::ExecutePredicate(vec![])
    );
    assert_eq!(
        FailedTo::SQLite(sqlite::FailedTo::ExecuteQuery),
        FailedTo::SQLite(sqlite::FailedTo::OpenConnection)
    );
}

#[test]
fn failures_of_different_kinds_differ() {
    assert_ne!(FailedTo::ConvertValue, FailedTo::ConvertEntity);
    assert_ne!(FailedTo::LockCatalog, FailedTo::PersistCatalog);
    assert_ne!(FailedTo::SQLite(sqlite::FailedTo::ExecuteQuery), FailedTo::LoadFromDB);
}

#[test]
fn sqlite_failure_converts_into_a_library_failure() {
    let failure: FailedTo = sqlite::FailedTo::PrepareStatement.into();
    match failure {
        FailedTo::SQLite(inner) => assert_eq!(inner, sqlite::FailedTo::PrepareStatement),
        _ => panic!("expected a SQLite failure"),
    }
}
