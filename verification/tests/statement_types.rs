use pgparser::statement_types;

#[test]
fn single_statement_label() {
    let outcome = statement_types(Some(vec!["SelectStmt"]));
    assert_eq!(outcome, Ok(vec!["SelectStmt".to_string()]));
}

#[test]
fn multiple_statement_labels_in_order() {
    let outcome = statement_types(Some(vec!["SelectStmt", "InsertStmt"]));
    assert_eq!(
        outcome,
        Ok(vec!["SelectStmt".to_string(), "InsertStmt".to_string()])
    );
}

#[test]
fn rejected_query_yields_fixed_error() {
    let outcome = statement_types(None);
    assert_eq!(outcome, Err("error parsing query".to_string()));
}

#[test]
fn empty_report_yields_empty_sequence() {
    let outcome = statement_types(Some(vec![]));
    assert_eq!(outcome, Ok(Vec::<String>::new()));
}

#[test]
fn repeated_invocation_yields_identical_outcomes() {
    let first = statement_types(Some(vec!["UpdateStmt", "SelectStmt"]));
    let second = statement_types(Some(vec!["UpdateStmt", "SelectStmt"]));
    assert_eq!(first, second);
    let first_failure = statement_types(None);
    let second_failure = statement_types(None);
    assert_eq!(first_failure, second_failure);
}

#[test]
fn duplicate_labels_are_kept() {
    let outcome = statement_types(Some(vec!["InsertStmt", "InsertStmt"]));
    assert_eq!(
        outcome,
        Ok(vec!["InsertStmt".to_string(), "InsertStmt".to_string()])
    );
}
