use command_bridge::commands::{
    change_password, check_password_status, delete_transaction, disable_password, export_spending,
    get_categories, get_category_breakdown, get_monthly_spending_by_category, get_spending_summary,
    get_transactions, get_trends, parse_csv, setup_password, update_transaction, verify_password,
    Operation, TransactionFilter, DEFAULT_TREND_MONTHS,
};
use serde_json::Value;

fn text(value: &str) -> Value {
    Value::String(value.to_string())
}

fn object(members: Vec<(&str, Value)>) -> serde_json::Map<String, Value> {
    let mut map = serde_json::Map::new();
    for (name, value) in members {
        map.insert(name.to_string(), value);
    }
    map
}

#[test]
fn every_operation_has_its_name_and_backend_method() {
    let table = vec![
        (Operation::ParseCsv, "parse_csv", "parse_csv"),
        (Operation::GetTransactions, "get_transactions", "get_transactions"),
        (Operation::UpdateTransaction, "update_transaction", "update_transaction"),
        (Operation::DeleteTransaction, "delete_transaction", "delete_transaction"),
        (Operation::GetSpendingSummary, "get_spending_summary", "get_spending_summary"),
        (Operation::GetTrends, "get_trends", "get_trends"),
        (Operation::GetCategories, "get_categories", "get_categories"),
        (Operation::GetCategoryBreakdown, "get_category_breakdown", "get_category_breakdown"),
        (Operation::CheckPasswordStatus, "check_password_status", "check_password_status"),
        (Operation::SetupPassword, "setup_password", "setup_password"),
        (Operation::VerifyPassword, "verify_password", "verify_password"),
        (Operation::ChangePassword, "change_password", "change_password_method"),
        (Operation::DisablePassword, "disable_password", "disable_password"),
        (Operation::ExportSpending, "export_spending", "export_spending_by_category"),
        (
            Operation::GetMonthlySpendingByCategory,
            "get_monthly_spending_by_category",
            "get_monthly_spending_by_category",
        ),
    ];
    assert_eq!(table.len(), 15);
    for (operation, name, method) in table {
        assert_eq!(operation.name(), name);
        assert_eq!(operation.backend_method(), method);
    }
}

#[test]
fn parse_csv_passes_the_file_path() {
    let request = parse_csv("/tmp/statement.csv".to_string());
    assert_eq!(request.operation, Operation::ParseCsv);
    assert_eq!(request.arguments, object(vec![("file_path", text("/tmp/statement.csv"))]));
}

#[test]
fn get_transactions_without_filters_has_no_arguments() {
    let request = get_transactions(None, None);
    assert_eq!(request.operation, Operation::GetTransactions);
    assert!(request.arguments.is_empty());
}

#[test]
fn get_transactions_sends_every_bound_of_the_filter() {
    let filter = TransactionFilter {
        start_date: Some("2024-01-01".to_string()),
        end_date: None,
        category: Some("Groceries".to_string()),
    };
    let request = get_transactions(Some(filter), None);
    let expected_filter = object(vec![
        ("start_date", text("2024-01-01")),
        ("end_date", Value::Null),
        ("category", text("Groceries")),
    ]);
    assert_eq!(request.arguments, object(vec![("filters", Value::Object(expected_filter))]));
}

#[test]
fn get_transactions_with_an_open_filter_sends_three_nulls() {
    let filter = TransactionFilter { start_date: None, end_date: None, category: None };
    let request = get_transactions(Some(filter), None);
    let expected_filter = object(vec![
        ("start_date", Value::Null),
        ("end_date", Value::Null),
        ("category", Value::Null),
    ]);
    assert_eq!(request.arguments, object(vec![("filters", Value::Object(expected_filter))]));
}

#[test]
fn get_transactions_does_not_pass_pagination_on() {
    let pagination = Value::Object(object(vec![("page", Value::from(2)), ("size", Value::from(50))]));
    let with_pagination = get_transactions(None, Some(pagination.clone()));
    assert!(with_pagination.arguments.is_empty());
    let filter = TransactionFilter { start_date: None, end_date: None, category: None };
    let filtered = get_transactions(Some(filter), Some(pagination));
    assert_eq!(filtered.arguments.len(), 1);
    assert!(filtered.arguments.contains_key("filters"));
}

#[test]
fn update_transaction_passes_the_updates_through() {
    let updates = Value::Object(object(vec![
        ("category", text("Travel")),
        ("tags", Value::Array(vec![text("a"), Value::Bool(true), Value::Null])),
    ]));
    let request = update_transaction("tx-17".to_string(), updates.clone());
    assert_eq!(request.operation, Operation::UpdateTransaction);
    assert_eq!(
        request.arguments,
        object(vec![("transaction_id", text("tx-17")), ("updates", updates)])
    );
}

#[test]
fn delete_transaction_passes_the_id() {
    let request = delete_transaction("tx-17".to_string());
    assert_eq!(request.operation, Operation::DeleteTransaction);
    assert_eq!(request.arguments, object(vec![("transaction_id", text("tx-17"))]));
}

#[test]
fn date_span_operations_pass_both_dates() {
    let expected =
        object(vec![("start_date", text("2024-01-01")), ("end_date", text("2024-03-31"))]);
    let summary = get_spending_summary("2024-01-01".to_string(), "2024-03-31".to_string());
    assert_eq!(summary.operation, Operation::GetSpendingSummary);
    assert_eq!(summary.arguments, expected);
    let breakdown = get_category_breakdown("2024-01-01".to_string(), "2024-03-31".to_string());
    assert_eq!(breakdown.operation, Operation::GetCategoryBreakdown);
    assert_eq!(breakdown.arguments, expected);
    let monthly =
        get_monthly_spending_by_category("2024-01-01".to_string(), "2024-03-31".to_string());
    assert_eq!(monthly.operation, Operation::GetMonthlySpendingByCategory);
    assert_eq!(monthly.arguments, expected);
}

#[test]
fn get_trends_defaults_to_twelve_months() {
    assert_eq!(DEFAULT_TREND_MONTHS, 12);
    let request = get_trends(None);
    assert_eq!(request.operation, Operation::GetTrends);
    assert_eq!(request.arguments, object(vec![("months", Value::from(12))]));
}

#[test]
fn get_trends_keeps_the_months_it_is_given() {
    let request = get_trends(Some(3));
    assert_eq!(request.arguments, object(vec![("months", Value::from(3))]));
    let negative = get_trends(Some(-1));
    assert_eq!(negative.arguments, object(vec![("months", Value::from(-1))]));
    let largest = get_trends(Some(i32::MAX));
    assert_eq!(largest.arguments, object(vec![("months", Value::from(2147483647))]));
}

#[test]
fn operations_without_arguments_send_an_empty_object() {
    let categories = get_categories();
    assert_eq!(categories.operation, Operation::GetCategories);
    assert_eq!(categories.arguments, serde_json::Map::new());
    let status = check_password_status();
    assert_eq!(status.operation, Operation::CheckPasswordStatus);
    assert_eq!(status.arguments, serde_json::Map::new());
}

#[test]
fn password_operations_pass_the_password() {
    let expected = object(vec![("password", text("s3cr3t"))]);
    let setup = setup_password("s3cr3t".to_string());
    assert_eq!(setup.operation, Operation::SetupPassword);
    assert_eq!(setup.arguments, expected);
    let verify = verify_password("s3cr3t".to_string());
    assert_eq!(verify.operation, Operation::VerifyPassword);
    assert_eq!(verify.arguments, expected);
    let disable = disable_password("s3cr3t".to_string());
    assert_eq!(disable.operation, Operation::DisablePassword);
    assert_eq!(disable.arguments, expected);
}

#[test]
fn change_password_passes_both_passwords() {
    let request = change_password("old".to_string(), "new".to_string());
    assert_eq!(request.operation, Operation::ChangePassword);
    assert_eq!(request.operation.backend_method(), "change_password_method");
    assert_eq!(
        request.arguments,
        object(vec![("old_password", text("old")), ("new_password", text("new"))])
    );
}

#[test]
fn export_spending_passes_all_four_arguments() {
    let request = export_spending(
        "2024-01-01".to_string(),
        "2024-12-31".to_string(),
        "csv".to_string(),
        "/tmp/out.csv".to_string(),
    );
    assert_eq!(request.operation, Operation::ExportSpending);
    assert_eq!(request.operation.backend_method(), "export_spending_by_category");
    assert_eq!(
        request.arguments,
        object(vec![
            ("start_date", text("2024-01-01")),
            ("end_date", text("2024-12-31")),
            ("format", text("csv")),
            ("file_path", text("/tmp/out.csv")),
        ])
    );
}
