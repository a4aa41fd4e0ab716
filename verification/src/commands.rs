//! The operations that the user interface can ask for.
//!
//! Each operation has a fixed backend method and a fixed shape of arguments.
//! The functions of this module shape the caller's input into a request; none
//! of them does any work of the backend.

use crate::json::{
    empty_object, integer_value, null_value, object_members, object_value, put_member, text_value,
    value_model, JsonModel,
};
use vstd::prelude::*;

verus! {

/// One entry of the table of operations.
#[derive(Clone, Copy, Debug, PartialEq, Eq, Structural)]
pub enum Operation {
    ParseCsv,
    GetTransactions,
    UpdateTransaction,
    DeleteTransaction,
    GetSpendingSummary,
    GetTrends,
    GetCategories,
    GetCategoryBreakdown,
    CheckPasswordStatus,
    SetupPassword,
    VerifyPassword,
    ChangePassword,
    DisablePassword,
    ExportSpending,
    GetMonthlySpendingByCategory,
}

impl Operation {
    /// The name under which the user interface asks for the operation.
    pub open spec fn name_text(self) -> Seq<char> {
        match self {
            Operation::ParseCsv => "parse_csv"@,
            Operation::GetTransactions => "get_transactions"@,
            Operation::UpdateTransaction => "update_transaction"@,
            Operation::DeleteTransaction => "delete_transaction"@,
            Operation::GetSpendingSummary => "get_spending_summary"@,
            Operation::GetTrends => "get_trends"@,
            Operation::GetCategories => "get_categories"@,
            Operation::GetCategoryBreakdown => "get_category_breakdown"@,
            Operation::CheckPasswordStatus => "check_password_status"@,
            Operation::SetupPassword => "setup_password"@,
            Operation::VerifyPassword => "verify_password"@,
            Operation::ChangePassword => "change_password"@,
            Operation::DisablePassword => "disable_password"@,
            Operation::ExportSpending => "export_spending"@,
            Operation::GetMonthlySpendingByCategory => "get_monthly_spending_by_category"@,
        }
    }

    /// The method of the backend that the operation forwards to.
    pub open spec fn method_text(self) -> Seq<char> {
        match self {
            Operation::ChangePassword => "change_password_method"@,
            Operation::ExportSpending => "export_spending_by_category"@,
            _ => self.name_text(),
        }
    }

    /// The name under which the user interface asks for the operation.
    pub fn name(self) -> (name: &'static str)
        ensures
            name@ == self.name_text(),
    {
        match self {
            Operation::ParseCsv => "parse_csv",
            Operation::GetTransactions => "get_transactions",
            Operation::UpdateTransaction => "update_transaction",
            Operation::DeleteTransaction => "delete_transaction",
            Operation::GetSpendingSummary => "get_spending_summary",
            Operation::GetTrends => "get_trends",
            Operation::GetCategories => "get_categories",
            Operation::GetCategoryBreakdown => "get_category_breakdown",
            Operation::CheckPasswordStatus => "check_password_status",
            Operation::SetupPassword => "setup_password",
            Operation::VerifyPassword => "verify_password",
            Operation::ChangePassword => "change_password",
            Operation::DisablePassword => "disable_password",
            Operation::ExportSpending => "export_spending",
            Operation::GetMonthlySpendingByCategory => "get_monthly_spending_by_category",
        }
    }

    /// The method of the backend that the operation forwards to.
    pub fn backend_method(self) -> (method: &'static str)
        ensures
            method@ == self.method_text(),
    {
        match self {
            Operation::ChangePassword => "change_password_method",
            Operation::ExportSpending => "export_spending_by_category",
            _ => self.name(),
        }
    }
}

/// A call of one backend method: the operation and its arguments by name.
pub struct CallRequest {
    pub operation: Operation,
    pub arguments: serde_json::Map<String, serde_json::Value>,
}

/// Bounds on the transactions to list. Each of them may be left open.
pub struct TransactionFilter {
    pub start_date: Option<String>,
    pub end_date: Option<String>,
    pub category: Option<String>,
}

/// An object without members.
pub open spec fn no_members() -> Map<Seq<char>, JsonModel> {
    Map::empty()
}

/// What an optional text is sent as: the text, or null where it is left open.
pub open spec fn optional_text_model(text: Option<String>) -> JsonModel {
    match text {
        Some(text) => JsonModel::Text(text@),
        None => JsonModel::Null,
    }
}

/// What a filter is sent as: an object with all three bounds.
pub open spec fn filter_model(filter: TransactionFilter) -> JsonModel {
    JsonModel::Object(
        no_members().insert("start_date"@, optional_text_model(filter.start_date)).insert(
            "end_date"@,
            optional_text_model(filter.end_date),
        ).insert("category"@, optional_text_model(filter.category)),
    )
}

fn optional_text_value(text: Option<String>) -> (value: serde_json::Value)
    ensures
        value_model(value) == optional_text_model(text),
{
    match text {
        Some(text) => text_value(text),
        None => null_value(),
    }
}

fn filter_value(filter: TransactionFilter) -> (value: serde_json::Value)
    ensures
        value_model(value) == filter_model(filter),
{
    let mut members = empty_object();
    put_member(&mut members, "start_date", optional_text_value(filter.start_date));
    put_member(&mut members, "end_date", optional_text_value(filter.end_date));
    put_member(&mut members, "category", optional_text_value(filter.category));
    object_value(members)
}

/// Reads the statement file at `file_path` into the backend.
pub fn parse_csv(file_path: String) -> (request: CallRequest)
    ensures
        request.operation == Operation::ParseCsv,
        object_members(request.arguments) == no_members().insert(
            "file_path"@,
            JsonModel::Text(file_path@),
        ),
{
    let mut arguments = empty_object();
    put_member(&mut arguments, "file_path", text_value(file_path));
    CallRequest { operation: Operation::ParseCsv, arguments }
}

/// Lists the transactions that pass `filters`. Without filters the backend is
/// called without arguments. `pagination` is not passed on.
#[allow(unused_variables)]
pub fn get_transactions(filters: Option<TransactionFilter>, pagination: Option<serde_json::Value>) -> (request:
    CallRequest)
    ensures
        request.operation == Operation::GetTransactions,
        object_members(request.arguments) == match filters {
            Some(filter) => no_members().insert("filters"@, filter_model(filter)),
            None => no_members(),
        },
{
    let mut arguments = empty_object();
    if let Some(filter) = filters {
        put_member(&mut arguments, "filters", filter_value(filter));
    }
    CallRequest { operation: Operation::GetTransactions, arguments }
}

/// Changes the transaction `transaction_id` as `updates` says.
pub fn update_transaction(transaction_id: String, updates: serde_json::Value) -> (request:
    CallRequest)
    ensures
        request.operation == Operation::UpdateTransaction,
        object_members(request.arguments) == no_members().insert(
            "transaction_id"@,
            JsonModel::Text(transaction_id@),
        ).insert("updates"@, value_model(updates)),
{
    let mut arguments = empty_object();
    put_member(&mut arguments, "transaction_id", text_value(transaction_id));
    put_member(&mut arguments, "updates", updates);
    CallRequest { operation: Operation::UpdateTransaction, arguments }
}

/// Removes the transaction `transaction_id`.
pub fn delete_transaction(transaction_id: String) -> (request: CallRequest)
    ensures
        request.operation == Operation::DeleteTransaction,
        object_members(request.arguments) == no_members().insert(
            "transaction_id"@,
            JsonModel::Text(transaction_id@),
        ),
{
    let mut arguments = empty_object();
    put_member(&mut arguments, "transaction_id", text_value(transaction_id));
    CallRequest { operation: Operation::DeleteTransaction, arguments }
}

/// The arguments of an operation on a span of dates.
pub open spec fn date_span_members(start_date: Seq<char>, end_date: Seq<char>) -> Map<
    Seq<char>,
    JsonModel,
> {
    no_members().insert("start_date"@, JsonModel::Text(start_date)).insert(
        "end_date"@,
        JsonModel::Text(end_date),
    )
}

fn date_span_arguments(start_date: String, end_date: String) -> (arguments: serde_json::Map<
    String,
    serde_json::Value,
>)
    ensures
        object_members(arguments) == date_span_members(start_date@, end_date@),
{
    let mut arguments = empty_object();
    put_member(&mut arguments, "start_date", text_value(start_date));
    put_member(&mut arguments, "end_date", text_value(end_date));
    arguments
}

/// Sums up the spending between the two dates.
pub fn get_spending_summary(start_date: String, end_date: String) -> (request: CallRequest)
    ensures
        request.operation == Operation::GetSpendingSummary,
        object_members(request.arguments) == date_span_members(start_date@, end_date@),
{
    CallRequest {
        operation: Operation::GetSpendingSummary,
        arguments: date_span_arguments(start_date, end_date),
    }
}

/// The number of months that the trends cover where the caller names none.
pub const DEFAULT_TREND_MONTHS: i32 = 12;

/// The spending trends over the last `months` months, twelve by default.
pub fn get_trends(months: Option<i32>) -> (request: CallRequest)
    ensures
        request.operation == Operation::GetTrends,
        object_members(request.arguments) == no_members().insert(
            "months"@,
            JsonModel::Integer(
                match months {
                    Some(months) => months as int,
                    None => DEFAULT_TREND_MONTHS as int,
                },
            ),
        ),
{
    let months = match months {
        Some(months) => months,
        None => DEFAULT_TREND_MONTHS,
    };
    let mut arguments = empty_object();
    put_member(&mut arguments, "months", integer_value(months));
    CallRequest { operation: Operation::GetTrends, arguments }
}

/// Lists the categories. The backend is called without arguments.
pub fn get_categories() -> (request: CallRequest)
    ensures
        request.operation == Operation::GetCategories,
        object_members(request.arguments) == no_members(),
{
    CallRequest { operation: Operation::GetCategories, arguments: empty_object() }
}

/// Breaks the spending between the two dates down by category.
pub fn get_category_breakdown(start_date: String, end_date: String) -> (request: CallRequest)
    ensures
        request.operation == Operation::GetCategoryBreakdown,
        object_members(request.arguments) == date_span_members(start_date@, end_date@),
{
    CallRequest {
        operation: Operation::GetCategoryBreakdown,
        arguments: date_span_arguments(start_date, end_date),
    }
}

/// Asks whether a password is set. The backend is called without arguments.
pub fn check_password_status() -> (request: CallRequest)
    ensures
        request.operation == Operation::CheckPasswordStatus,
        object_members(request.arguments) == no_members(),
{
    CallRequest { operation: Operation::CheckPasswordStatus, arguments: empty_object() }
}

/// The arguments of an operation that takes the password alone.
pub open spec fn password_members(password: Seq<char>) -> Map<Seq<char>, JsonModel> {
    no_members().insert("password"@, JsonModel::Text(password))
}

fn password_arguments(password: String) -> (arguments: serde_json::Map<String, serde_json::Value>)
    ensures
        object_members(arguments) == password_members(password@),
{
    let mut arguments = empty_object();
    put_member(&mut arguments, "password", text_value(password));
    arguments
}

/// Sets the password.
pub fn setup_password(password: String) -> (request: CallRequest)
    ensures
        request.operation == Operation::SetupPassword,
        object_members(request.arguments) == password_members(password@),
{
    CallRequest { operation: Operation::SetupPassword, arguments: password_arguments(password) }
}

/// Checks the password.
pub fn verify_password(password: String) -> (request: CallRequest)
    ensures
        request.operation == Operation::VerifyPassword,
        object_members(request.arguments) == password_members(password@),
{
    CallRequest { operation: Operation::VerifyPassword, arguments: password_arguments(password) }
}

/// Replaces the old password by the new one.
pub fn change_password(old_password: String, new_password: String) -> (request: CallRequest)
    ensures
        request.operation == Operation::ChangePassword,
        object_members(request.arguments) == no_members().insert(
            "old_password"@,
            JsonModel::Text(old_password@),
        ).insert("new_password"@, JsonModel::Text(new_password@)),
{
    let mut arguments = empty_object();
    put_member(&mut arguments, "old_password", text_value(old_password));
    put_member(&mut arguments, "new_password", text_value(new_password));
    CallRequest { operation: Operation::ChangePassword, arguments }
}

/// Switches the password off.
pub fn disable_password(password: String) -> (request: CallRequest)
    ensures
        request.operation == Operation::DisablePassword,
        object_members(request.arguments) == password_members(password@),
{
    CallRequest { operation: Operation::DisablePassword, arguments: password_arguments(password) }
}

/// Writes the spending by category between the two dates to `file_path`, in
/// the given format.
pub fn export_spending(start_date: String, end_date: String, format: String, file_path: String) -> (request:
    CallRequest)
    ensures
        request.operation == Operation::ExportSpending,
        object_members(request.arguments) == date_span_members(start_date@, end_date@).insert(
            "format"@,
            JsonModel::Text(format@),
        ).insert("file_path"@, JsonModel::Text(file_path@)),
{
    let mut arguments = date_span_arguments(start_date, end_date);
    put_member(&mut arguments, "format", text_value(format));
    put_member(&mut arguments, "file_path", text_value(file_path));
    CallRequest { operation: Operation::ExportSpending, arguments }
}

/// The spending of each month between the two dates, by category.
pub fn get_monthly_spending_by_category(start_date: String, end_date: String) -> (request:
    CallRequest)
    ensures
        request.operation == Operation::GetMonthlySpendingByCategory,
        object_members(request.arguments) == date_span_members(start_date@, end_date@),
{
    CallRequest {
        operation: Operation::GetMonthlySpendingByCategory,
        arguments: date_span_arguments(start_date, end_date),
    }
}

} // verus!
