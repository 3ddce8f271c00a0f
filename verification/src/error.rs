//! The failures of a scan.

use crate::schema::Column;
use crate::text::{decimal, push_numeral};
use vstd::prelude::*;
use vstd::string::StringExecFns;

verus! {

/// Why a lifecycle step failed. Every failure ends the step: nothing is
/// retried.
#[derive(Debug, Clone, PartialEq, Eq)]
pub enum FdwError {
    /// The server options hold no credential.
    MissingCredential,
    /// The query has no equality predicate on the postal code.
    MissingPostalCode,
    /// The upstream answered with a status outside 200..=299.
    Transport { status: u16, body: String },
    /// The response body is not JSON; `message` is the decoder's report.
    Decode { message: String },
    /// The response has no top-level `forecast` array.
    MissingForecast,
    /// The forecast record at `index` lacks the field of `column`, or holds
    /// a value there that the column cannot take.
    InvalidField { column: Column, index: usize },
    /// The row index is not below the row count.
    RowOutOfBounds,
    /// The requested column is not in the declared schema.
    UnknownColumn { name: String },
    /// The table cannot be modified.
    Unsupported,
}

/// The mathematical value of an [`FdwError`].
pub ghost enum FdwErrorModel {
    MissingCredential,
    MissingPostalCode,
    Transport { status: u16, body: Seq<char> },
    Decode { message: Seq<char> },
    MissingForecast,
    InvalidField { column: Column, index: nat },
    RowOutOfBounds,
    UnknownColumn { name: Seq<char> },
    Unsupported,
}

impl FdwErrorModel {
    /// The message that the host shows for the failure.
    pub open spec fn message(self) -> Seq<char> {
        match self {
            FdwErrorModel::MissingCredential => "api_key option is required in server options"@,
            FdwErrorModel::MissingPostalCode =>
                "postal_code parameter is required in WHERE clause (e.g., WHERE postal_code = '69168')"@,
            FdwErrorModel::Transport { status, body } => "Corrently API error: HTTP status "@
                + decimal(status as int) + " - "@ + body,
            FdwErrorModel::Decode { message } => "JSON parse error: "@ + message,
            FdwErrorModel::MissingForecast => "missing or invalid 'forecast' array in response"@,
            FdwErrorModel::InvalidField { column, index } => "missing or invalid '"@
                + column.wire_name_spec() + "' at index "@ + decimal(index as int),
            FdwErrorModel::RowOutOfBounds => "row index out of bounds"@,
            FdwErrorModel::UnknownColumn { name } => "unknown column '"@ + name + "'"@,
            FdwErrorModel::Unsupported => "modify operations on foreign table are not supported"@,
        }
    }
}

impl View for FdwError {
    type V = FdwErrorModel;

    open spec fn view(&self) -> FdwErrorModel {
        match self {
            FdwError::MissingCredential => FdwErrorModel::MissingCredential,
            FdwError::MissingPostalCode => FdwErrorModel::MissingPostalCode,
            FdwError::Transport { status, body } => FdwErrorModel::Transport {
                status: *status,
                body: body@,
            },
            FdwError::Decode { message } => FdwErrorModel::Decode { message: message@ },
            FdwError::MissingForecast => FdwErrorModel::MissingForecast,
            FdwError::InvalidField { column, index } => FdwErrorModel::InvalidField {
                column: *column,
                index: *index as nat,
            },
            FdwError::RowOutOfBounds => FdwErrorModel::RowOutOfBounds,
            FdwError::UnknownColumn { name } => FdwErrorModel::UnknownColumn { name: name@ },
            FdwError::Unsupported => FdwErrorModel::Unsupported,
        }
    }
}

impl FdwError {
    /// The message that the host shows for the failure. It names the field
    /// and index, the column, the status or the missing option.
    pub fn message(&self) -> (r: String)
        ensures
            r@ == self@.message(),
    {
        match self {
            FdwError::MissingCredential => String::from_str(
                "api_key option is required in server options",
            ),
            FdwError::MissingPostalCode => String::from_str(
                "postal_code parameter is required in WHERE clause (e.g., WHERE postal_code = '69168')",
            ),
            FdwError::Transport { status, body } => {
                let mut out = String::from_str("Corrently API error: HTTP status ");
                push_numeral(&mut out, *status as u64);
                out.append(" - ");
                out.append(body.as_str());
                out
            },
            FdwError::Decode { message } => {
                let mut out = String::from_str("JSON parse error: ");
                out.append(message.as_str());
                out
            },
            FdwError::MissingForecast => String::from_str(
                "missing or invalid 'forecast' array in response",
            ),
            FdwError::InvalidField { column, index } => {
                let mut out = String::from_str("missing or invalid '");
                out.append(column.wire_name());
                out.append("' at index ");
                push_numeral(&mut out, *index as u64);
                out
            },
            FdwError::RowOutOfBounds => String::from_str("row index out of bounds"),
            FdwError::UnknownColumn { name } => {
                let mut out = String::from_str("unknown column '");
                out.append(name.as_str());
                out.append("'");
                out
            },
            FdwError::Unsupported => String::from_str(
                "modify operations on foreign table are not supported",
            ),
        }
    }
}

} // verus!
