//! The failures a lookup can end in.

use vstd::prelude::*;

verus! {

/// `std::io::Error`, carried through unchanged from whoever performed the
/// file or process operation.
#[verifier::external_type_specification]
#[verifier::external_body]
pub struct ExIoError(std::io::Error);

/// `csv::Error`, as the tabular reader reports it.
#[verifier::external_type_specification]
#[verifier::external_body]
pub struct ExCsvError(csv::Error);

/// Why an operation failed. Every failure is final for the call it belongs to.
#[derive(Debug)]
pub enum AppError {
    /// A file or process operation failed.
    IoError(std::io::Error),
    /// The engine exited unsuccessfully; holds its standard error text.
    CodeQLError(String),
    /// The tabular text is malformed.
    CsvError(csv::Error),
    /// The data row with this index (the header not counted) does not fit
    /// the record shape asked for.
    RecordError { row: usize },
    /// A line range that is empty, starts before line 1, or ends after the
    /// last of the `lines` lines of the text.
    OutOfRange { start: u32, end: u32, lines: usize },
    /// The query matched nothing where a match was required.
    NotFound(String),
    /// The query matched more than once where one match was required.
    Ambiguous(String),
    /// Every workspace number has been given out; no run can begin.
    NoWorkspace,
}

/// The mathematical content of an [`AppError`].
pub enum ErrorModel {
    Io(std::io::Error),
    Engine(Seq<char>),
    Csv(csv::Error),
    Record { row: nat },
    OutOfRange { start: nat, end: nat, lines: nat },
    NotFound(Seq<char>),
    Ambiguous(Seq<char>),
    NoWorkspace,
}

impl DeepView for AppError {
    type V = ErrorModel;

    open spec fn deep_view(&self) -> ErrorModel {
        match *self {
            AppError::IoError(e) => ErrorModel::Io(e),
            AppError::CodeQLError(text) => ErrorModel::Engine(text@),
            AppError::CsvError(e) => ErrorModel::Csv(e),
            AppError::RecordError { row } => ErrorModel::Record { row: row as nat },
            AppError::OutOfRange { start, end, lines } => ErrorModel::OutOfRange {
                start: start as nat,
                end: end as nat,
                lines: lines as nat,
            },
            AppError::NotFound(text) => ErrorModel::NotFound(text@),
            AppError::Ambiguous(text) => ErrorModel::Ambiguous(text@),
            AppError::NoWorkspace => ErrorModel::NoWorkspace,
        }
    }
}

} // verus!
