//! Errors of the library and the gRPC status that answers a failed request.
use vstd::prelude::*;
use vstd::string::*;

verus! {

#[verifier::external_type_specification]
#[verifier::external_body]
pub struct ExStatus(tonic::Status);

/// The number of the gRPC status code `INTERNAL`.
pub const GRPC_INTERNAL: i32 = 13;

/// What went wrong.
#[derive(Debug, PartialEq, Eq)]
pub enum ErrorCode {
    /// A failure described by its message alone.
    InternalError(String),
    /// No task is registered under the id that was asked for.
    TaskNotFound,
}

/// The error that every fallible function of the library returns.
#[derive(Debug, PartialEq, Eq)]
pub struct RwError {
    pub inner: ErrorCode,
}

/// The mathematical value of an error.
pub enum ErrorCodeView {
    InternalError(Seq<char>),
    TaskNotFound,
}

impl View for ErrorCode {
    type V = ErrorCodeView;

    open spec fn view(&self) -> ErrorCodeView {
        match self {
            ErrorCode::InternalError(message) => ErrorCodeView::InternalError(message@),
            ErrorCode::TaskNotFound => ErrorCodeView::TaskNotFound,
        }
    }
}

impl View for RwError {
    type V = ErrorCodeView;

    open spec fn view(&self) -> ErrorCodeView {
        self.inner@
    }
}

impl ErrorCodeView {
    /// The text that describes the error.
    pub open spec fn text(self) -> Seq<char> {
        match self {
            ErrorCodeView::InternalError(message) => "internal error: "@ + message,
            ErrorCodeView::TaskNotFound => "Task not found"@,
        }
    }

    /// The error for a message that lacks the field `name`.
    pub open spec fn field_not_found(name: Seq<char>) -> ErrorCodeView {
        ErrorCodeView::InternalError(
            "Failed to decode prost: field not found `"@ + name + "`"@,
        )
    }

    /// The gRPC status that reports the error to a client.
    pub open spec fn status(self) -> tonic::Status {
        grpc_status(GRPC_INTERNAL, self.text())
    }
}

/// The status that `tonic::Status::new` makes of a code's number and a message.
pub uninterp spec fn grpc_status(code: i32, message: Seq<char>) -> tonic::Status;

/// `tonic::Status::new`, on the code that `tonic::Code::from_i32` finds for `code`.
/// The claim is that the status depends on the two arguments alone: it carries the
/// code and the message, no details, no metadata and no source.
#[verifier::external_body]
fn new_status(code: i32, message: String) -> (status: tonic::Status)
    ensures
        status == grpc_status(code, message@),
{
    tonic::Status::new(tonic::Code::from_i32(code), message)
}

impl From<ErrorCode> for RwError {
    fn from(code: ErrorCode) -> (error: RwError) {
        RwError { inner: code }
    }
}

impl vstd::std_specs::convert::FromSpecImpl<ErrorCode> for RwError {
    open spec fn obeys_from_spec() -> bool {
        true
    }

    open spec fn from_spec(code: ErrorCode) -> RwError {
        RwError { inner: code }
    }
}

impl RwError {
    /// An error that is described by `message` alone.
    pub fn internal(message: &str) -> (error: RwError)
        ensures
            error@ == ErrorCodeView::InternalError(message@),
            error.inner is InternalError,
            error.inner->InternalError_0@ == message@,
    {
        RwError { inner: ErrorCode::InternalError(message.to_owned()) }
    }

    /// The error for a message that lacks the field `name`.
    pub fn field_not_found(name: &str) -> (error: RwError)
        ensures
            error@ == ErrorCodeView::field_not_found(name@),
            error.inner is InternalError,
            error.inner->InternalError_0@ == "Failed to decode prost: field not found `"@ + name@
                + "`"@,
    {
        let mut message = "Failed to decode prost: field not found `".to_owned();
        message.append(name);
        message.append("`");
        RwError { inner: ErrorCode::InternalError(message) }
    }

    /// The text that describes the error.
    pub fn to_string(&self) -> (text: String)
        ensures
            text@ == self@.text(),
            text@ == match self.inner {
                ErrorCode::InternalError(message) => "internal error: "@ + message@,
                ErrorCode::TaskNotFound => "Task not found"@,
            },
    {
        match &self.inner {
            ErrorCode::InternalError(message) => {
                let mut text = "internal error: ".to_owned();
                text.append(message.as_str());
                text
            },
            ErrorCode::TaskNotFound => "Task not found".to_owned(),
        }
    }

    /// The gRPC status that reports the error to a client: its code is `INTERNAL`
    /// and its message is the error's text.
    pub fn to_grpc_status(&self) -> (status: tonic::Status)
        ensures
            status == self@.status(),
            status == grpc_status(
                13,
                match self.inner {
                    ErrorCode::InternalError(message) => "internal error: "@ + message@,
                    ErrorCode::TaskNotFound => "Task not found"@,
                },
            ),
    {
        new_status(GRPC_INTERNAL, self.to_string())
    }
}

/// Every error is reported with the gRPC code 13 (`INTERNAL`), and with its own text:
/// the message of the failure it describes, marked as internal, or that the task was not
/// found.
pub proof fn law_status_reports_the_error(error: RwError)
    ensures
        error.inner matches ErrorCode::InternalError(message) ==> error@.status() == grpc_status(
            13,
            "internal error: "@ + message@,
        ),
        error.inner is TaskNotFound ==> error@.status() == grpc_status(13, "Task not found"@),
{
}

/// Two errors have the same value if and only if they are of the same kind, and of the
/// same message where they have one.
pub proof fn law_errors_are_told_apart(first: RwError, second: RwError)
    ensures
        first@ == second@ <==> match (first.inner, second.inner) {
            (ErrorCode::InternalError(one), ErrorCode::InternalError(other)) => one@ == other@,
            (ErrorCode::TaskNotFound, ErrorCode::TaskNotFound) => true,
            _ => false,
        },
{
}

} // verus!
