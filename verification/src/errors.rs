//! The one error of the service: a failure of the store, reported to the
//! client as a server error in a fixed envelope.

use crate::json::{members_view, JsonValue, JsonView};
use crate::response::{Body, Response, STATUS_INTERNAL_SERVER_ERROR};
use actix_web::http::StatusCode;
use vstd::prelude::*;
use vstd::string::*;

verus! {

/// `sqlx::Error`: a failure of the store, as the driver reports it. The
/// crate reads nothing of it but the text it displays as.
#[verifier::external_type_specification]
#[verifier::external_body]
pub struct ExSqlxError(sqlx::Error);

/// `StatusCode::as_u16` of the `http` crate, on its constant
/// `INTERNAL_SERVER_ERROR`: the number of that status, which is 500.
#[verifier::external_body]
fn internal_server_error_code() -> (code: u16)
    ensures
        code == 500,
{
    StatusCode::INTERNAL_SERVER_ERROR.as_u16()
}

/// What an error message says before it is put in its envelope.
pub struct CustomAppErrorMessage {
    pub code: u16,
    pub message: String,
    pub details: Option<String>,
}

/// The envelope of an error: `success` is false and `error` holds the code,
/// the message and, where there are any, the details.
pub open spec fn envelope(code: u16, message: Seq<char>, details: Option<Seq<char>>) -> JsonView {
    let error = match details {
        Some(text) => seq![
            ("code"@, JsonView::Integer(code as int)),
            ("message"@, JsonView::Text(message)),
            ("details"@, JsonView::Text(text)),
        ],
        None => seq![
            ("code"@, JsonView::Integer(code as int)),
            ("message"@, JsonView::Text(message)),
        ],
    };
    JsonView::Object(seq![("success"@, JsonView::Bool(false)), ("error"@, JsonView::Object(error))])
}

impl CustomAppErrorMessage {
    /// The details as text, where there are any.
    pub open spec fn details_view(self) -> Option<Seq<char>> {
        match self.details {
            Some(text) => Some(text@),
            None => None,
        }
    }
}

impl From<CustomAppErrorMessage> for JsonValue {
    /// Puts the message in its envelope. A message without details gives an
    /// `error` object without the member `details`.
    fn from(value: CustomAppErrorMessage) -> (res: JsonValue)
        ensures
            res@ == envelope(value.code, value.message@, value.details_view()),
    {
        let ghost expected = envelope(value.code, value.message@, value.details_view());
        let mut error: Vec<(String, JsonValue)> = Vec::new();
        error.push(("code".to_owned(), JsonValue::Integer(value.code as i64)));
        error.push(("message".to_owned(), JsonValue::Text(value.message)));
        match value.details {
            Some(details) => {
                error.push(("details".to_owned(), JsonValue::Text(details)));
            },
            None => {},
        }
        assert(members_view(error@) =~= expected->Object_0[1].1->Object_0);
        let error = JsonValue::object(error);
        let mut members: Vec<(String, JsonValue)> = Vec::new();
        members.push(("success".to_owned(), JsonValue::Bool(false)));
        members.push(("error".to_owned(), error));
        assert(members_view(members@) =~= expected->Object_0);
        JsonValue::object(members)
    }
}

/// What `from` returns is stated on `from` itself, over the reading of the
/// document. The statement that the trait offers names the result as a
/// value, and a document holds strings, which a specification can read but
/// not write down: it is not taken up.
impl vstd::std_specs::convert::FromSpecImpl<CustomAppErrorMessage> for JsonValue {
    open spec fn obeys_from_spec() -> bool {
        false
    }

    open spec fn from_spec(v: CustomAppErrorMessage) -> JsonValue {
        arbitrary()
    }
}

/// The error a handler gives back: the store failed, and the document tells
/// the client so.
#[derive(Debug, PartialEq, Eq)]
pub enum AppError {
    InternalServerError(JsonValue),
}

/// The message under which every failure of the store is reported.
pub open spec fn database_error_message() -> Seq<char> {
    "Database Error."@
}

/// The document that reports a failure of the store whose own text is
/// `details`.
pub open spec fn database_error_document(details: Seq<char>) -> JsonView {
    envelope(500, database_error_message(), Some(details))
}

impl AppError {
    /// The document this error carries.
    pub open spec fn document(self) -> JsonView {
        match self {
            AppError::InternalServerError(message) => message@,
        }
    }

    /// True where this error reports the store's failure `error`: its
    /// document is the database error envelope, and the details in it are a
    /// text that `error` displays as.
    pub open spec fn reports(self, error: sqlx::Error) -> bool {
        exists|text: String|
            #![trigger to_string_from_display_ensures::<sqlx::Error>(&error, text)]
            to_string_from_display_ensures::<sqlx::Error>(&error, text) && self.document()
                == database_error_document(text@)
    }

    /// True where this error is a database error, whatever its details.
    pub open spec fn is_database_error(self) -> bool {
        exists|details: Seq<char>| self.document() == #[trigger] database_error_document(details)
    }

    /// The error that reports a failure of the store whose own text is
    /// `details`.
    pub fn database_error(details: String) -> (res: AppError)
        ensures
            res.document() == database_error_document(details@),
    {
        let custom_app_err_msg = CustomAppErrorMessage {
            code: internal_server_error_code(),
            message: "Database Error.".to_owned(),
            details: Some(details),
        };
        AppError::InternalServerError(JsonValue::from(custom_app_err_msg))
    }

    /// The response a client gets for this error: status 500, and the
    /// document as the body.
    pub fn error_response(&self) -> (res: Response)
        ensures
            res.is_json_with(500, self.document()),
    {
        match self {
            AppError::InternalServerError(message) => Response {
                status: STATUS_INTERNAL_SERVER_ERROR,
                body: Body::Json(message.clone()),
            },
        }
    }
}

impl From<sqlx::Error> for AppError {
    /// Maps a failure of the store to the one error of the service: every
    /// failure alike, that a row was not found among them. The details are
    /// the text the failure displays as.
    fn from(value: sqlx::Error) -> (res: AppError)
        ensures
            res.reports(value),
    {
        let text = value.to_string();
        AppError::database_error(text)
    }
}

/// What `from` returns is stated on `from` itself: the text a failure
/// displays as is no function of anything a specification holds, so the
/// statement that the trait offers is not taken up.
impl vstd::std_specs::convert::FromSpecImpl<sqlx::Error> for AppError {
    open spec fn obeys_from_spec() -> bool {
        false
    }

    open spec fn from_spec(v: sqlx::Error) -> AppError {
        arbitrary()
    }
}

/// Whatever failure of the store an error reports, the error is a database
/// error: its document is the one envelope, with the failure's own text as
/// details.
pub proof fn lemma_store_failure_is_database_error(error: AppError, failure: sqlx::Error)
    requires
        error.reports(failure),
    ensures
        error.is_database_error(),
{
}

/// The document of a database error, member by member: `success` is false,
/// and `error` holds the code 500, the message "Database Error." and the
/// details, in this order.
pub proof fn lemma_database_error_document(details: Seq<char>)
    ensures
        database_error_document(details) == JsonView::Object(
            seq![
                ("success"@, JsonView::Bool(false)),
                (
                    "error"@,
                    JsonView::Object(
                        seq![
                            ("code"@, JsonView::Integer(500)),
                            ("message"@, JsonView::Text("Database Error."@)),
                            ("details"@, JsonView::Text(details)),
                        ],
                    ),
                ),
            ],
        ),
{
}

} // verus!
