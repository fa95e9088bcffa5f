//! The errors of the service's domain and how they are reported.

use vstd::prelude::*;
use crate::json::{json_plain, json_string, json_string_literal, lemma_json_escaped_plain};

verus! {

/// An error of the service's domain.
#[derive(Debug, Clone, PartialEq, Eq)]
pub enum DomainError {
    /// A requested resource does not exist.
    NotFound(String),
    /// A request field holds an unacceptable value.
    Validation { field: String, message: String },
    /// Something failed inside the service.
    Internal(String),
}

/// The human-readable text of an error.
pub open spec fn error_message(e: DomainError) -> Seq<char> {
    match e {
        DomainError::NotFound(msg) => "resource not found: "@ + msg@,
        DomainError::Validation { field, message } => "validation for field "@ + field@
            + ", reason = "@ + message@,
        DomainError::Internal(msg) => "internal error. reason = "@ + msg@,
    }
}

/// The HTTP status an error is answered with.
pub open spec fn error_status(e: DomainError) -> u16 {
    match e {
        DomainError::NotFound(_) => 404,
        DomainError::Internal(_) => 500,
        DomainError::Validation { .. } => 400,
    }
}

/// The JSON body an error is answered with: `{"error":<message>}`.
pub open spec fn error_body_text(e: DomainError) -> Seq<char> {
    "{\"error\":"@ + json_string(error_message(e)) + "}"@
}

/// `e` is `NotFound` with exactly the text `msg`.
pub open spec fn is_not_found_with(e: DomainError, msg: Seq<char>) -> bool {
    e matches DomainError::NotFound(m) && m@ == msg
}

/// `e` is `Internal` with exactly the text `msg`.
pub open spec fn is_internal_with(e: DomainError, msg: Seq<char>) -> bool {
    e matches DomainError::Internal(m) && m@ == msg
}

/// `e` is `Validation` of field `field` with exactly the text `msg`.
pub open spec fn is_validation_with(e: DomainError, field: Seq<char>, msg: Seq<char>) -> bool {
    e matches DomainError::Validation { field: f, message: m } && f@ == field && m@ == msg
}

impl DomainError {
    /// The error's text, as it is displayed.
    pub fn message(&self) -> (r: String)
        ensures
            r@ == error_message(*self),
            *self matches DomainError::NotFound(m) ==> r@ == "resource not found: "@ + m@,
            *self matches DomainError::Validation { field, message } ==> r@
                == "validation for field "@ + field@ + ", reason = "@ + message@,
            *self matches DomainError::Internal(m) ==> r@ == "internal error. reason = "@ + m@,
    {
        match self {
            DomainError::NotFound(msg) => {
                let mut s = String::from_str("resource not found: ");
                s.append(msg.as_str());
                s
            },
            DomainError::Validation { field, message } => {
                let mut s = String::from_str("validation for field ");
                s.append(field.as_str());
                s.append(", reason = ");
                s.append(message.as_str());
                s
            },
            DomainError::Internal(msg) => {
                let mut s = String::from_str("internal error. reason = ");
                s.append(msg.as_str());
                s
            },
        }
    }

    /// The HTTP status code the error is answered with: 404 for
    /// `NotFound`, 400 for `Validation`, 500 for `Internal`.
    pub fn status_code(&self) -> (r: u16)
        ensures
            r == error_status(*self),
            *self is NotFound ==> r == 404,
            *self is Validation ==> r == 400,
            *self is Internal ==> r == 500,
    {
        match self {
            DomainError::NotFound(_) => 404,
            DomainError::Internal(_) => 500,
            DomainError::Validation { .. } => 400,
        }
    }

    /// The JSON body the error is answered with, `{"error":"<message>"}`.
    pub fn error_body(&self) -> (r: String)
        ensures
            r@ == error_body_text(*self),
            r@ == "{\"error\":"@ + json_string(error_message(*self)) + "}"@,
    {
        let msg = self.message();
        let quoted = json_string_literal(msg.as_str());
        let mut s = String::from_str("{\"error\":");
        s.append(quoted.as_str());
        s.append("}");
        s
    }
}


/// Law: each kind of error has its own status: 404, 400 and 500 for a
/// missing resource, a refused field and an internal failure, and errors of
/// different kinds never share a status.
pub proof fn lemma_error_statuses(a: DomainError, b: DomainError)
    ensures
        a is NotFound ==> error_status(a) == 404,
        a is Validation ==> error_status(a) == 400,
        a is Internal ==> error_status(a) == 500,
        error_status(a) == error_status(b) <==> ((a is NotFound && b is NotFound) || (
        a is Validation && b is Validation) || (a is Internal && b is Internal)),
{
}

/// Law: an error's message ends with the error's own text, after a
/// prefix that names the kind of error.
pub proof fn lemma_message_ends_with_own_text(e: DomainError)
    ensures
        e matches DomainError::NotFound(m) ==> error_message(e) == "resource not found: "@ + m@,
        e matches DomainError::Internal(m) ==> error_message(e) == "internal error. reason = "@
            + m@,
        e matches DomainError::Validation { field, message } ==> error_message(e).subrange(
            error_message(e).len() - message@.len(),
            error_message(e).len() as int,
        ) == message@,
{
    if let DomainError::Validation { field, message } = e {
        let t = error_message(e);
        let head = "validation for field "@ + field@ + ", reason = "@;
        assert(t =~= head + message@);
        assert(t.subrange(t.len() - message@.len(), t.len() as int) =~= message@);
    }
}

/// Law: the body of an error whose message has nothing to escape is that
/// message, verbatim, under the key `error`.
pub proof fn lemma_plain_error_body(e: DomainError)
    requires
        json_plain(error_message(e)),
    ensures
        error_body_text(e) == "{\"error\":"@ + seq!['"'] + error_message(e) + seq!['"'] + "}"@,
{
    lemma_json_escaped_plain(error_message(e));
    assert(error_body_text(e) =~= "{\"error\":"@ + seq!['"'] + error_message(e) + seq!['"']
        + "}"@);
}

} // verus!
