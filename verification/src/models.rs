//! The records that cross the boundary of the data-access layer, and its
//! errors.

use vstd::prelude::*;
use vstd::string::StringExecFns;

verus! {

/// What a client supplies to create a question.
pub struct Question {
    pub title: String,
    pub description: String,
}

/// A question as the store holds it.
#[derive(Clone, PartialEq, Debug)]
pub struct QuestionDetail {
    pub question_uuid: String,
    pub title: String,
    pub description: String,
    pub created_at: String,
}

/// The identifier of a question, as a client writes it.
pub struct QuestionId {
    pub question_uuid: String,
}

/// What a client supplies to create an answer.
pub struct Answer {
    pub question_uuid: String,
    pub content: String,
}

/// An answer as the store holds it.
#[derive(Clone, PartialEq, Debug)]
pub struct AnswerDetail {
    pub answer_uuid: String,
    pub question_uuid: String,
    pub content: String,
    pub created_at: String,
}

/// The identifier of an answer, as a client writes it.
pub struct AnswerId {
    pub answer_uuid: String,
}

/// A failure that the store reported: the store's error code, where it gave
/// one, and a diagnostic text that nothing in this crate interprets.
#[derive(Clone, PartialEq, Debug)]
pub struct StoreFailure {
    pub code: Option<String>,
    pub detail: String,
}

/// The errors of the data-access layer.
#[derive(Debug)]
pub enum DBError {
    /// The identifier is malformed or, when an answer is created, names no
    /// question. It carries the identifier as the caller wrote it.
    InvalidUUID(String),
    /// Any other failure of the store.
    Other(StoreFailure),
}

/// The mathematical value of a [`QuestionDetail`].
pub struct QuestionDetailView {
    pub question_uuid: Seq<char>,
    pub title: Seq<char>,
    pub description: Seq<char>,
    pub created_at: Seq<char>,
}

/// The mathematical value of an [`AnswerDetail`].
pub struct AnswerDetailView {
    pub answer_uuid: Seq<char>,
    pub question_uuid: Seq<char>,
    pub content: Seq<char>,
    pub created_at: Seq<char>,
}

/// The mathematical value of a [`StoreFailure`].
pub struct StoreFailureView {
    pub code: Option<Seq<char>>,
    pub detail: Seq<char>,
}

/// The mathematical value of a [`DBError`].
pub enum DBErrorView {
    InvalidUUID(Seq<char>),
    Other(StoreFailureView),
}

impl View for QuestionDetail {
    type V = QuestionDetailView;

    open spec fn view(&self) -> QuestionDetailView {
        QuestionDetailView {
            question_uuid: self.question_uuid@,
            title: self.title@,
            description: self.description@,
            created_at: self.created_at@,
        }
    }
}

impl View for AnswerDetail {
    type V = AnswerDetailView;

    open spec fn view(&self) -> AnswerDetailView {
        AnswerDetailView {
            answer_uuid: self.answer_uuid@,
            question_uuid: self.question_uuid@,
            content: self.content@,
            created_at: self.created_at@,
        }
    }
}

impl View for StoreFailure {
    type V = StoreFailureView;

    open spec fn view(&self) -> StoreFailureView {
        StoreFailureView {
            code: match self.code {
                Some(code) => Some(code@),
                None => None,
            },
            detail: self.detail@,
        }
    }
}

impl View for DBError {
    type V = DBErrorView;

    open spec fn view(&self) -> DBErrorView {
        match self {
            DBError::InvalidUUID(value) => DBErrorView::InvalidUUID(value@),
            DBError::Other(cause) => DBErrorView::Other(cause@),
        }
    }
}

/// The text of the message for an invalid identifier, up to the identifier.
pub open spec fn invalid_uuid_prefix() -> Seq<char> {
    "Invalid UUID provided: "@
}

/// The text of the message for any other failure.
pub open spec fn other_message() -> Seq<char> {
    "Database error occured"@
}

impl DBErrorView {
    /// The message that describes the error to a reader.
    pub open spec fn message(self) -> Seq<char> {
        match self {
            DBErrorView::InvalidUUID(value) => invalid_uuid_prefix() + value,
            DBErrorView::Other(_) => other_message(),
        }
    }
}

impl DBError {
    /// The message that describes the error to a reader. The cause of a store
    /// failure is not part of it.
    pub fn message(&self) -> (text: String)
        ensures
            text@ == self@.message(),
    {
        match self {
            DBError::InvalidUUID(value) => {
                String::from_str("Invalid UUID provided: ").concat(value.as_str())
            },
            DBError::Other(_) => String::from_str("Database error occured"),
        }
    }
}

} // verus!
