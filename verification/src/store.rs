//! The relational store as the data-access layer sees it: the rows of its two
//! tables and the statements that are sent to it.

use crate::identifier::{canonical_text, Identifier};
use crate::models::{AnswerDetail, AnswerDetailView, QuestionDetail, QuestionDetailView};
use crate::timestamp::{Timestamp, TimestampView};
use vstd::prelude::*;

verus! {

/// A row of the table of questions.
#[derive(Clone, PartialEq, Debug)]
pub struct QuestionRow {
    pub question_uuid: Identifier,
    pub title: String,
    pub description: String,
    pub created_at: Timestamp,
}

/// A row of the table of answers.
#[derive(Clone, PartialEq, Debug)]
pub struct AnswerRow {
    pub answer_uuid: Identifier,
    pub question_uuid: Identifier,
    pub content: String,
    pub created_at: Timestamp,
}

/// The mathematical value of a [`QuestionRow`].
pub struct QuestionRecord {
    pub id: u128,
    pub title: Seq<char>,
    pub description: Seq<char>,
    pub created_at: TimestampView,
}

/// The mathematical value of an [`AnswerRow`].
pub struct AnswerRecord {
    pub id: u128,
    pub question: u128,
    pub content: Seq<char>,
    pub created_at: TimestampView,
}

impl View for QuestionRow {
    type V = QuestionRecord;

    open spec fn view(&self) -> QuestionRecord {
        QuestionRecord {
            id: self.question_uuid.bits,
            title: self.title@,
            description: self.description@,
            created_at: self.created_at@,
        }
    }
}

impl View for AnswerRow {
    type V = AnswerRecord;

    open spec fn view(&self) -> AnswerRecord {
        AnswerRecord {
            id: self.answer_uuid.bits,
            question: self.question_uuid.bits,
            content: self.content@,
            created_at: self.created_at@,
        }
    }
}

impl QuestionRecord {
    /// The record as it is shown to a client: the identifier in its canonical
    /// text, the time of creation in its text, the other fields as they are.
    pub open spec fn detail(self) -> QuestionDetailView {
        QuestionDetailView {
            question_uuid: canonical_text(self.id),
            title: self.title,
            description: self.description,
            created_at: self.created_at.text(),
        }
    }
}

impl AnswerRecord {
    /// The record as it is shown to a client: both identifiers in their
    /// canonical text, the time of creation in its text, the other fields as
    /// they are.
    pub open spec fn detail(self) -> AnswerDetailView {
        AnswerDetailView {
            answer_uuid: canonical_text(self.id),
            question_uuid: canonical_text(self.question),
            content: self.content,
            created_at: self.created_at.text(),
        }
    }
}

/// A row of a table: it stands for a record, and can be copied.
pub trait Row: View + Sized {
    /// A second row with the same value.
    fn duplicate(&self) -> (copy: Self)
        ensures
            copy@ == self@,
    ;
}

/// The values of a sequence of rows.
pub open spec fn records<R: Row>(rows: Seq<R>) -> Seq<R::V> {
    rows.map_values(|row: R| row@)
}

/// The values of a sequence of question rows.
pub open spec fn question_records(rows: Seq<QuestionRow>) -> Seq<QuestionRecord> {
    rows.map_values(|row: QuestionRow| row@)
}

/// The values of a sequence of answer rows.
pub open spec fn answer_records(rows: Seq<AnswerRow>) -> Seq<AnswerRecord> {
    rows.map_values(|row: AnswerRow| row@)
}

/// The values of a sequence of question details.
pub open spec fn question_detail_views(details: Seq<QuestionDetail>) -> Seq<QuestionDetailView> {
    details.map_values(|detail: QuestionDetail| detail@)
}

/// The values of a sequence of answer details.
pub open spec fn answer_detail_views(details: Seq<AnswerDetail>) -> Seq<AnswerDetailView> {
    details.map_values(|detail: AnswerDetail| detail@)
}

/// Question records as they are shown to a client, in the same order.
pub open spec fn question_details(records: Seq<QuestionRecord>) -> Seq<QuestionDetailView> {
    records.map_values(|record: QuestionRecord| record.detail())
}

/// Answer records as they are shown to a client, in the same order.
pub open spec fn answer_details(records: Seq<AnswerRecord>) -> Seq<AnswerDetailView> {
    records.map_values(|record: AnswerRecord| record.detail())
}

impl QuestionRow {
    /// The row as it is shown to a client.
    pub fn into_detail(self) -> (detail: QuestionDetail)
        ensures
            detail@ == self@.detail(),
    {
        QuestionDetail {
            question_uuid: self.question_uuid.to_text(),
            title: self.title,
            description: self.description,
            created_at: self.created_at.to_text(),
        }
    }
}

impl Row for QuestionRow {
    fn duplicate(&self) -> (copy: QuestionRow) {
        QuestionRow {
            question_uuid: self.question_uuid,
            title: self.title.clone(),
            description: self.description.clone(),
            created_at: self.created_at,
        }
    }
}

impl AnswerRow {
    /// The row as it is shown to a client.
    pub fn into_detail(self) -> (detail: AnswerDetail)
        ensures
            detail@ == self@.detail(),
    {
        AnswerDetail {
            answer_uuid: self.answer_uuid.to_text(),
            question_uuid: self.question_uuid.to_text(),
            content: self.content,
            created_at: self.created_at.to_text(),
        }
    }
}

impl Row for AnswerRow {
    fn duplicate(&self) -> (copy: AnswerRow) {
        AnswerRow {
            answer_uuid: self.answer_uuid,
            question_uuid: self.question_uuid,
            content: self.content.clone(),
            created_at: self.created_at,
        }
    }
}

/// A statement for the store. Each operation of the data-access layer sends
/// exactly one.
#[derive(Clone, PartialEq, Debug)]
pub enum Statement {
    InsertQuestion { title: String, description: String },
    SelectQuestions,
    DeleteQuestion { question_uuid: Identifier },
    InsertAnswer { question_uuid: Identifier, content: String },
    SelectAnswers { question_uuid: Identifier },
    DeleteAnswer { answer_uuid: Identifier },
}

/// The mathematical value of a [`Statement`].
pub enum StatementView {
    InsertQuestion { title: Seq<char>, description: Seq<char> },
    SelectQuestions,
    DeleteQuestion { question: u128 },
    InsertAnswer { question: u128, content: Seq<char> },
    SelectAnswers { question: u128 },
    DeleteAnswer { answer: u128 },
}

impl View for Statement {
    type V = StatementView;

    open spec fn view(&self) -> StatementView {
        match self {
            Statement::InsertQuestion { title, description } => StatementView::InsertQuestion {
                title: title@,
                description: description@,
            },
            Statement::SelectQuestions => StatementView::SelectQuestions,
            Statement::DeleteQuestion { question_uuid } => StatementView::DeleteQuestion {
                question: question_uuid.bits,
            },
            Statement::InsertAnswer { question_uuid, content } => StatementView::InsertAnswer {
                question: question_uuid.bits,
                content: content@,
            },
            Statement::SelectAnswers { question_uuid } => StatementView::SelectAnswers {
                question: question_uuid.bits,
            },
            Statement::DeleteAnswer { answer_uuid } => StatementView::DeleteAnswer {
                answer: answer_uuid.bits,
            },
        }
    }
}

impl StatementView {
    /// The text of the statement in the store's language. The parameters are
    /// bound in the order of the variant's fields.
    pub open spec fn sql(self) -> Seq<char> {
        match self {
            StatementView::InsertQuestion { .. } =>
                "INSERT INTO questions (title, description) VALUES ($1, $2) RETURNING *"@,
            StatementView::SelectQuestions => "SELECT * FROM questions"@,
            StatementView::DeleteQuestion { .. } =>
                "DELETE FROM questions WHERE question_uuid = $1"@,
            StatementView::InsertAnswer { .. } =>
                "INSERT INTO answers (question_uuid, content) VALUES ($1, $2) RETURNING *"@,
            StatementView::SelectAnswers { .. } =>
                "SELECT * FROM answers WHERE question_uuid = $1"@,
            StatementView::DeleteAnswer { .. } => "DELETE FROM answers WHERE answer_uuid = $1"@,
        }
    }
}

impl Statement {
    /// The text of the statement in the store's language.
    pub fn sql(&self) -> (text: &'static str)
        ensures
            text@ == self@.sql(),
    {
        match self {
            Statement::InsertQuestion { .. } => {
                "INSERT INTO questions (title, description) VALUES ($1, $2) RETURNING *"
            },
            Statement::SelectQuestions => "SELECT * FROM questions",
            Statement::DeleteQuestion { .. } => "DELETE FROM questions WHERE question_uuid = $1",
            Statement::InsertAnswer { .. } => {
                "INSERT INTO answers (question_uuid, content) VALUES ($1, $2) RETURNING *"
            },
            Statement::SelectAnswers { .. } => "SELECT * FROM answers WHERE question_uuid = $1",
            Statement::DeleteAnswer { .. } => "DELETE FROM answers WHERE answer_uuid = $1",
        }
    }
}

} // verus!
