//! Access to the questions of the store: for each operation the statement
//! that is sent, what is made of the store's reply, and the contract that
//! every store access keeps.

use crate::identifier::{
    lemma_canonical_text_injective, lemma_canonical_text_well_formed, value_of, well_formed,
    Identifier,
};
use crate::models::{DBError, DBErrorView, Question, QuestionDetail, QuestionDetailView, StoreFailure};
use crate::store::{
    question_detail_views, question_details, question_records, QuestionRow, Row, Statement,
    StatementView,
};
use crate::tables::Tables;
use vstd::prelude::*;

verus! {

/// The statement that creates `question`.
pub fn create_question_statement(question: Question) -> (statement: Statement)
    ensures
        statement@ == (StatementView::InsertQuestion {
            title: question.title@,
            description: question.description@,
        }),
{
    Statement::InsertQuestion { title: question.title, description: question.description }
}

/// What the creation of a question returns, given the store's reply to the
/// insert: the new row as a detail, or the store's failure as `Other`.
pub fn create_question_result(reply: Result<QuestionRow, StoreFailure>) -> (result: Result<
    QuestionDetail,
    DBError,
>)
    ensures
        match reply {
            Ok(row) => result matches Ok(detail) && detail@ == row@.detail(),
            Err(failure) => result matches Err(error) && error@ == DBErrorView::Other(failure@),
        },
{
    match reply {
        Ok(row) => Ok(row.into_detail()),
        Err(failure) => Err(DBError::Other(failure)),
    }
}

/// The statement that deletes the question `question_uuid`. A malformed
/// identifier is refused, and nothing is sent to the store.
pub fn delete_question_statement(question_uuid: String) -> (result: Result<Statement, DBError>)
    ensures
        match result {
            Ok(statement) => well_formed(question_uuid@) && statement@ == (
            StatementView::DeleteQuestion { question: value_of(question_uuid@) as u128 }),
            Err(error) => !well_formed(question_uuid@) && error@ == DBErrorView::InvalidUUID(
                question_uuid@,
            ),
        },
{
    match Identifier::parse(question_uuid) {
        Ok(id) => Ok(Statement::DeleteQuestion { question_uuid: id }),
        Err(error) => Err(error),
    }
}

/// What the deletion of a question returns, given the store's reply to the
/// delete. Whether a row was deleted plays no part.
pub fn delete_question_result(reply: Result<(), StoreFailure>) -> (result: Result<(), DBError>)
    ensures
        match reply {
            Ok(_) => result is Ok,
            Err(failure) => result matches Err(error) && error@ == DBErrorView::Other(failure@),
        },
{
    match reply {
        Ok(_) => Ok(()),
        Err(failure) => Err(DBError::Other(failure)),
    }
}

/// The statement that lists all questions.
pub fn get_questions_statement() -> (statement: Statement)
    ensures
        statement@ == StatementView::SelectQuestions,
{
    Statement::SelectQuestions
}

/// What the listing of the questions returns, given the store's reply to the
/// select: every row as a detail, in the order of the reply, or the store's
/// failure as `Other`. No row at all is a success.
pub fn get_questions_result(reply: Result<Vec<QuestionRow>, StoreFailure>) -> (result: Result<
    Vec<QuestionDetail>,
    DBError,
>)
    ensures
        match reply {
            Ok(rows) => result matches Ok(details) && question_detail_views(details@)
                == question_details(question_records(rows@)),
            Err(failure) => result matches Err(error) && error@ == DBErrorView::Other(failure@),
        },
{
    match reply {
        Ok(rows) => {
            let mut details: Vec<QuestionDetail> = Vec::new();
            let mut i: usize = 0;
            while i < rows.len()
                invariant
                    i <= rows.len(),
                    details.len() == i,
                    forall|k: int| 0 <= k < i ==> (#[trigger] details[k])@ == rows[k]@.detail(),
                decreases rows.len() - i,
            {
                details.push(rows[i].duplicate().into_detail());
                i += 1;
            }
            assert(question_detail_views(details@) =~= question_details(question_records(rows@)));
            Ok(details)
        },
        Err(failure) => Err(DBError::Other(failure)),
    }
}

/// A store, seen as the value of its two tables.
pub trait StoreModel {
    /// The rows that the store holds.
    spec fn tables(&self) -> Tables;

    /// What the implementation keeps true of itself between two operations.
    spec fn valid(&self) -> bool;
}

/// Whether `after` is `before` with one more question, which has the given
/// title and description and an identifier that no question had, and which
/// `detail` shows.
pub open spec fn question_was_created(
    before: Tables,
    after: Tables,
    title: Seq<char>,
    description: Seq<char>,
    detail: QuestionDetailView,
) -> bool {
    &&& after.questions.len() == before.questions.len() + 1
    &&& after == before.with_question(after.questions.last())
    &&& !before.has_question(after.questions.last().id)
    &&& after.questions.last().title == title
    &&& after.questions.last().description == description
    &&& detail == after.questions.last().detail()
}

/// A question that was created is listed afterwards, once and with the
/// fields it was created with: whatever the order of `listing`, which holds
/// the questions of the store after the creation, it holds `detail` exactly
/// once and has one item more than the store had questions. The identifier
/// of `detail` is well-formed, and its title and description are those
/// supplied.
pub proof fn lemma_created_question_is_listed(
    before: Tables,
    after: Tables,
    title: Seq<char>,
    description: Seq<char>,
    detail: QuestionDetailView,
    listing: Seq<QuestionDetailView>,
)
    requires
        question_was_created(before, after, title, description, detail),
        listing.to_multiset() == question_details(after.questions).to_multiset(),
    ensures
        listing.contains(detail),
        listing.to_multiset().count(detail) == 1,
        listing.len() == before.questions.len() + 1,
        detail.title == title,
        detail.description == description,
        well_formed(detail.question_uuid),
{
    let record = after.questions.last();
    let earlier = question_details(before.questions);
    lemma_canonical_text_well_formed(record.id);
    assert(question_details(after.questions) =~= earlier.push(detail));
    earlier.to_multiset_ensures();
    earlier.push(detail).to_multiset_ensures();
    listing.to_multiset_ensures();
    if earlier.contains(detail) {
        let i = choose|i: int| 0 <= i < earlier.len() && earlier[i] == detail;
        lemma_canonical_text_injective(before.questions[i].id, record.id);
        assert(before.questions[i].id == record.id);
    }
    assert(earlier.to_multiset().count(detail) == 0);
    assert(listing.to_multiset().count(detail) == 1);
    assert(listing.to_multiset().len() == earlier.len() + 1);
}

/// The operations on questions. An implementation sends one statement to
/// its store for each call, and remembers nothing between two calls.
pub trait QuestionsDao: StoreModel {
    /// Creates a question. The store assigns the identifier and the time of
    /// creation. A failure leaves the store as it was.
    fn create_question(&mut self, question: Question) -> (result: Result<QuestionDetail, DBError>)
        requires
            old(self).valid(),
        ensures
            final(self).valid(),
            match result {
                Ok(detail) => question_was_created(
                    old(self).tables(),
                    final(self).tables(),
                    question.title@,
                    question.description@,
                    detail@,
                ),
                Err(error) => error@ is Other && final(self).tables() == old(self).tables(),
            },
    ;

    /// Deletes the question with the given identifier, if there is one; that
    /// there is none is no error. A malformed identifier is refused with
    /// `InvalidUUID`; every failure of the store is `Other`. Nothing is
    /// deleted from the answers.
    fn delete_question(&mut self, question_uuid: String) -> (result: Result<(), DBError>)
        requires
            old(self).valid(),
        ensures
            final(self).valid(),
            match result {
                Ok(_) => well_formed(question_uuid@) && final(self).tables() == old(
                    self,
                ).tables().without_question(value_of(question_uuid@) as u128),
                Err(error) => final(self).tables() == old(self).tables() && if well_formed(
                    question_uuid@,
                ) {
                    error@ is Other
                } else {
                    error@ == DBErrorView::InvalidUUID(question_uuid@)
                },
            },
    ;

    /// Lists all questions, in no particular order. The store is not
    /// changed by it.
    fn get_questions(&self) -> (result: Result<Vec<QuestionDetail>, DBError>)
        requires
            self.valid(),
        ensures
            match result {
                Ok(details) => question_detail_views(details@).to_multiset() == question_details(
                    self.tables().questions,
                ).to_multiset(),
                Err(error) => error@ is Other,
            },
    ;
}

} // verus!
