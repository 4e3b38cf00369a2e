//! Access to the answers of the store: for each operation the statement that
//! is sent, what is made of the store's reply, and the contract that every
//! store access keeps.

use crate::classifier::{classification, classify};
use crate::identifier::{
    canonical_text, lemma_canonical_text_injective, value_of, well_formed, Identifier,
};
use crate::models::{Answer, AnswerDetail, AnswerDetailView, DBError, DBErrorView, StoreFailure};
use crate::questions_dao::StoreModel;
use crate::store::{
    answer_detail_views, answer_details, answer_records, AnswerRow, Row, Statement, StatementView,
};
use crate::tables::Tables;
use vstd::prelude::*;

verus! {

/// The statement that creates `answer`. A malformed identifier of the
/// question is refused, and nothing is sent to the store.
pub fn create_answer_statement(answer: Answer) -> (result: Result<Statement, DBError>)
    ensures
        match result {
            Ok(statement) => well_formed(answer.question_uuid@) && statement@ == (
            StatementView::InsertAnswer {
                question: value_of(answer.question_uuid@) as u128,
                content: answer.content@,
            }),
            Err(error) => !well_formed(answer.question_uuid@) && error@
                == DBErrorView::InvalidUUID(answer.question_uuid@),
        },
{
    match Identifier::parse(answer.question_uuid) {
        Ok(id) => Ok(Statement::InsertAnswer { question_uuid: id, content: answer.content }),
        Err(error) => Err(error),
    }
}

/// What the creation of an answer returns, given the identifier of the
/// question as the caller wrote it and the store's reply to the insert. The
/// new row is returned as a detail. Where the store found no such question,
/// the error is `InvalidUUID` with the caller's identifier, as for a
/// malformed one; every other failure is `Other`.
pub fn create_answer_result(question_uuid: String, reply: Result<AnswerRow, StoreFailure>) -> (result:
    Result<AnswerDetail, DBError>)
    ensures
        match reply {
            Ok(row) => result matches Ok(detail) && detail@ == row@.detail(),
            Err(failure) => result matches Err(error) && error@ == classification(
                failure@,
                Some(question_uuid@),
            ),
        },
{
    match reply {
        Ok(row) => Ok(row.into_detail()),
        Err(failure) => Err(classify(failure, Some(question_uuid))),
    }
}

/// The statement that deletes the answer `answer_uuid`. A malformed
/// identifier is refused, and nothing is sent to the store.
pub fn delete_answer_statement(answer_uuid: String) -> (result: Result<Statement, DBError>)
    ensures
        match result {
            Ok(statement) => well_formed(answer_uuid@) && statement@ == (
            StatementView::DeleteAnswer { answer: value_of(answer_uuid@) as u128 }),
            Err(error) => !well_formed(answer_uuid@) && error@ == DBErrorView::InvalidUUID(
                answer_uuid@,
            ),
        },
{
    match Identifier::parse(answer_uuid) {
        Ok(id) => Ok(Statement::DeleteAnswer { answer_uuid: id }),
        Err(error) => Err(error),
    }
}

/// What the deletion of an answer returns, given the store's reply to the
/// delete. Whether a row was deleted plays no part.
pub fn delete_answer_result(reply: Result<(), StoreFailure>) -> (result: Result<(), DBError>)
    ensures
        match reply {
            Ok(_) => result is Ok,
            Err(failure) => result matches Err(error) && error@ == DBErrorView::Other(failure@),
        },
{
    match reply {
        Ok(_) => Ok(()),
        Err(failure) => Err(DBError::Other(failure)),
    }
}

/// The statement that lists the answers to the question `question_uuid`. A
/// malformed identifier is refused, and nothing is sent to the store.
pub fn get_answers_statement(question_uuid: String) -> (result: Result<Statement, DBError>)
    ensures
        match result {
            Ok(statement) => well_formed(question_uuid@) && statement@ == (
            StatementView::SelectAnswers { question: value_of(question_uuid@) as u128 }),
            Err(error) => !well_formed(question_uuid@) && error@ == DBErrorView::InvalidUUID(
                question_uuid@,
            ),
        },
{
    match Identifier::parse(question_uuid) {
        Ok(id) => Ok(Statement::SelectAnswers { question_uuid: id }),
        Err(error) => Err(error),
    }
}

/// What the listing of the answers to a question returns, given the store's
/// reply to the select: every row as a detail, in the order of the reply, or
/// the store's failure as `Other`. No row at all is a success.
pub fn get_answers_result(reply: Result<Vec<AnswerRow>, StoreFailure>) -> (result: Result<
    Vec<AnswerDetail>,
    DBError,
>)
    ensures
        match reply {
            Ok(rows) => result matches Ok(details) && answer_detail_views(details@)
                == answer_details(answer_records(rows@)),
            Err(failure) => result matches Err(error) && error@ == DBErrorView::Other(failure@),
        },
{
    match reply {
        Ok(rows) => {
            let mut details: Vec<AnswerDetail> = Vec::new();
            let mut i: usize = 0;
            while i < rows.len()
                invariant
                    i <= rows.len(),
                    details.len() == i,
                    forall|k: int| 0 <= k < i ==> (#[trigger] details[k])@ == rows[k]@.detail(),
                decreases rows.len() - i,
            {
                details.push(rows[i].duplicate().into_detail());
                i += 1;
            }
            assert(answer_detail_views(details@) =~= answer_details(answer_records(rows@)));
            Ok(details)
        },
        Err(failure) => Err(DBError::Other(failure)),
    }
}

/// Whether `after` is `before` with one more answer, which belongs to
/// `question`, has the given content and an identifier that no answer had,
/// and which `detail` shows.
pub open spec fn answer_was_created(
    before: Tables,
    after: Tables,
    question: u128,
    content: Seq<char>,
    detail: AnswerDetailView,
) -> bool {
    &&& after.answers.len() == before.answers.len() + 1
    &&& after == before.with_answer(after.answers.last())
    &&& !before.has_answer(after.answers.last().id)
    &&& after.answers.last().question == question
    &&& after.answers.last().content == content
    &&& detail == after.answers.last().detail()
}

/// An answer that was created is listed afterwards among the answers to
/// its question, once and with the fields it was created with: whatever the
/// order of `listing`, which holds the answers to the question after the
/// creation, it holds `detail` exactly once. The question of `detail` is the
/// one supplied, in its canonical text, and its content is the one supplied.
pub proof fn lemma_created_answer_is_listed(
    before: Tables,
    after: Tables,
    question: u128,
    content: Seq<char>,
    detail: AnswerDetailView,
    listing: Seq<AnswerDetailView>,
)
    requires
        answer_was_created(before, after, question, content, detail),
        listing.to_multiset() == answer_details(after.answers_to(question)).to_multiset(),
    ensures
        listing.contains(detail),
        listing.to_multiset().count(detail) == 1,
        listing.len() == before.answers_to(question).len() + 1,
        detail.question_uuid == canonical_text(question),
        detail.content == content,
{
    let record = after.answers.last();
    let earlier = answer_details(before.answers_to(question));
    before.lemma_answers_after_insertion(record, question);
    before.lemma_answers_to_members(question);
    assert(answer_details(after.answers_to(question)) =~= earlier.push(detail));
    earlier.to_multiset_ensures();
    earlier.push(detail).to_multiset_ensures();
    listing.to_multiset_ensures();
    if earlier.contains(detail) {
        let i = choose|i: int| 0 <= i < earlier.len() && earlier[i] == detail;
        let other = before.answers_to(question)[i];
        assert(before.answers_to(question).contains(other));
        let j = choose|j: int| 0 <= j < before.answers.len() && before.answers[j] == other;
        lemma_canonical_text_injective(other.id, record.id);
        assert(before.answers[j].id == record.id);
    }
    assert(earlier.to_multiset().count(detail) == 0);
    assert(listing.to_multiset().count(detail) == 1);
    assert(listing.to_multiset().len() == earlier.len() + 1);
}

/// The operations on answers. An implementation sends one statement to its
/// store for each call, and remembers nothing between two calls.
pub trait AnswersDao: StoreModel {
    /// Creates an answer to an existing question. The store assigns the
    /// identifier and the time of creation. An identifier of the question
    /// that is malformed is refused with `InvalidUUID`, and so is one that
    /// the store found to name no question; no other failure is reported so.
    /// A failure leaves the store as it was.
    fn create_answer(&mut self, answer: Answer) -> (result: Result<AnswerDetail, DBError>)
        requires
            old(self).valid(),
        ensures
            final(self).valid(),
            match result {
                Ok(detail) => {
                    &&& well_formed(answer.question_uuid@)
                    &&& old(self).tables().has_question(value_of(answer.question_uuid@) as u128)
                    &&& answer_was_created(
                        old(self).tables(),
                        final(self).tables(),
                        value_of(answer.question_uuid@) as u128,
                        answer.content@,
                        detail@,
                    )
                },
                Err(error) => {
                    &&& final(self).tables() == old(self).tables()
                    &&& error@ is Other || error@ == DBErrorView::InvalidUUID(
                        answer.question_uuid@,
                    )
                    &&& !well_formed(answer.question_uuid@) ==> error@ is InvalidUUID
                    &&& well_formed(answer.question_uuid@) && error@ is InvalidUUID ==> !old(
                        self,
                    ).tables().has_question(value_of(answer.question_uuid@) as u128)
                },
            },
    ;

    /// Deletes the answer with the given identifier, if there is one; that
    /// there is none is no error. A malformed identifier is refused with
    /// `InvalidUUID`; every failure of the store is `Other`.
    fn delete_answer(&mut self, answer_uuid: String) -> (result: Result<(), DBError>)
        requires
            old(self).valid(),
        ensures
            final(self).valid(),
            match result {
                Ok(_) => well_formed(answer_uuid@) && final(self).tables() == old(
                    self,
                ).tables().without_answer(value_of(answer_uuid@) as u128),
                Err(error) => final(self).tables() == old(self).tables() && if well_formed(
                    answer_uuid@,
                ) {
                    error@ is Other
                } else {
                    error@ == DBErrorView::InvalidUUID(answer_uuid@)
                },
            },
    ;

    /// Lists the answers to a question, in no particular order. A question
    /// without answers and an identifier that names no question both give an
    /// empty list. A malformed identifier is refused with `InvalidUUID`;
    /// every failure of the store is `Other`.
    fn get_answers(&self, question_uuid: String) -> (result: Result<Vec<AnswerDetail>, DBError>)
        requires
            self.valid(),
        ensures
            match result {
                Ok(details) => well_formed(question_uuid@) && answer_detail_views(
                    details@,
                ).to_multiset() == answer_details(
                    self.tables().answers_to(value_of(question_uuid@) as u128),
                ).to_multiset(),
                Err(error) => if well_formed(question_uuid@) {
                    error@ is Other
                } else {
                    error@ == DBErrorView::InvalidUUID(question_uuid@)
                },
            },
    ;
}

} // verus!
