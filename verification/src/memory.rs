//! A store that keeps its two tables in memory. It assigns identifiers from a
//! counter, takes the time of creation from a clock that its owner sets, and
//! refuses what would leave an answer without its question.

use crate::answers_dao::{
    create_answer_result, create_answer_statement, delete_answer_result, delete_answer_statement,
    get_answers_result, get_answers_statement, AnswersDao,
};
use crate::identifier::{value_of, well_formed, Identifier};
use crate::models::{
    Answer, AnswerDetail, DBError, DBErrorView, Question, QuestionDetail, StoreFailure,
    StoreFailureView,
};
use crate::postgres_error_codes::FOREIGN_KEY_VIOLATION;
use crate::questions_dao::{
    create_question_result, create_question_statement, delete_question_result,
    delete_question_statement, get_questions_result, get_questions_statement, QuestionsDao,
    StoreModel,
};
use crate::store::{
    answer_detail_views, answer_details, answer_records, question_detail_views, question_details,
    question_records, records, AnswerRecord, AnswerRow, QuestionRecord, QuestionRow, Row,
    Statement,
};
use crate::tables::Tables;
use crate::timestamp::{Timestamp, TimestampView};
use vstd::pervasive::unreached;
use vstd::prelude::*;
use vstd::string::StringExecFns;

verus! {

/// The failure of an insert when the store has no identifier left to assign.
pub open spec fn exhausted_failure() -> StoreFailureView {
    StoreFailureView { code: None, detail: "no identifier is left to assign"@ }
}

/// The failure of an insert into the answers whose question does not exist.
pub open spec fn missing_question_failure() -> StoreFailureView {
    StoreFailureView {
        code: Some(FOREIGN_KEY_VIOLATION@),
        detail: "the answer refers to a question that does not exist"@,
    }
}

/// The failure of a delete from the questions while an answer belongs to
/// the question.
pub open spec fn referenced_question_failure() -> StoreFailureView {
    StoreFailureView {
        code: Some(FOREIGN_KEY_VIOLATION@),
        detail: "an answer still refers to the question"@,
    }
}

/// A store in memory.
pub struct MemoryStore {
    questions: Vec<QuestionRow>,
    answers: Vec<AnswerRow>,
    next: u128,
    clock: Timestamp,
}

impl StoreModel for MemoryStore {
    closed spec fn tables(&self) -> Tables {
        Tables {
            questions: question_records(self.questions@),
            answers: answer_records(self.answers@),
        }
    }

    closed spec fn valid(&self) -> bool {
        &&& self.tables().consistent()
        &&& self.tables().identifiers_below(self.next)
    }
}

/// The rows of `rows` that `wanted` picks, in the same order. `keep` says of
/// a record what `wanted` finds of its row.
fn selected<R: Row, F: Fn(&R) -> bool>(
    rows: &Vec<R>,
    wanted: F,
    Ghost(keep): Ghost<spec_fn(R::V) -> bool>,
) -> (kept: Vec<R>)
    requires
        forall|row: &R| call_requires(wanted, (row,)),
        forall|row: &R, picked: bool|
            call_ensures(wanted, (row,), picked) ==> picked == keep(row@),
    ensures
        records(kept@) == records(rows@).filter(keep),
{
    let ghost all = records(rows@);
    let mut kept: Vec<R> = Vec::new();
    let mut i: usize = 0;
    proof {
        reveal(Seq::filter);
        assert(records(kept@) =~= all.take(0).filter(keep));
    }
    while i < rows.len()
        invariant
            i <= rows.len(),
            all == records(rows@),
            forall|row: &R| call_requires(wanted, (row,)),
            forall|row: &R, picked: bool|
                call_ensures(wanted, (row,), picked) ==> picked == keep(row@),
            records(kept@) == all.take(i as int).filter(keep),
        decreases rows.len() - i,
    {
        proof {
            assert(all.take(i as int + 1) =~= all.take(i as int).push(all[i as int]));
            all.take(i as int).lemma_filter_push(all[i as int], keep);
        }
        if wanted(&rows[i]) {
            let row = rows[i].duplicate();
            assert(records(kept@.push(row)) =~= records(kept@).push(row@));
            kept.push(row);
        }
        i += 1;
    }
    assert(all.take(i as int) =~= all);
    kept
}

impl MemoryStore {
    /// The identifier that the next row gets.
    pub closed spec fn next_identifier(&self) -> u128 {
        self.next
    }

    /// What the clock shows: the time of creation that the next row gets.
    pub closed spec fn now(&self) -> TimestampView {
        self.clock@
    }

    /// Whether no identifier is left to assign.
    pub open spec fn exhausted(&self) -> bool {
        self.next_identifier() == u128::MAX
    }

    /// In a valid store no identifier occurs twice in a table, every answer
    /// belongs to a question of the store, and the next identifier is above
    /// all that are in use.
    pub proof fn lemma_valid(&self)
        requires
            self.valid(),
        ensures
            self.tables().consistent(),
            self.tables().identifiers_below(self.next_identifier()),
            !self.tables().has_question(self.next_identifier()),
            !self.tables().has_answer(self.next_identifier()),
    {
    }

    /// A store without rows, whose clock shows midnight of 1 January 1970
    /// and whose first row gets the identifier 0.
    pub fn new() -> (store: MemoryStore)
        ensures
            store.valid(),
            store.tables() == Tables::empty(),
            store.next_identifier() == 0,
            store.now() == Timestamp::epoch_view(),
    {
        MemoryStore::starting_at(0)
    }

    /// A store without rows, whose clock shows midnight of 1 January 1970
    /// and whose first row gets the identifier `first`.
    pub fn starting_at(first: u128) -> (store: MemoryStore)
        ensures
            store.valid(),
            store.tables() == Tables::empty(),
            store.next_identifier() == first,
            store.now() == Timestamp::epoch_view(),
    {
        let store = MemoryStore {
            questions: Vec::new(),
            answers: Vec::new(),
            next: first,
            clock: Timestamp::epoch(),
        };
        assert(store.tables().questions =~= Seq::empty());
        assert(store.tables().answers =~= Seq::empty());
        store
    }

    /// Sets the clock.
    pub fn set_clock(&mut self, now: Timestamp)
        ensures
            final(self).now() == now@,
            final(self).tables() == old(self).tables(),
            final(self).next_identifier() == old(self).next_identifier(),
            final(self).valid() == old(self).valid(),
    {
        self.clock = now;
    }

    /// Tells whether a question has the identifier `id`.
    pub fn has_question(&self, id: Identifier) -> (found: bool)
        ensures
            found == self.tables().has_question(id.bits),
    {
        let mut i: usize = 0;
        while i < self.questions.len()
            invariant
                i <= self.questions.len(),
                forall|k: int| 0 <= k < i ==> (#[trigger] self.tables().questions[k]).id != id.bits,
            decreases self.questions.len() - i,
        {
            if self.questions[i].question_uuid.bits == id.bits {
                assert(self.tables().questions[i as int].id == id.bits);
                return true;
            }
            i += 1;
        }
        false
    }

    /// Tells whether an answer belongs to the question `question`.
    pub fn has_answer_to(&self, question: Identifier) -> (found: bool)
        ensures
            found == self.tables().has_answer_to(question.bits),
    {
        let mut i: usize = 0;
        while i < self.answers.len()
            invariant
                i <= self.answers.len(),
                forall|k: int|
                    0 <= k < i ==> (#[trigger] self.tables().answers[k]).question != question.bits,
            decreases self.answers.len() - i,
        {
            if self.answers[i].question_uuid.bits == question.bits {
                assert(self.tables().answers[i as int].question == question.bits);
                return true;
            }
            i += 1;
        }
        false
    }

    /// Inserts a question with the next identifier and the time that the
    /// clock shows, and returns the new row. Fails, and inserts nothing,
    /// exactly when no identifier is left.
    pub fn insert_question(&mut self, title: String, description: String) -> (reply: Result<
        QuestionRow,
        StoreFailure,
    >)
        requires
            old(self).valid(),
        ensures
            final(self).valid(),
            final(self).now() == old(self).now(),
            match reply {
                Ok(row) => {
                    &&& !old(self).exhausted()
                    &&& row@ == (QuestionRecord {
                        id: old(self).next_identifier(),
                        title: title@,
                        description: description@,
                        created_at: old(self).now(),
                    })
                    &&& final(self).tables() == old(self).tables().with_question(row@)
                    &&& final(self).next_identifier() == old(self).next_identifier() + 1
                },
                Err(failure) => {
                    &&& old(self).exhausted()
                    &&& failure@ == exhausted_failure()
                    &&& final(self).tables() == old(self).tables()
                    &&& final(self).next_identifier() == old(self).next_identifier()
                },
            },
    {
        if self.next == u128::MAX {
            return Err(
                StoreFailure {
                    code: None,
                    detail: String::from_str("no identifier is left to assign"),
                },
            );
        }
        let row = QuestionRow {
            question_uuid: Identifier { bits: self.next },
            title,
            description,
            created_at: self.clock,
        };
        let copy = row.duplicate();
        proof {
            assert(question_records(self.questions@.push(row)) =~= question_records(
                self.questions@,
            ).push(row@));
            self.tables().lemma_with_question(row@);
        }
        self.questions.push(row);
        self.next = self.next + 1;
        Ok(copy)
    }

    /// All questions, in the order in which they were inserted. Never fails.
    pub fn select_questions(&self) -> (reply: Result<Vec<QuestionRow>, StoreFailure>)
        ensures
            reply matches Ok(rows) && question_records(rows@) == self.tables().questions,
    {
        let mut rows: Vec<QuestionRow> = Vec::new();
        let mut i: usize = 0;
        while i < self.questions.len()
            invariant
                i <= self.questions.len(),
                rows.len() == i,
                forall|k: int| 0 <= k < i ==> (#[trigger] rows[k])@ == self.questions[k]@,
            decreases self.questions.len() - i,
        {
            rows.push(self.questions[i].duplicate());
            i += 1;
        }
        assert(question_records(rows@) =~= self.tables().questions);
        Ok(rows)
    }

    /// Deletes the question `id`, if there is one. Fails, and deletes
    /// nothing, exactly when an answer belongs to that question.
    pub fn remove_question(&mut self, id: Identifier) -> (reply: Result<(), StoreFailure>)
        requires
            old(self).valid(),
        ensures
            final(self).valid(),
            final(self).now() == old(self).now(),
            final(self).next_identifier() == old(self).next_identifier(),
            match reply {
                Ok(_) => {
                    &&& !old(self).tables().has_answer_to(id.bits)
                    &&& final(self).tables() == old(self).tables().without_question(id.bits)
                },
                Err(failure) => {
                    &&& old(self).tables().has_answer_to(id.bits)
                    &&& failure@ == referenced_question_failure()
                    &&& final(self).tables() == old(self).tables()
                },
            },
    {
        if self.has_answer_to(id) {
            return Err(
                StoreFailure {
                    code: Some(String::from_str(FOREIGN_KEY_VIOLATION)),
                    detail: String::from_str("an answer still refers to the question"),
                },
            );
        }
        let wanted = |row: &QuestionRow| -> (picked: bool)
            ensures
                picked == (row.question_uuid.bits != id.bits),
            { row.question_uuid.bits != id.bits };
        let kept = selected(&self.questions, wanted, Ghost(|record: QuestionRecord| record.id != id.bits));
        proof {
            assert(records(kept@) =~= question_records(kept@));
            assert(records(self.questions@) =~= question_records(self.questions@));
            self.tables().lemma_without_question(id.bits, self.next);
        }
        self.questions = kept;
        Ok(())
    }

    /// Inserts an answer to the question `question` with the next identifier
    /// and the time that the clock shows, and returns the new row. Fails,
    /// and inserts nothing, when the store has no such question, and
    /// otherwise exactly when no identifier is left.
    pub fn insert_answer(&mut self, question: Identifier, content: String) -> (reply: Result<
        AnswerRow,
        StoreFailure,
    >)
        requires
            old(self).valid(),
        ensures
            final(self).valid(),
            final(self).now() == old(self).now(),
            match reply {
                Ok(row) => {
                    &&& old(self).tables().has_question(question.bits)
                    &&& !old(self).exhausted()
                    &&& row@ == (AnswerRecord {
                        id: old(self).next_identifier(),
                        question: question.bits,
                        content: content@,
                        created_at: old(self).now(),
                    })
                    &&& final(self).tables() == old(self).tables().with_answer(row@)
                    &&& final(self).next_identifier() == old(self).next_identifier() + 1
                },
                Err(failure) => {
                    &&& failure@ == if old(self).tables().has_question(question.bits) {
                        exhausted_failure()
                    } else {
                        missing_question_failure()
                    }
                    &&& !old(self).tables().has_question(question.bits) || old(self).exhausted()
                    &&& final(self).tables() == old(self).tables()
                    &&& final(self).next_identifier() == old(self).next_identifier()
                },
            },
    {
        if !self.has_question(question) {
            return Err(
                StoreFailure {
                    code: Some(String::from_str(FOREIGN_KEY_VIOLATION)),
                    detail: String::from_str("the answer refers to a question that does not exist"),
                },
            );
        }
        if self.next == u128::MAX {
            return Err(
                StoreFailure {
                    code: None,
                    detail: String::from_str("no identifier is left to assign"),
                },
            );
        }
        let row = AnswerRow {
            answer_uuid: Identifier { bits: self.next },
            question_uuid: question,
            content,
            created_at: self.clock,
        };
        let copy = row.duplicate();
        proof {
            assert(answer_records(self.answers@.push(row)) =~= answer_records(self.answers@).push(
                row@,
            ));
            self.tables().lemma_with_answer(row@);
        }
        self.answers.push(row);
        self.next = self.next + 1;
        Ok(copy)
    }

    /// The answers to the question `question`, in the order in which they
    /// were inserted. Never fails: a question without answers, and one that
    /// the store does not have, give no row.
    pub fn select_answers(&self, question: Identifier) -> (reply: Result<
        Vec<AnswerRow>,
        StoreFailure,
    >)
        ensures
            reply matches Ok(rows) && answer_records(rows@) == self.tables().answers_to(
                question.bits,
            ),
    {
        let wanted = |row: &AnswerRow| -> (picked: bool)
            ensures
                picked == (row.question_uuid.bits == question.bits),
            { row.question_uuid.bits == question.bits };
        let rows = selected(&self.answers, wanted, Ghost(|record: AnswerRecord| record.question == question.bits));
        proof {
            assert(records(rows@) =~= answer_records(rows@));
            assert(records(self.answers@) =~= answer_records(self.answers@));
        }
        Ok(rows)
    }

    /// Deletes the answer `id`, if there is one. Never fails.
    pub fn remove_answer(&mut self, id: Identifier) -> (reply: Result<(), StoreFailure>)
        requires
            old(self).valid(),
        ensures
            final(self).valid(),
            final(self).now() == old(self).now(),
            final(self).next_identifier() == old(self).next_identifier(),
            reply is Ok,
            final(self).tables() == old(self).tables().without_answer(id.bits),
    {
        let wanted = |row: &AnswerRow| -> (picked: bool)
            ensures
                picked == (row.answer_uuid.bits != id.bits),
            { row.answer_uuid.bits != id.bits };
        let kept = selected(&self.answers, wanted, Ghost(|record: AnswerRecord| record.id != id.bits));
        proof {
            assert(records(kept@) =~= answer_records(kept@));
            assert(records(self.answers@) =~= answer_records(self.answers@));
            self.tables().lemma_without_answer(id.bits, self.next);
        }
        self.answers = kept;
        Ok(())
    }
}

impl QuestionsDao for MemoryStore {
    /// Fails exactly when no identifier is left. The new question gets the
    /// next identifier and the time that the clock shows.
    fn create_question(&mut self, question: Question) -> (result: Result<QuestionDetail, DBError>)
        ensures
            final(self).now() == old(self).now(),
            match result {
                Ok(detail) => {
                    &&& !old(self).exhausted()
                    &&& final(self).tables().questions.last() == (QuestionRecord {
                        id: old(self).next_identifier(),
                        title: question.title@,
                        description: question.description@,
                        created_at: old(self).now(),
                    })
                    &&& final(self).next_identifier() == old(self).next_identifier() + 1
                },
                Err(error) => {
                    &&& old(self).exhausted()
                    &&& error@ == DBErrorView::Other(exhausted_failure())
                    &&& final(self).next_identifier() == old(self).next_identifier()
                },
            },
    {
        proof {
            self.lemma_valid();
        }
        match create_question_statement(question) {
            Statement::InsertQuestion { title, description } => create_question_result(
                self.insert_question(title, description),
            ),
            _ => unreached(),
        }
    }

    /// Fails on a well-formed identifier exactly when an answer belongs to
    /// the question: the store lets no answer lose its question.
    fn delete_question(&mut self, question_uuid: String) -> (result: Result<(), DBError>)
        ensures
            final(self).now() == old(self).now(),
            final(self).next_identifier() == old(self).next_identifier(),
            well_formed(question_uuid@) ==> (result is Ok <==> !old(self).tables().has_answer_to(
                value_of(question_uuid@) as u128,
            )),
            result matches Err(error) ==> well_formed(question_uuid@) ==> error@
                == DBErrorView::Other(referenced_question_failure()),
            well_formed(question_uuid@) && !old(self).tables().has_question(
                value_of(question_uuid@) as u128,
            ) ==> result is Ok && final(self).tables() == old(self).tables(),
    {
        proof {
            self.lemma_valid();
            if well_formed(question_uuid@) && !self.tables().has_question(
                value_of(question_uuid@) as u128,
            ) {
                self.tables().lemma_absent_question_has_no_answers(
                    value_of(question_uuid@) as u128,
                );
                self.tables().lemma_delete_absent_question(value_of(question_uuid@) as u128);
            }
        }
        match delete_question_statement(question_uuid) {
            Err(error) => Err(error),
            Ok(Statement::DeleteQuestion { question_uuid: id }) => delete_question_result(
                self.remove_question(id),
            ),
            Ok(_) => unreached(),
        }
    }

    /// Never fails, and lists the questions in the order in which they were
    /// inserted.
    fn get_questions(&self) -> (result: Result<Vec<QuestionDetail>, DBError>)
        ensures
            result matches Ok(details) && question_detail_views(details@) == question_details(
                self.tables().questions,
            ),
    {
        match get_questions_statement() {
            Statement::SelectQuestions => get_questions_result(self.select_questions()),
            _ => unreached(),
        }
    }
}

impl AnswersDao for MemoryStore {
    /// Fails with `InvalidUUID` when the identifier of the question is
    /// malformed or names no question, and otherwise exactly when no
    /// identifier is left. The new answer gets the next identifier and the
    /// time that the clock shows.
    fn create_answer(&mut self, answer: Answer) -> (result: Result<AnswerDetail, DBError>)
        ensures
            final(self).now() == old(self).now(),
            match result {
                Ok(detail) => {
                    &&& !old(self).exhausted()
                    &&& final(self).tables().answers.last() == (AnswerRecord {
                        id: old(self).next_identifier(),
                        question: value_of(answer.question_uuid@) as u128,
                        content: answer.content@,
                        created_at: old(self).now(),
                    })
                    &&& final(self).next_identifier() == old(self).next_identifier() + 1
                },
                Err(error) => {
                    &&& final(self).next_identifier() == old(self).next_identifier()
                    &&& if well_formed(answer.question_uuid@) && old(self).tables().has_question(
                        value_of(answer.question_uuid@) as u128,
                    ) {
                        old(self).exhausted() && error@ == DBErrorView::Other(exhausted_failure())
                    } else {
                        error@ == DBErrorView::InvalidUUID(answer.question_uuid@)
                    }
                },
            },
    {
        proof {
            self.lemma_valid();
        }
        let supplied = answer.question_uuid.clone();
        match create_answer_statement(answer) {
            Err(error) => Err(error),
            Ok(Statement::InsertAnswer { question_uuid, content }) => create_answer_result(
                supplied,
                self.insert_answer(question_uuid, content),
            ),
            Ok(_) => unreached(),
        }
    }

    /// Fails only on a malformed identifier.
    fn delete_answer(&mut self, answer_uuid: String) -> (result: Result<(), DBError>)
        ensures
            final(self).now() == old(self).now(),
            final(self).next_identifier() == old(self).next_identifier(),
            result is Ok <==> well_formed(answer_uuid@),
            well_formed(answer_uuid@) && !old(self).tables().has_answer(
                value_of(answer_uuid@) as u128,
            ) ==> final(self).tables() == old(self).tables(),
    {
        proof {
            if well_formed(answer_uuid@) && !self.tables().has_answer(
                value_of(answer_uuid@) as u128,
            ) {
                self.tables().lemma_delete_absent_answer(value_of(answer_uuid@) as u128);
            }
        }
        match delete_answer_statement(answer_uuid) {
            Err(error) => Err(error),
            Ok(Statement::DeleteAnswer { answer_uuid: id }) => delete_answer_result(
                self.remove_answer(id),
            ),
            Ok(_) => unreached(),
        }
    }

    /// Fails only on a malformed identifier, and lists the answers in the
    /// order in which they were inserted.
    fn get_answers(&self, question_uuid: String) -> (result: Result<Vec<AnswerDetail>, DBError>)
        ensures
            result is Ok <==> well_formed(question_uuid@),
            result matches Ok(details) ==> answer_detail_views(details@) == answer_details(
                self.tables().answers_to(value_of(question_uuid@) as u128),
            ),
            result matches Ok(details) ==> !self.tables().has_answer_to(
                value_of(question_uuid@) as u128,
            ) ==> details@.len() == 0,
    {
        proof {
            if well_formed(question_uuid@) && !self.tables().has_answer_to(
                value_of(question_uuid@) as u128,
            ) {
                self.tables().lemma_no_answers(value_of(question_uuid@) as u128);
            }
        }
        match get_answers_statement(question_uuid) {
            Err(error) => Err(error),
            Ok(Statement::SelectAnswers { question_uuid: id }) => {
                let result = get_answers_result(self.select_answers(id));
                proof {
                    if result is Ok {
                        let details = result->Ok_0;
                        assert(answer_detail_views(details@).len() == details@.len());
                    }
                }
                result
            },
            Ok(_) => unreached(),
        }
    }
}

} // verus!
