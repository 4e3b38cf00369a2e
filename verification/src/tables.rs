//! The state of a relational store with a table of questions and a table of
//! answers, as a mathematical value, and what insertion and deletion do to it.

use crate::store::{AnswerRecord, QuestionRecord};
use vstd::prelude::*;

verus! {

/// The state of the store: its two tables, each in the order in which the
/// rows were inserted.
pub struct Tables {
    pub questions: Seq<QuestionRecord>,
    pub answers: Seq<AnswerRecord>,
}

impl Tables {
    /// The store without any row.
    pub open spec fn empty() -> Tables {
        Tables { questions: Seq::empty(), answers: Seq::empty() }
    }

    /// Whether a question has the identifier `id`.
    pub open spec fn has_question(self, id: u128) -> bool {
        exists|i: int| 0 <= i < self.questions.len() && (#[trigger] self.questions[i]).id == id
    }

    /// Whether an answer has the identifier `id`.
    pub open spec fn has_answer(self, id: u128) -> bool {
        exists|i: int| 0 <= i < self.answers.len() && (#[trigger] self.answers[i]).id == id
    }

    /// Whether an answer belongs to the question `question`.
    pub open spec fn has_answer_to(self, question: u128) -> bool {
        exists|i: int|
            0 <= i < self.answers.len() && (#[trigger] self.answers[i]).question == question
    }

    /// The answers to the question `question`, in the order of the table.
    pub open spec fn answers_to(self, question: u128) -> Seq<AnswerRecord> {
        self.answers.filter(|record: AnswerRecord| record.question == question)
    }

    /// The state after the insertion of a question.
    pub open spec fn with_question(self, record: QuestionRecord) -> Tables {
        Tables { questions: self.questions.push(record), answers: self.answers }
    }

    /// The state after the insertion of an answer.
    pub open spec fn with_answer(self, record: AnswerRecord) -> Tables {
        Tables { questions: self.questions, answers: self.answers.push(record) }
    }

    /// The state after the deletion of the question `id`. The answers stay
    /// as they are: nothing is deleted with a question.
    pub open spec fn without_question(self, id: u128) -> Tables {
        Tables {
            questions: self.questions.filter(|record: QuestionRecord| record.id != id),
            answers: self.answers,
        }
    }

    /// The state after the deletion of the answer `id`.
    pub open spec fn without_answer(self, id: u128) -> Tables {
        Tables {
            questions: self.questions,
            answers: self.answers.filter(|record: AnswerRecord| record.id != id),
        }
    }

    /// No identifier occurs twice in a table.
    pub open spec fn identifiers_unique(self) -> bool {
        &&& forall|i: int, j: int|
            0 <= i < j < self.questions.len() ==> (#[trigger] self.questions[i]).id != (
            #[trigger] self.questions[j]).id
        &&& forall|i: int, j: int|
            0 <= i < j < self.answers.len() ==> (#[trigger] self.answers[i]).id != (
            #[trigger] self.answers[j]).id
    }

    /// Every answer belongs to a question of the store.
    pub open spec fn answers_refer_to_questions(self) -> bool {
        forall|i: int|
            0 <= i < self.answers.len() ==> self.has_question((#[trigger] self.answers[i]).question)
    }

    /// Every identifier in use is below `bound`.
    pub open spec fn identifiers_below(self, bound: u128) -> bool {
        &&& forall|i: int| 0 <= i < self.questions.len() ==> (#[trigger] self.questions[i]).id < bound
        &&& forall|i: int| 0 <= i < self.answers.len() ==> (#[trigger] self.answers[i]).id < bound
    }

    /// What a store keeps true of its tables: identifiers are unique, and
    /// every answer belongs to a question.
    pub open spec fn consistent(self) -> bool {
        self.identifiers_unique() && self.answers_refer_to_questions()
    }

    /// The deletion of a question to which no answer belongs keeps the
    /// tables consistent and the identifiers below any bound they were below,
    /// and takes away that question and no other.
    pub proof fn lemma_without_question(self, id: u128, bound: u128)
        requires
            self.consistent(),
            self.identifiers_below(bound),
            !self.has_answer_to(id),
        ensures
            self.without_question(id).consistent(),
            self.without_question(id).identifiers_below(bound),
            forall|other: u128| #[trigger]
                self.without_question(id).has_question(other) <==> other != id
                    && self.has_question(other),
    {
        let key = |record: QuestionRecord| record.id;
        let after = self.without_question(id);
        lemma_filter_out_key(self.questions, key, id, |record: QuestionRecord| record.id != id, bound);
        assert forall|other: u128| #[trigger]
            after.has_question(other) <==> other != id && self.has_question(other) by {
            assert(after.has_question(other) == has_key(after.questions, key, other));
            assert(self.has_question(other) == has_key(self.questions, key, other));
        }
        assert forall|a: int| 0 <= a < after.answers.len() implies after.has_question(
            (#[trigger] after.answers[a]).question,
        ) by {
            assert(self.has_question(self.answers[a].question));
        }
    }

    /// The deletion of an answer keeps the tables consistent and the
    /// identifiers below any bound they were below, and takes away that
    /// answer and no other.
    pub proof fn lemma_without_answer(self, id: u128, bound: u128)
        requires
            self.consistent(),
            self.identifiers_below(bound),
        ensures
            self.without_answer(id).consistent(),
            self.without_answer(id).identifiers_below(bound),
            forall|other: u128| #[trigger]
                self.without_answer(id).has_answer(other) <==> other != id && self.has_answer(
                    other,
                ),
    {
        let key = |record: AnswerRecord| record.id;
        let keep = |record: AnswerRecord| record.id != id;
        let after = self.without_answer(id);
        lemma_filter_out_key(self.answers, key, id, keep, bound);
        lemma_filter_members(self.answers, keep);
        assert forall|other: u128| #[trigger]
            after.has_answer(other) <==> other != id && self.has_answer(other) by {
            assert(after.has_answer(other) == has_key(after.answers, key, other));
            assert(self.has_answer(other) == has_key(self.answers, key, other));
        }
        assert forall|k: int| 0 <= k < after.answers.len() implies after.has_question(
            (#[trigger] after.answers[k]).question,
        ) by {
            assert(after.answers.contains(after.answers[k]));
            let i = choose|i: int|
                0 <= i < self.answers.len() && self.answers[i] == after.answers[k];
            self.lemma_question_of_answer(i, after);
        }
    }

    /// The insertion of a question with an identifier that is not in use
    /// keeps the tables consistent.
    pub proof fn lemma_with_question(self, record: QuestionRecord)
        requires
            self.consistent(),
            !self.has_question(record.id),
        ensures
            self.with_question(record).consistent(),
            forall|other: u128| #[trigger]
                self.with_question(record).has_question(other) <==> other == record.id
                    || self.has_question(other),
    {
        let key = |record: QuestionRecord| record.id;
        let after = self.with_question(record);
        assert(self.has_question(record.id) == has_key(self.questions, key, record.id));
        lemma_push_key(self.questions, key, record);
        assert forall|other: u128| #[trigger]
            after.has_question(other) <==> other == record.id || self.has_question(other) by {
            assert(after.has_question(other) == has_key(after.questions, key, other));
            assert(self.has_question(other) == has_key(self.questions, key, other));
        }
        assert forall|a: int| 0 <= a < after.answers.len() implies after.has_question(
            (#[trigger] after.answers[a]).question,
        ) by {
            assert(self.has_question(self.answers[a].question));
        }
    }

    /// The insertion of an answer to a question of the store, with an
    /// identifier that is not in use, keeps the tables consistent.
    pub proof fn lemma_with_answer(self, record: AnswerRecord)
        requires
            self.consistent(),
            !self.has_answer(record.id),
            self.has_question(record.question),
        ensures
            self.with_answer(record).consistent(),
            forall|other: u128| #[trigger]
                self.with_answer(record).has_answer(other) <==> other == record.id
                    || self.has_answer(other),
    {
        let key = |record: AnswerRecord| record.id;
        let after = self.with_answer(record);
        assert(self.has_answer(record.id) == has_key(self.answers, key, record.id));
        lemma_push_key(self.answers, key, record);
        assert forall|other: u128| #[trigger]
            after.has_answer(other) <==> other == record.id || self.has_answer(other) by {
            assert(after.has_answer(other) == has_key(after.answers, key, other));
            assert(self.has_answer(other) == has_key(self.answers, key, other));
        }
        assert forall|a: int| 0 <= a < after.answers.len() implies after.has_question(
            (#[trigger] after.answers[a]).question,
        ) by {
            if a < self.answers.len() {
                assert(after.answers[a] == self.answers[a]);
                self.lemma_question_of_answer(a, after);
            } else {
                let j = choose|j: int|
                    0 <= j < self.questions.len() && (#[trigger] self.questions[j]).id
                        == record.question;
                assert(after.questions[j].id == record.question);
            }
        }
    }

    /// The question of an answer of consistent tables is a question of any
    /// tables with the same questions.
    proof fn lemma_question_of_answer(self, i: int, other: Tables)
        requires
            self.answers_refer_to_questions(),
            0 <= i < self.answers.len(),
            other.questions == self.questions,
        ensures
            other.has_question(self.answers[i].question),
    {
        let question = self.answers[i].question;
        assert(self.has_question(question));
        let j = choose|j: int|
            0 <= j < self.questions.len() && (#[trigger] self.questions[j]).id == question;
        assert(other.questions[j].id == question);
    }

    /// Deleting a question that the store does not have changes nothing.
    pub proof fn lemma_delete_absent_question(self, id: u128)
        requires
            !self.has_question(id),
        ensures
            self.without_question(id) == self,
    {
        lemma_filter_all(self.questions, |record: QuestionRecord| record.id != id);
    }

    /// Deleting an answer that the store does not have changes nothing.
    pub proof fn lemma_delete_absent_answer(self, id: u128)
        requires
            !self.has_answer(id),
        ensures
            self.without_answer(id) == self,
    {
        lemma_filter_all(self.answers, |record: AnswerRecord| record.id != id);
    }

    /// A question to which no answer belongs has an empty list of answers.
    pub proof fn lemma_no_answers(self, question: u128)
        requires
            !self.has_answer_to(question),
        ensures
            self.answers_to(question) == Seq::<AnswerRecord>::empty(),
    {
        lemma_filter_none(self.answers, |record: AnswerRecord| record.question == question);
    }

    /// In consistent tables no answer belongs to a question that the store
    /// does not have: its list of answers is empty, and it can be deleted.
    pub proof fn lemma_absent_question_has_no_answers(self, question: u128)
        requires
            self.consistent(),
            !self.has_question(question),
        ensures
            !self.has_answer_to(question),
            self.answers_to(question) == Seq::<AnswerRecord>::empty(),
    {
        if self.has_answer_to(question) {
            let i = choose|i: int|
                0 <= i < self.answers.len() && (#[trigger] self.answers[i]).question == question;
            assert(self.has_question(self.answers[i].question));
        }
        self.lemma_no_answers(question);
    }

    /// The answers to a question after the insertion of an answer: one more
    /// for the question of the new answer, the same for any other.
    pub proof fn lemma_answers_after_insertion(self, record: AnswerRecord, question: u128)
        ensures
            self.with_answer(record).answers_to(question) == if record.question == question {
                self.answers_to(question).push(record)
            } else {
                self.answers_to(question)
            },
    {
        self.answers.lemma_filter_push(
            record,
            |other: AnswerRecord| other.question == question,
        );
    }

    /// Every answer in the list of a question is an answer of the store and
    /// belongs to that question.
    pub proof fn lemma_answers_to_members(self, question: u128)
        ensures
            forall|record: AnswerRecord| #[trigger]
                self.answers_to(question).contains(record) <==> self.answers.contains(record)
                    && record.question == question,
    {
        lemma_filter_members(self.answers, |record: AnswerRecord| record.question == question);
    }
}

/// A filtered sequence holds the items of the sequence that pass, and no
/// others.
pub proof fn lemma_filter_members<A>(s: Seq<A>, pred: spec_fn(A) -> bool)
    ensures
        forall|x: A| #[trigger] s.filter(pred).contains(x) <==> s.contains(x) && pred(x),
{
    assert forall|x: A| #[trigger] s.filter(pred).contains(x) <==> s.contains(x) && pred(x) by {
        if s.filter(pred).contains(x) {
            s.lemma_filter_contains_rev(pred, x);
            let k = choose|k: int| 0 <= k < s.filter(pred).len() && s.filter(pred)[k] == x;
            s.lemma_filter_pred(pred, k);
        }
        if s.contains(x) && pred(x) {
            let i = choose|i: int| 0 <= i < s.len() && s[i] == x;
            s.lemma_filter_contains(pred, i);
        }
    }
}

/// Whether an item of `s` has the key `id`.
pub open spec fn has_key<A>(s: Seq<A>, key: spec_fn(A) -> u128, id: u128) -> bool {
    exists|i: int| 0 <= i < s.len() && key(#[trigger] s[i]) == id
}

/// Whether no two items of `s` have the same key.
pub open spec fn keys_distinct<A>(s: Seq<A>, key: spec_fn(A) -> u128) -> bool {
    forall|i: int, j: int| 0 <= i < j < s.len() ==> key(#[trigger] s[i]) != key(#[trigger] s[j])
}

/// Whether the key of every item of `s` is below `bound`.
pub open spec fn keys_below<A>(s: Seq<A>, key: spec_fn(A) -> u128, bound: u128) -> bool {
    forall|i: int| 0 <= i < s.len() ==> key(#[trigger] s[i]) < bound
}

/// Where no two items of a sequence have the same key, no two items of the
/// filtered sequence have.
pub proof fn lemma_filter_distinct<A>(s: Seq<A>, key: spec_fn(A) -> u128, pred: spec_fn(A) -> bool)
    requires
        keys_distinct(s, key),
    ensures
        keys_distinct(s.filter(pred), key),
    decreases s.len(),
{
    reveal(Seq::filter);
    if s.len() > 0 {
        let rest = s.drop_last();
        assert forall|i: int, j: int| 0 <= i < j < rest.len() implies key(#[trigger] rest[i])
            != key(#[trigger] rest[j]) by {
            assert(rest[i] == s[i] && rest[j] == s[j]);
        }
        lemma_filter_distinct(rest, key, pred);
        lemma_filter_members(rest, pred);
        let out = s.filter(pred);
        assert forall|k: int, l: int| 0 <= k < l < out.len() implies key(#[trigger] out[k]) != key(
            #[trigger] out[l],
        ) by {
            if pred(s.last()) && l == out.len() - 1 {
                assert(rest.filter(pred).contains(out[k]));
                let i = choose|i: int| 0 <= i < rest.len() && rest[i] == out[k];
                assert(s[i] == out[k]);
                assert(key(s[i]) != key(s[s.len() - 1]));
            } else {
                assert(out[k] == rest.filter(pred)[k]);
                assert(out[l] == rest.filter(pred)[l]);
            }
        }
    }
}

/// What taking the items with the key `id` out of a sequence does, where
/// `keep` passes the items with another key: the keys stay distinct and
/// below any bound they were below, and the keys that are left are those that
/// were there, but for `id`.
pub proof fn lemma_filter_out_key<A>(
    s: Seq<A>,
    key: spec_fn(A) -> u128,
    id: u128,
    keep: spec_fn(A) -> bool,
    bound: u128,
)
    requires
        forall|x: A| #[trigger] keep(x) == (key(x) != id),
        keys_distinct(s, key),
        keys_below(s, key, bound),
    ensures
        keys_distinct(s.filter(keep), key),
        keys_below(s.filter(keep), key, bound),
        forall|other: u128| #[trigger]
            has_key(s.filter(keep), key, other) <==> other != id && has_key(s, key, other),
{
    let after = s.filter(keep);
    lemma_filter_members(s, keep);
    lemma_filter_distinct(s, key, keep);
    assert forall|other: u128| #[trigger]
        has_key(after, key, other) <==> other != id && has_key(s, key, other) by {
        if has_key(after, key, other) {
            let k = choose|k: int| 0 <= k < after.len() && key(#[trigger] after[k]) == other;
            assert(after.contains(after[k]));
            let i = choose|i: int| 0 <= i < s.len() && s[i] == after[k];
            assert(key(s[i]) == other);
        }
        if other != id && has_key(s, key, other) {
            let i = choose|i: int| 0 <= i < s.len() && key(#[trigger] s[i]) == other;
            assert(s.contains(s[i]));
            assert(after.contains(s[i]));
            let k = choose|k: int| 0 <= k < after.len() && after[k] == s[i];
            assert(key(after[k]) == other);
        }
    }
    assert forall|k: int| 0 <= k < after.len() implies key(#[trigger] after[k]) < bound by {
        assert(after.contains(after[k]));
        let i = choose|i: int| 0 <= i < s.len() && s[i] == after[k];
        assert(key(s[i]) < bound);
    }
}

/// What adding an item with a key that is not in use does to a sequence:
/// the keys stay distinct, and the keys are those that were there and the
/// new one.
pub proof fn lemma_push_key<A>(s: Seq<A>, key: spec_fn(A) -> u128, item: A)
    requires
        keys_distinct(s, key),
        !has_key(s, key, key(item)),
    ensures
        keys_distinct(s.push(item), key),
        forall|other: u128| #[trigger]
            has_key(s.push(item), key, other) <==> other == key(item) || has_key(s, key, other),
{
    let after = s.push(item);
    assert forall|other: u128| #[trigger]
        has_key(after, key, other) <==> other == key(item) || has_key(s, key, other) by {
        if has_key(after, key, other) {
            let k = choose|k: int| 0 <= k < after.len() && key(#[trigger] after[k]) == other;
            if k < s.len() {
                assert(key(s[k]) == other);
            }
        }
        if has_key(s, key, other) {
            let i = choose|i: int| 0 <= i < s.len() && key(#[trigger] s[i]) == other;
            assert(key(after[i]) == other);
        }
        if other == key(item) {
            assert(key(after[s.len() as int]) == other);
        }
    }
    assert forall|i: int, j: int| 0 <= i < j < after.len() implies key(#[trigger] after[i]) != key(
        #[trigger] after[j],
    ) by {
        if j == s.len() {
            assert(key(s[i]) != key(item));
        } else {
            assert(key(s[i]) != key(s[j]));
        }
    }
}

/// Where every item of a sequence passes, filtering changes nothing.
pub proof fn lemma_filter_all<A>(s: Seq<A>, pred: spec_fn(A) -> bool)
    requires
        forall|i: int| 0 <= i < s.len() ==> pred(#[trigger] s[i]),
    ensures
        s.filter(pred) == s,
    decreases s.len(),
{
    reveal(Seq::filter);
    if s.len() > 0 {
        let rest = s.drop_last();
        assert forall|i: int| 0 <= i < rest.len() implies pred(#[trigger] rest[i]) by {
            assert(rest[i] == s[i]);
        }
        lemma_filter_all(rest, pred);
        assert(rest.push(s.last()) =~= s);
    }
}

/// Where no item of a sequence passes, filtering leaves nothing.
pub proof fn lemma_filter_none<A>(s: Seq<A>, pred: spec_fn(A) -> bool)
    requires
        forall|i: int| 0 <= i < s.len() ==> !pred(#[trigger] s[i]),
    ensures
        s.filter(pred) == Seq::<A>::empty(),
    decreases s.len(),
{
    reveal(Seq::filter);
    if s.len() > 0 {
        let rest = s.drop_last();
        assert forall|i: int| 0 <= i < rest.len() implies !pred(#[trigger] rest[i]) by {
            assert(rest[i] == s[i]);
        }
        lemma_filter_none(rest, pred);
    } else {
        assert(s =~= Seq::<A>::empty());
    }
}

} // verus!
