use qa_store::{
    Answer, AnswerDetail, AnswersDao, DBError, Identifier, MemoryStore, Question, QuestionDetail,
    QuestionsDao, Timestamp,
};

fn question(title: &str, description: &str) -> Question {
    Question { title: title.to_string(), description: description.to_string() }
}

fn answer(question_uuid: &str, content: &str) -> Answer {
    Answer { question_uuid: question_uuid.to_string(), content: content.to_string() }
}

fn noon(julian_day: i32) -> Timestamp {
    Timestamp::new(julian_day, 12, 0, 0, 0).unwrap()
}

const DAY: i32 = 2_460_432;

fn store_at(julian_day: i32) -> MemoryStore {
    let mut store = MemoryStore::new();
    store.set_clock(noon(julian_day));
    store
}

const ABSENT: &str = "9b1deb4d-3b7d-4bad-9bdd-2b0d7b3dcb6d";

#[test]
fn the_clock_of_a_new_store() {
    let mut store = MemoryStore::new();
    let detail = store.create_question(question("T", "D")).unwrap();
    assert_eq!(detail.created_at, "1970-01-01 0:00:00.0");
}

#[test]
fn a_new_store_is_empty() {
    let store = MemoryStore::new();
    assert_eq!(store.get_questions().unwrap(), Vec::new());
    assert_eq!(store.get_answers(ABSENT.to_string()).unwrap(), Vec::new());
    assert!(!store.has_question(Identifier { bits: 0 }));
    assert!(!store.has_answer_to(Identifier { bits: 0 }));
}

#[test]
fn a_created_question_is_returned_and_listed() {
    let mut store = store_at(DAY);
    let detail = store.create_question(question("T", "D")).unwrap();
    assert_eq!(detail.title, "T");
    assert_eq!(detail.description, "D");
    assert_eq!(detail.created_at, "2024-05-01 12:00:00.0");
    let id = Identifier::parse(detail.question_uuid.clone()).unwrap();
    assert_eq!(id.to_text(), detail.question_uuid);
    assert!(store.has_question(id));
    assert_eq!(store.get_questions().unwrap(), vec![detail]);
}

#[test]
fn questions_get_identifiers_of_their_own() {
    let mut store = store_at(DAY);
    let first = store.create_question(question("a", "1")).unwrap();
    store.set_clock(noon(DAY + 1));
    let second = store.create_question(question("a", "1")).unwrap();
    assert_eq!(first.question_uuid, "00000000-0000-0000-0000-000000000000");
    assert_eq!(second.question_uuid, "00000000-0000-0000-0000-000000000001");
    assert_eq!(first.created_at, "2024-05-01 12:00:00.0");
    assert_eq!(second.created_at, "2024-05-02 12:00:00.0");
    assert_eq!(store.get_questions().unwrap(), vec![first, second]);
}

#[test]
fn an_answer_to_a_missing_question_is_refused_and_not_inserted() {
    let mut store = store_at(DAY);
    let kept = store.create_question(question("T", "D")).unwrap();
    match store.create_answer(answer(ABSENT, "C")) {
        Err(DBError::InvalidUUID(value)) => assert_eq!(value, ABSENT),
        other => panic!("{:?}", other),
    }
    assert_eq!(store.get_answers(ABSENT.to_string()).unwrap(), Vec::new());
    assert_eq!(store.get_answers(kept.question_uuid.clone()).unwrap(), Vec::new());
    assert_eq!(store.get_questions().unwrap(), vec![kept]);
}

#[test]
fn an_answer_with_a_malformed_question_is_refused_and_not_inserted() {
    let mut store = store_at(DAY);
    let kept = store.create_question(question("T", "D")).unwrap();
    match store.create_answer(answer("not an identifier", "C")) {
        Err(DBError::InvalidUUID(value)) => assert_eq!(value, "not an identifier"),
        other => panic!("{:?}", other),
    }
    assert_eq!(store.get_answers(kept.question_uuid).unwrap(), Vec::new());
}

#[test]
fn a_created_answer_is_returned_and_listed() {
    let mut store = store_at(DAY);
    let asked = store.create_question(question("T", "D")).unwrap();
    store.set_clock(noon(DAY + 1));
    let detail = store.create_answer(answer(&asked.question_uuid, "C")).unwrap();
    assert_eq!(
        detail,
        AnswerDetail {
            answer_uuid: "00000000-0000-0000-0000-000000000001".to_string(),
            question_uuid: asked.question_uuid.clone(),
            content: "C".to_string(),
            created_at: "2024-05-02 12:00:00.0".to_string(),
        }
    );
    assert_eq!(store.get_answers(asked.question_uuid.clone()).unwrap(), vec![detail]);
    assert!(store.has_answer_to(Identifier::parse(asked.question_uuid).unwrap()));
}

#[test]
fn the_question_of_an_answer_may_be_written_in_upper_case() {
    let mut store = MemoryStore::starting_at(0xabcdef01_2345_6789_abcd_ef0123456789);
    let asked = store.create_question(question("T", "D")).unwrap();
    assert_eq!(asked.question_uuid, "abcdef01-2345-6789-abcd-ef0123456789");
    let detail =
        store.create_answer(answer("ABCDEF01-2345-6789-ABCD-EF0123456789", "C")).unwrap();
    assert_eq!(detail.question_uuid, asked.question_uuid);
    let listed = store.get_answers("ABCDEF01-2345-6789-abcd-ef0123456789".to_string()).unwrap();
    assert_eq!(listed, vec![detail]);
}

#[test]
fn other_writings_of_an_existing_identifier_are_refused_and_change_nothing() {
    let mut store = store_at(DAY);
    let asked = store.create_question(question("T", "D")).unwrap();
    let given = store.create_answer(answer(&asked.question_uuid, "C")).unwrap();
    assert_eq!(asked.question_uuid, "00000000-0000-0000-0000-000000000000");
    assert_eq!(given.answer_uuid, "00000000-0000-0000-0000-000000000001");
    for text in [
        "00000000000000000000000000000000",
        "{00000000-0000-0000-0000-000000000000}",
        "urn:uuid:00000000-0000-0000-0000-000000000000",
        "URN:UUID:00000000-0000-0000-0000-000000000000",
        "00000000000000000000000000000001",
        "{00000000-0000-0000-0000-000000000001}",
        "urn:uuid:00000000-0000-0000-0000-000000000001",
    ] {
        assert!(matches!(
            store.create_answer(answer(text, "C")),
            Err(DBError::InvalidUUID(ref v)) if v == text
        ));
        assert!(matches!(
            store.get_answers(text.to_string()),
            Err(DBError::InvalidUUID(ref v)) if v == text
        ));
        assert!(matches!(
            store.delete_question(text.to_string()),
            Err(DBError::InvalidUUID(ref v)) if v == text
        ));
        assert!(matches!(
            store.delete_answer(text.to_string()),
            Err(DBError::InvalidUUID(ref v)) if v == text
        ));
    }
    assert_eq!(store.get_questions().unwrap(), vec![asked.clone()]);
    assert_eq!(store.get_answers(asked.question_uuid).unwrap(), vec![given]);
}

#[test]
fn deleting_by_a_text_without_hyphens_is_refused_on_an_empty_store() {
    let mut store = MemoryStore::new();
    match store.delete_question("67e5504410b1426f9247bb680e5fe0c8".to_string()) {
        Err(DBError::InvalidUUID(value)) => assert_eq!(value, "67e5504410b1426f9247bb680e5fe0c8"),
        other => panic!("{:?}", other),
    }
    assert_eq!(store.get_questions().unwrap(), Vec::new());
}

#[test]
fn answers_are_listed_by_question() {
    let mut store = store_at(DAY);
    let first = store.create_question(question("first", "")).unwrap();
    let second = store.create_question(question("second", "")).unwrap();
    let a = store.create_answer(answer(&first.question_uuid, "a")).unwrap();
    let b = store.create_answer(answer(&second.question_uuid, "b")).unwrap();
    let c = store.create_answer(answer(&first.question_uuid, "c")).unwrap();
    assert_eq!(store.get_answers(first.question_uuid).unwrap(), vec![a, c]);
    assert_eq!(store.get_answers(second.question_uuid).unwrap(), vec![b]);
}

#[test]
fn deleting_a_missing_question_succeeds_and_changes_nothing() {
    let mut store = store_at(DAY);
    let asked = store.create_question(question("T", "D")).unwrap();
    let given = store.create_answer(answer(&asked.question_uuid, "C")).unwrap();
    assert!(store.delete_question(ABSENT.to_string()).is_ok());
    assert!(store.delete_question(ABSENT.to_string()).is_ok());
    assert_eq!(store.get_questions().unwrap(), vec![asked.clone()]);
    assert_eq!(store.get_answers(asked.question_uuid).unwrap(), vec![given]);
}

#[test]
fn deleting_a_question_takes_it_away() {
    let mut store = store_at(DAY);
    let first = store.create_question(question("first", "")).unwrap();
    let second = store.create_question(question("second", "")).unwrap();
    assert!(store.delete_question(first.question_uuid.clone()).is_ok());
    assert_eq!(store.get_questions().unwrap(), vec![second.clone()]);
    assert!(store.delete_question(first.question_uuid).is_ok());
    assert_eq!(store.get_questions().unwrap(), vec![second]);
}

#[test]
fn a_question_with_answers_is_not_deleted() {
    let mut store = store_at(DAY);
    let asked = store.create_question(question("T", "D")).unwrap();
    let given = store.create_answer(answer(&asked.question_uuid, "C")).unwrap();
    match store.delete_question(asked.question_uuid.clone()) {
        Err(DBError::Other(cause)) => {
            assert_eq!(cause.code, Some("23503".to_string()));
            assert_eq!(cause.detail, "an answer still refers to the question");
        }
        other => panic!("{:?}", other),
    }
    assert_eq!(store.get_questions().unwrap(), vec![asked.clone()]);
    assert_eq!(store.get_answers(asked.question_uuid.clone()).unwrap(), vec![given.clone()]);
    assert!(store.delete_answer(given.answer_uuid).is_ok());
    assert!(store.delete_question(asked.question_uuid).is_ok());
    assert_eq!(store.get_questions().unwrap(), Vec::new());
}

#[test]
fn deleting_an_answer_takes_it_away_and_no_other() {
    let mut store = store_at(DAY);
    let asked = store.create_question(question("T", "D")).unwrap();
    let a = store.create_answer(answer(&asked.question_uuid, "a")).unwrap();
    let b = store.create_answer(answer(&asked.question_uuid, "b")).unwrap();
    assert!(store.delete_answer(a.answer_uuid.clone()).is_ok());
    assert_eq!(store.get_answers(asked.question_uuid.clone()).unwrap(), vec![b.clone()]);
    assert!(store.delete_answer(a.answer_uuid).is_ok());
    assert!(store.delete_answer(ABSENT.to_string()).is_ok());
    assert_eq!(store.get_answers(asked.question_uuid).unwrap(), vec![b]);
}

#[test]
fn a_question_without_answers_has_an_empty_list() {
    let mut store = store_at(DAY);
    let asked = store.create_question(question("T", "D")).unwrap();
    let other = store.create_question(question("U", "E")).unwrap();
    store.create_answer(answer(&other.question_uuid, "C")).unwrap();
    assert_eq!(store.get_answers(asked.question_uuid).unwrap(), Vec::new());
    assert_eq!(store.get_answers(ABSENT.to_string()).unwrap(), Vec::new());
}

#[test]
fn malformed_identifiers_are_refused_by_every_operation() {
    let mut store = store_at(DAY);
    let asked = store.create_question(question("T", "D")).unwrap();
    for text in ["", "42", "9b1deb4d-3b7d-4bad-9bdd-2b0d7b3dcb6", "9b1deb4d-3b7d-4bad-9bdd-2b0d7b3dcb6x"] {
        assert!(matches!(
            store.delete_question(text.to_string()),
            Err(DBError::InvalidUUID(ref v)) if v == text
        ));
        assert!(matches!(
            store.delete_answer(text.to_string()),
            Err(DBError::InvalidUUID(ref v)) if v == text
        ));
        assert!(matches!(
            store.get_answers(text.to_string()),
            Err(DBError::InvalidUUID(ref v)) if v == text
        ));
        assert!(matches!(
            store.create_answer(answer(text, "C")),
            Err(DBError::InvalidUUID(ref v)) if v == text
        ));
    }
    assert_eq!(store.get_questions().unwrap(), vec![asked]);
}

#[test]
fn what_was_created_is_listed_with_the_same_fields() {
    let mut store = store_at(DAY);
    let mut questions: Vec<QuestionDetail> = Vec::new();
    for (title, description) in [("a", "x"), ("", ""), ("b \u{e9}", "y\nz")] {
        questions.push(store.create_question(question(title, description)).unwrap());
    }
    assert_eq!(store.get_questions().unwrap(), questions);
    assert_eq!(store.get_questions().unwrap(), questions);
    let mut answers: Vec<AnswerDetail> = Vec::new();
    for content in ["one", "", "three \u{1F600}"] {
        answers.push(store.create_answer(answer(&questions[1].question_uuid, content)).unwrap());
    }
    assert_eq!(store.get_answers(questions[1].question_uuid.clone()).unwrap(), answers);
    for detail in &answers {
        let id = Identifier::parse(detail.answer_uuid.clone()).unwrap();
        assert_eq!(id.to_text(), detail.answer_uuid);
        assert_eq!(detail.question_uuid, questions[1].question_uuid);
    }
}

#[test]
fn the_rows_of_the_store() {
    let mut store = store_at(DAY);
    let row = store.insert_question("T".to_string(), "D".to_string()).unwrap();
    assert_eq!(row.question_uuid, Identifier { bits: 0 });
    assert_eq!(store.select_questions().unwrap(), vec![row.clone()]);
    let missing = store.insert_answer(Identifier { bits: 7 }, "C".to_string()).unwrap_err();
    assert_eq!(missing.code, Some("23503".to_string()));
    assert_eq!(missing.detail, "the answer refers to a question that does not exist");
    let given = store.insert_answer(row.question_uuid, "C".to_string()).unwrap();
    assert_eq!(given.answer_uuid, Identifier { bits: 1 });
    assert_eq!(given.question_uuid, row.question_uuid);
    assert_eq!(given.created_at, noon(DAY));
    assert_eq!(store.select_answers(row.question_uuid).unwrap(), vec![given.clone()]);
    assert_eq!(store.select_answers(Identifier { bits: 7 }).unwrap(), Vec::new());
    assert!(store.remove_question(row.question_uuid).is_err());
    assert!(store.remove_answer(given.answer_uuid).is_ok());
    assert!(store.remove_question(row.question_uuid).is_ok());
    assert_eq!(store.select_questions().unwrap(), Vec::new());
}

#[test]
fn identifiers_are_assigned_from_the_first_on() {
    let mut store = MemoryStore::starting_at(0x9b1deb4d_3b7d_4bad_9bdd_2b0d7b3dcb6d);
    let asked = store.create_question(question("T", "D")).unwrap();
    assert_eq!(asked.question_uuid, "9b1deb4d-3b7d-4bad-9bdd-2b0d7b3dcb6d");
    let given = store.create_answer(answer(ABSENT, "C")).unwrap();
    assert_eq!(given.answer_uuid, "9b1deb4d-3b7d-4bad-9bdd-2b0d7b3dcb6e");
    assert_eq!(given.question_uuid, ABSENT);
}

#[test]
fn a_store_without_identifiers_left_refuses_to_insert() {
    let mut store = MemoryStore::starting_at(u128::MAX - 1);
    let asked = store.create_question(question("T", "D")).unwrap();
    assert_eq!(asked.question_uuid, "ffffffff-ffff-ffff-ffff-fffffffffffe");
    match store.create_question(question("U", "E")) {
        Err(DBError::Other(cause)) => {
            assert_eq!(cause.code, None);
            assert_eq!(cause.detail, "no identifier is left to assign");
        }
        other => panic!("{:?}", other),
    }
    match store.create_answer(answer(&asked.question_uuid, "C")) {
        Err(DBError::Other(cause)) => {
            assert_eq!(cause.code, None);
            assert_eq!(cause.detail, "no identifier is left to assign");
        }
        other => panic!("{:?}", other),
    }
    match store.create_answer(answer(ABSENT, "C")) {
        Err(DBError::InvalidUUID(value)) => assert_eq!(value, ABSENT),
        other => panic!("{:?}", other),
    }
    assert_eq!(store.get_questions().unwrap(), vec![asked.clone()]);
    assert_eq!(store.get_answers(asked.question_uuid).unwrap(), Vec::new());
}
