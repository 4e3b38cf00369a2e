//! Data access for a small question-and-answer service: the validation of
//! identifiers, the mapping between requests and store statements, and the
//! classification of store failures.

pub mod answers_dao;
pub mod classifier;
pub mod driver;
pub mod identifier;
pub mod memory;
pub mod models;
pub mod postgres_error_codes;
pub mod questions_dao;
pub mod store;
pub mod tables;
pub mod timestamp;

pub use answers_dao::AnswersDao;
pub use classifier::classify;
pub use identifier::Identifier;
pub use memory::MemoryStore;
pub use models::{
    Answer, AnswerDetail, AnswerId, DBError, Question, QuestionDetail, QuestionId, StoreFailure,
};
pub use questions_dao::{QuestionsDao, StoreModel};
pub use store::{AnswerRow, QuestionRow, Row, Statement};
pub use tables::Tables;
pub use timestamp::Timestamp;
