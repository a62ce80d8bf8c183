//! Data model and query-shape validation for a bounty/quiz platform where
//! rivals author questions and daredevils submit responses to them.

pub mod mutations;
pub mod queries;
pub mod records;

pub use mutations::{RQuestions, RUsers, UQuestion, UUser, UWallets};
pub use queries::{Categories, QQuestions, QResponses};
pub use records::{
    IQuestions, IResponses, ITestCases, IUsers, QuestionStatus, Questions, Responses, TestCases,
    Users, Wallets,
};
