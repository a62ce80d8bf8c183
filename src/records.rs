use vstd::prelude::*;

verus! {

/// chrono's `NaiveDateTime`, carried through as an opaque timestamp.
#[verifier::external_type_specification]
#[verifier::external_body]
pub struct ExNaiveDateTime(chrono::NaiveDateTime);

/// The lifecycle state of a question, each with its own storage code.
#[derive(Clone, Copy, Debug, PartialEq, Eq, Structural)]
pub enum QuestionStatus {
    OpenUnsolved,
    OpenSolved,
    ClosedUnsolved,
    ClosedSolved,
}

/// The storage code of each status; no two statuses share one.
pub open spec fn status_code(s: QuestionStatus) -> i32 {
    match s {
        QuestionStatus::OpenUnsolved => 1,
        QuestionStatus::OpenSolved => 2,
        QuestionStatus::ClosedUnsolved => 3,
        QuestionStatus::ClosedSolved => 4,
    }
}

impl QuestionStatus {
    /// The code stored in `question_status`.
    pub fn code(&self) -> (r: i32)
        ensures
            r == status_code(*self),
    {
        match self {
            QuestionStatus::OpenUnsolved => 1,
            QuestionStatus::OpenSolved => 2,
            QuestionStatus::ClosedUnsolved => 3,
            QuestionStatus::ClosedSolved => 4,
        }
    }

    /// The status stored as `code`, or `None` for a code that names none.
    pub fn from_code(code: i32) -> (r: Option<QuestionStatus>)
        ensures
            match r {
                Some(s) => status_code(s) == code,
                None => forall|s: QuestionStatus| status_code(s) != code,
            },
            r is Some <==> 1 <= code <= 4,
    {
        match code {
            1 => Some(QuestionStatus::OpenUnsolved),
            2 => Some(QuestionStatus::OpenSolved),
            3 => Some(QuestionStatus::ClosedUnsolved),
            4 => Some(QuestionStatus::ClosedSolved),
            _ => None,
        }
    }
}

/// Distinct statuses have distinct codes, and reading a status's code back
/// gives that status.
pub proof fn status_codes_are_distinct(a: QuestionStatus, b: QuestionStatus)
    ensures
        status_code(a) == status_code(b) <==> a == b,
        1 <= status_code(a) <= 4,
{
}

// Rows as stored.

pub struct Wallets {
    pub user_id: i32,
    pub sol_addr: String,
}

pub struct Responses {
    pub response_id: i32,
    pub daredevil_id: i32,
    pub question_id: i32,
    pub response_code: String,
    pub correctness: bool,
    pub creation_time: chrono::NaiveDateTime,
}

pub struct Questions {
    pub question_id: i32,
    pub rival_id: i32,
    pub question_title: String,
    pub question_body: String,
    pub creation_time: chrono::NaiveDateTime,
    pub deadline: chrono::NaiveDateTime,
    pub question_status: i32,
    pub daredevil: Option<i32>,
    pub reward: i32,
    pub prize_pool: i32,
    pub entrance_fee: i32,
    pub category: String,
}

/// Input and output fixtures of a question, each serialized JSON kept as text.
pub struct TestCases {
    pub test_case_id: i32,
    pub question_id: i32,
    pub test_inputs: String,
    pub test_outputs: String,
}

pub struct Users {
    pub user_id: i32,
    pub email: String,
    pub username: String,
    pub password: String,
    pub total_payed: i32,
    pub total_claimed: i32,
    pub total_unclaimed: i32,
}

// Rows to insert: the storage assigns primary keys, and the creation time
// of a question.

pub struct IResponses {
    pub daredevil_id: i32,
    pub question_id: i32,
    pub response_code: String,
    pub correctness: bool,
    pub creation_time: chrono::NaiveDateTime,
}

pub struct IQuestions {
    pub rival_id: i32,
    pub question_title: String,
    pub question_body: String,
    pub deadline: chrono::NaiveDateTime,
    pub question_status: i32,
    pub daredevil: Option<i32>,
    pub category: String,
    pub reward: i32,
    pub entrance_fee: i32,
}

pub struct ITestCases {
    pub question_id: i32,
    pub test_inputs: String,
    pub test_outputs: String,
}

pub struct IUsers {
    pub email: String,
    pub username: String,
    pub password: String,
}

} // verus!
