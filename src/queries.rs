use vstd::prelude::*;

verus! {

/// The closed set of question topics.
#[derive(Clone, Copy, Debug, PartialEq, Eq, Structural)]
pub enum Categories {
    All,
    SolanaPrograms,
    Rust,
}

/// Canonical text of a category; no category at all is the neutral filter `All`.
pub open spec fn category_name(category: Option<&Categories>) -> Seq<char> {
    match category {
        Some(Categories::SolanaPrograms) => "SolanaPrograms"@,
        Some(Categories::Rust) => "Rust"@,
        _ => "All"@,
    }
}

impl Categories {
    /// Renders a category for storage or display; never fails.
    pub fn to_string(category: Option<&Self>) -> (r: String)
        ensures
            r@ == category_name(category),
            r@.len() > 0,
    {
        proof {
            reveal_strlit("All");
            reveal_strlit("SolanaPrograms");
            reveal_strlit("Rust");
        }
        match category {
            Some(Categories::All) => "All".to_string(),
            Some(Categories::Rust) => "Rust".to_string(),
            Some(Categories::SolanaPrograms) => "SolanaPrograms".to_string(),
            None => "All".to_string(),
        }
    }
}

/// Which lookup a response query asks for: 1 by question id alone, 2 by
/// daredevil and question, 3 every response of a daredevil, 0 malformed.
/// A lone response id is malformed.
pub open spec fn response_query_mode(
    has_response_id: bool,
    has_question_id: bool,
    has_daredevil_id: bool,
) -> i32 {
    match (has_response_id, has_question_id, has_daredevil_id) {
        (false, true, false) => 1,
        (false, true, true) => 2,
        (false, false, true) => 3,
        _ => 0,
    }
}

/// Which lookup a question query asks for: 1 by question id, 2 by a rival's
/// question title, 3 every question of a rival, 4 by category, 0 malformed.
pub open spec fn question_query_mode(
    has_question_id: bool,
    has_question_title: bool,
    has_rival_id: bool,
    has_category: bool,
) -> i32 {
    match (has_question_id, has_question_title, has_rival_id, has_category) {
        (true, false, false, false) => 1,
        (false, true, true, false) => 2,
        (false, false, true, false) => 3,
        (false, false, false, true) => 4,
        _ => 0,
    }
}

/// A query for responses; which fields are present selects the lookup.
pub struct QResponses {
    pub response_id: Option<i32>,
    pub question_id: Option<i32>,
    pub daredevil_id: Option<i32>,
}

impl QResponses {
    pub open spec fn query_mode(&self) -> i32 {
        response_query_mode(
            self.response_id is Some,
            self.question_id is Some,
            self.daredevil_id is Some,
        )
    }

    /// The lookup mode of `instance`, 0 when it must be rejected before storage.
    pub fn is_correct_structures(instance: &QResponses) -> (r: i32)
        ensures
            r == instance.query_mode(),
    {
        match (
            instance.response_id.is_some(),
            instance.question_id.is_some(),
            instance.daredevil_id.is_some(),
        ) {
            (false, true, false) => 1,
            (false, true, true) => 2,
            (false, false, true) => 3,
            _ => 0,
        }
    }
}

/// A query for questions; which fields are present selects the lookup.
pub struct QQuestions<'a> {
    pub question_id: Option<i32>,
    pub question_title: Option<&'a str>,
    pub rival_id: Option<i32>,
    pub question_category: Option<Categories>,
}

impl<'a> QQuestions<'a> {
    pub open spec fn query_mode(&self) -> i32 {
        question_query_mode(
            self.question_id is Some,
            self.question_title is Some,
            self.rival_id is Some,
            self.question_category is Some,
        )
    }

    /// The lookup mode of `instance`, 0 when it must be rejected before storage.
    pub fn is_correct_structures(instance: &QQuestions) -> (r: i32)
        ensures
            r == instance.query_mode(),
    {
        match (
            instance.question_id.is_some(),
            instance.question_title.is_some(),
            instance.rival_id.is_some(),
            instance.question_category.is_some(),
        ) {
            (true, false, false, false) => 1,
            (false, true, true, false) => 2,
            (false, false, true, false) => 3,
            (false, false, false, true) => 4,
            _ => 0,
        }
    }
}

/// Every response query gets exactly one mode in 0..=3, and each nonzero mode
/// holds for exactly one pattern of present fields; a query that carries only
/// a response id is rejected.
pub proof fn response_modes_are_exhaustive(q: QResponses)
    ensures
        0 <= q.query_mode() <= 3,
        q.query_mode() == 1 <==> (q.response_id is None && q.question_id is Some
            && q.daredevil_id is None),
        q.query_mode() == 2 <==> (q.response_id is None && q.question_id is Some
            && q.daredevil_id is Some),
        q.query_mode() == 3 <==> (q.response_id is None && q.question_id is None
            && q.daredevil_id is Some),
        (q.response_id is Some && q.question_id is None && q.daredevil_id is None)
            ==> q.query_mode() == 0,
{
}

/// Every question query gets exactly one mode in 0..=4, and each nonzero mode
/// holds for exactly one pattern of present fields.
pub proof fn question_modes_are_exhaustive(q: QQuestions)
    ensures
        0 <= q.query_mode() <= 4,
        q.query_mode() == 1 <==> (q.question_id is Some && q.question_title is None
            && q.rival_id is None && q.question_category is None),
        q.query_mode() == 2 <==> (q.question_id is None && q.question_title is Some
            && q.rival_id is Some && q.question_category is None),
        q.query_mode() == 3 <==> (q.question_id is None && q.question_title is None
            && q.rival_id is Some && q.question_category is None),
        q.query_mode() == 4 <==> (q.question_id is None && q.question_title is None
            && q.rival_id is None && q.question_category is Some),
{
}

/// Rendering a category is total: each category and the absent one give a
/// fixed, non-empty text, and only `Rust` and `SolanaPrograms` differ from `All`.
pub proof fn category_rendering_is_total(c: Option<&Categories>)
    ensures
        category_name(c).len() > 0,
        category_name(c) == "All"@ || category_name(c) == "SolanaPrograms"@
            || category_name(c) == "Rust"@,
        category_name(c) == "Rust"@ <==> c == Some(&Categories::Rust),
        category_name(c) == "SolanaPrograms"@ <==> c == Some(&Categories::SolanaPrograms),
{
    reveal_strlit("All");
    reveal_strlit("SolanaPrograms");
    reveal_strlit("Rust");
}

} // verus!
