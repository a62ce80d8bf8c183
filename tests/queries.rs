use api_models::{Categories, QQuestions, QResponses};

fn response_mode(r: bool, q: bool, d: bool) -> i32 {
    let query = QResponses {
        response_id: if r { Some(11) } else { None },
        question_id: if q { Some(22) } else { None },
        daredevil_id: if d { Some(33) } else { None },
    };
    QResponses::is_correct_structures(&query)
}

fn question_mode(id: bool, title: bool, rival: bool, category: bool) -> i32 {
    let query = QQuestions {
        question_id: if id { Some(5) } else { None },
        question_title: if title { Some("two sum") } else { None },
        rival_id: if rival { Some(8) } else { None },
        question_category: if category { Some(Categories::SolanaPrograms) } else { None },
    };
    QQuestions::is_correct_structures(&query)
}

#[test]
fn response_modes_cover_every_combination() {
    assert_eq!(response_mode(false, false, false), 0);
    assert_eq!(response_mode(true, false, false), 0);
    assert_eq!(response_mode(false, true, false), 1);
    assert_eq!(response_mode(false, false, true), 3);
    assert_eq!(response_mode(false, true, true), 2);
    assert_eq!(response_mode(true, true, false), 0);
    assert_eq!(response_mode(true, false, true), 0);
    assert_eq!(response_mode(true, true, true), 0);
}

#[test]
fn question_modes_cover_every_combination() {
    for bits in 0u8..16 {
        let id = bits & 1 != 0;
        let title = bits & 2 != 0;
        let rival = bits & 4 != 0;
        let category = bits & 8 != 0;
        let expected = match (id, title, rival, category) {
            (true, false, false, false) => 1,
            (false, true, true, false) => 2,
            (false, false, true, false) => 3,
            (false, false, false, true) => 4,
            _ => 0,
        };
        assert_eq!(question_mode(id, title, rival, category), expected, "pattern {}", bits);
    }
}

#[test]
fn question_modes_named_cases() {
    assert_eq!(question_mode(true, false, false, false), 1);
    assert_eq!(question_mode(false, true, true, false), 2);
    assert_eq!(question_mode(false, false, true, false), 3);
    assert_eq!(question_mode(false, false, false, true), 4);
    assert_eq!(question_mode(false, false, false, false), 0);
    assert_eq!(question_mode(true, true, true, true), 0);
    assert_eq!(question_mode(false, true, false, false), 0);
}

#[test]
fn lone_response_id_is_rejected() {
    let query = QResponses { response_id: Some(7), question_id: None, daredevil_id: None };
    assert_eq!(QResponses::is_correct_structures(&query), 0);
}

#[test]
fn daredevil_and_question_is_mode_two() {
    let query = QResponses { response_id: None, question_id: Some(3), daredevil_id: Some(9) };
    assert_eq!(QResponses::is_correct_structures(&query), 2);
}

#[test]
fn category_only_is_mode_four_and_renders() {
    let query = QQuestions {
        question_id: None,
        question_title: None,
        rival_id: None,
        question_category: Some(Categories::Rust),
    };
    assert_eq!(QQuestions::is_correct_structures(&query), 4);
    assert_eq!(Categories::to_string(query.question_category.as_ref()), "Rust");
}

#[test]
fn categories_render_to_fixed_names() {
    assert_eq!(Categories::to_string(Some(&Categories::All)), "All");
    assert_eq!(Categories::to_string(Some(&Categories::SolanaPrograms)), "SolanaPrograms");
    assert_eq!(Categories::to_string(Some(&Categories::Rust)), "Rust");
    assert_eq!(Categories::to_string(None), "All");
    for c in [Categories::All, Categories::SolanaPrograms, Categories::Rust] {
        assert!(!Categories::to_string(Some(&c)).is_empty());
    }
}
