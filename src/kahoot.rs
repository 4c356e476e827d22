//! Bodies of the presenter-driven quiz endpoints.

use vstd::prelude::*;

verus! {

/// A new presenter-driven quiz.
#[derive(Debug, Clone)]
pub struct CreateKahootGame {
    pub title: String,
    pub description: Option<String>,
    pub presenter_password: String,
    pub room_password: String,
    pub questions: Vec<CreateKahootQuestion>,
}

/// A question of a new quiz.
#[derive(Debug, Clone)]
pub struct CreateKahootQuestion {
    pub question_text: String,
    pub question_order: i32,
    pub time_limit: Option<i32>,
    pub points: Option<i32>,
    pub options: Vec<CreateKahootOption>,
}

/// An answer option of a new question.
#[derive(Debug, Clone)]
pub struct CreateKahootOption {
    pub option_text: String,
    pub option_order: i32,
    pub is_correct: bool,
    pub points: Option<i32>,
}

/// A player or presenter joining with a password.
#[derive(Debug, Clone)]
pub struct JoinKahootGame {
    pub password: String,
    pub player_name: String,
}

/// The role and session handed out on joining.
#[derive(Debug, Clone)]
pub struct JoinResponse {
    pub role: String,
    pub session_id: String,
}

/// An answer to the current question.
#[derive(Debug, Clone)]
pub struct SubmitAnswer {
    pub question_id: i32,
    pub option_id: i32,
    pub response_time: i32,
}

/// The presenter moving to another question.
#[derive(Debug, Clone)]
pub struct AdvanceQuestion {
    pub question_index: i32,
}

/// New content of a quiz; absent passwords are kept.
#[derive(Debug, Clone)]
pub struct UpdateKahootGame {
    pub title: String,
    pub description: Option<String>,
    pub presenter_password: Option<String>,
    pub room_password: Option<String>,
    pub questions: Vec<CreateKahootQuestion>,
}

/// A quiz as shown to its players.
#[derive(Debug, Clone)]
pub struct KahootGame {
    pub id: i32,
    pub title: String,
    pub description: Option<String>,
    pub current_question_index: i32,
    pub questions: Vec<KahootQuestion>,
}

/// A question as shown to players.
#[derive(Debug, Clone)]
pub struct KahootQuestion {
    pub id: i32,
    pub question_text: String,
    pub question_order: i32,
    pub time_limit: i32,
    pub points: i32,
    pub options: Vec<KahootOption>,
}

/// An answer option; correctness only shown to the presenter.
#[derive(Debug, Clone)]
pub struct KahootOption {
    pub id: i32,
    pub option_text: String,
    pub option_order: i32,
    pub is_correct: Option<bool>,
}

/// A player of a quiz.
#[derive(Debug, Clone)]
pub struct Player {
    pub session_id: String,
    pub username: String,
}

/// Result of one player of a quiz.
#[derive(Debug, Clone)]
pub struct Score {
    pub session_id: String,
    pub player_name: String,
    pub total_score: i32,
    pub correct_answers: i32,
}

} // verus!
