//! Bodies of the open-response game endpoints.

use vstd::prelude::*;

verus! {

/// A new open-response game.
#[derive(Debug, Clone)]
pub struct CreateGameRequest {
    pub title: String,
    pub description: Option<String>,
    pub game_password: String,
    pub presenter_password: String,
    pub questions: Vec<String>,
}

/// A response to an open question.
#[derive(Debug, Clone)]
pub struct SubmitResponseRequest {
    pub response_text: String,
    pub player_name: Option<String>,
    pub room_name: Option<String>,
    pub game_password: String,
}

/// The presenter opening or closing a question.
#[derive(Debug, Clone)]
pub struct ToggleQuestionRequest {
    pub presenter_password: String,
}

/// A player password to check.
#[derive(Debug, Clone)]
pub struct ValidatePasswordRequest {
    pub game_password: String,
}

/// A presenter password to check.
#[derive(Debug, Clone)]
pub struct ValidatePresenterPasswordRequest {
    pub presenter_password: String,
}

/// A password that may be either role's.
#[derive(Debug, Clone)]
pub struct UnifiedPasswordRequest {
    pub password: String,
}

/// New content of an open-response game.
#[derive(Debug, Clone)]
pub struct UpdateGameRequest {
    pub title: String,
    pub description: Option<String>,
    pub game_password: String,
    pub presenter_password: String,
    pub questions: Vec<UpdateQuestionRequest>,
}

/// New text of a question.
#[derive(Debug, Clone)]
pub struct UpdateQuestionRequest {
    pub question_text: String,
}

} // verus!
