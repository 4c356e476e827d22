//! Bodies of the quiz configuration endpoints.

use vstd::prelude::*;

verus! {

/// Quiz settings of a game.
#[derive(Debug, Clone)]
pub struct CreateQuizConfigRequest {
    pub game_id: i32,
    pub time_limit: Option<i32>,
    pub passing_score: Option<i32>,
    pub end_screen_text: Option<String>,
    pub end_screen_button_text: Option<String>,
    pub end_screen_button_url: Option<String>,
    pub end_screen_button_new_tab: Option<bool>,
    pub min_players: Option<i32>,
}

/// A new multiple-choice question.
#[derive(Debug, Clone)]
pub struct CreateQuestionRequest {
    pub question_text: String,
    pub options: Vec<String>,
    pub correct_answer: i32,
    pub points: Option<i32>,
    pub order_number: Option<i32>,
    pub justification: Option<String>,
}

/// New quiz settings.
#[derive(Debug, Clone)]
pub struct UpdateQuizConfigRequest {
    pub end_screen_text: Option<String>,
    pub end_screen_button_text: Option<String>,
    pub end_screen_button_url: Option<String>,
    pub end_screen_button_new_tab: Option<bool>,
    pub min_players: Option<i32>,
}

} // verus!
