//! Request and response bodies of the account, game, session and room endpoints.

use vstd::prelude::*;
use crate::scoring::{decay_score, score};

verus! {

/// Sign-up form.
#[derive(Debug, Clone)]
pub struct RegisterRequest {
    pub email: String,
    pub password: String,
    pub name: String,
}

/// Sign-in form.
#[derive(Debug, Clone)]
pub struct LoginRequest {
    pub email: String,
    pub password: String,
}

/// Claims of an issued bearer token.
#[derive(Debug, Clone)]
pub struct Claims {
    pub sub: i32,
    pub email: String,
    pub exp: usize,
}

/// A new game.
#[derive(Debug, Clone)]
pub struct CreateGameRequest {
    pub name: String,
    pub game_type: String,
    pub description: Option<String>,
    pub is_active: Option<bool>,
    pub end_screen_text: Option<String>,
    pub end_screen_button_text: Option<String>,
    pub end_screen_button_url: Option<String>,
    pub end_screen_button_new_tab: Option<bool>,
}

/// New settings of a game.
#[derive(Debug, Clone)]
pub struct UpdateGameRequest {
    pub name: String,
    pub game_type: String,
    pub description: Option<String>,
    pub is_active: Option<bool>,
    pub end_screen_text: Option<String>,
    pub end_screen_button_text: Option<String>,
    pub end_screen_button_url: Option<String>,
    pub end_screen_button_new_tab: Option<bool>,
}

/// Quiz settings of a game.
#[derive(Debug, Clone)]
pub struct CreateQuizConfigRequest {
    pub game_id: i32,
    pub time_limit: Option<i32>,
    pub end_screen_text: Option<String>,
    pub end_screen_button_text: Option<String>,
    pub end_screen_button_url: Option<String>,
    pub end_screen_button_new_tab: Option<bool>,
}

/// A new quiz question.
#[derive(Debug, Clone)]
pub struct CreateQuizQuestionRequest {
    pub question: String,
    pub option_a: String,
    pub option_b: String,
    pub option_c: String,
    pub option_d: String,
    pub correct_option: String,
    pub justification: Option<String>,
    pub points: Option<i32>,
}

/// A new game session.
#[derive(Debug, Clone)]
pub struct CreateSessionRequest {
    pub game_id: i32,
    pub password: Option<String>,
    pub max_players: Option<i32>,
}

/// A player joining a session by code.
#[derive(Debug, Clone)]
pub struct JoinSessionRequest {
    pub session_code: String,
    pub password: Option<String>,
    pub player_name: String,
}

/// A score reported at the end of a session.
#[derive(Debug, Clone)]
pub struct SubmitScoreRequest {
    pub session_id: i32,
    pub player_name: String,
    pub score: i32,
}

/// Body of an error reply.
#[derive(Debug, Clone)]
pub struct ErrorResponse {
    pub error: String,
}

/// A new multiplayer room.
#[derive(Debug, Clone)]
pub struct CreateRoomRequest {
    pub game_id: i32,
    pub room_name: String,
    pub password: Option<String>,
    pub max_players: Option<i32>,
    pub duration_hours: Option<i32>,
}

/// A registered user joining a room by code.
#[derive(Debug, Clone)]
pub struct JoinRoomRequest {
    pub room_code: String,
    pub password: Option<String>,
}

/// An anonymous player joining a room by code.
#[derive(Debug, Clone)]
pub struct JoinRoomAnonymousRequest {
    pub room_code: String,
    pub password: Option<String>,
    pub player_name: String,
    pub existing_session_id: Option<String>,
}

/// The session token and color handed to an anonymous player.
#[derive(Debug, Clone)]
pub struct AnonymousSessionResponse {
    pub session_id: String,
    pub room_id: i32,
    pub room_code: String,
    pub player_name: String,
    pub player_color: String,
}

/// New settings of a room.
#[derive(Debug, Clone)]
pub struct UpdateRoomRequest {
    pub room_name: String,
    pub password: Option<String>,
    pub max_players: i32,
    pub reactivate: Option<bool>,
    pub duration_hours: Option<i32>,
}

/// A finished game reported by a client.
#[derive(Debug, Clone)]
pub struct CreateGameResult {
    pub game_id: i32,
    pub room_id: Option<i32>,
    pub time_seconds: i32,
    pub score: i32,
    pub completed: bool,
}

impl CreateGameResult {
    /// Score awarded for the reported completion time, on the same decay
    /// curve as live finds.
    pub fn completion_score(&self) -> (s: i32)
        ensures
            s == decay_score(self.time_seconds as int),
    {
        score(self.time_seconds)
    }
}

/// Counts shown on the administration dashboard.
#[derive(Debug, Clone)]
pub struct DashboardStats {
    pub total_users: i64,
    pub total_games: i64,
    pub total_sessions: i64,
    pub total_results: i64,
}

/// Grant or revoke administrator rights.
#[derive(Debug, Clone)]
pub struct UpdateUserAdminRequest {
    pub is_admin: bool,
}

} // verus!
