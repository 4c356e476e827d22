use vstd::prelude::*;

verus! {

/// A participant as other clients see it.
#[derive(Debug)]
pub struct PlayerInfo {
    pub player_id: i32,
    pub username: String,
}

/// One cell of a word-search grid.
#[derive(Clone, Copy, Debug, PartialEq, Eq, Structural)]
pub struct CellPosition {
    pub row: i32,
    pub col: i32,
}

/// Text queued for one connection's outbound channel.
#[derive(Debug)]
pub struct SendMessage {
    pub text: String,
}

/// The tagged wire event exchanged over a room connection.  Fields that hold
/// free-form JSON carry its text.
#[derive(Debug)]
pub enum WsMessage {
    WordFound {
        word: String,
        cells: Vec<CellPosition>,
        player_id: Option<i32>,
        player_color: Option<String>,
        player_name: Option<String>,
        found_at: Option<i32>,
    },
    QuizAnswer { question_index: i32, answer: String, player_id: i32, player_name: String },
    QuizConsensus { question_index: i32, answer: String, votes: i32, total_players: i32 },
    QuizAdvance { question_index: i32 },
    QuizTimerSync { elapsed_time: i32, player_id: i32 },
    QuizCurrentQuestion { question_index: i32, player_id: i32 },
    QuizFinished { player_id: i32 },
    PlayerJoined { username: String, player_id: i32 },
    PlayerLeft { username: String, player_id: i32 },
    PlayersList { players: Vec<PlayerInfo> },
    RoomReset { reset_by: String },
    QuizVoteState { votes: String },
    GameState { data: String },
    OpenQuestionResponse {
        question_id: i32,
        response_text: String,
        player_name: Option<String>,
        room_name: Option<String>,
        created_at: String,
    },
    OpenQuestionToggle { question_id: i32, is_open: bool },
}

} // verus!
