//! The data model and the decisions behind the database operations.

pub mod model;
pub mod settings;
pub mod tic_tac_toe;

pub use self::tic_tac_toe::{
    TicTacToeCreateGameError,
    TicTacToeTryMoveError,
    TicTacToeTryMoveResponse,
};
