use pikadick::database::model::{
    TicTacToeGame,
    TicTacToePlayer,
};
use pikadick::database::tic_tac_toe::{
    concede_score_changes,
    create_tic_tac_toe_game,
    draw_score_changes,
    tic_tac_toe_move,
    win_score_changes,
    ScoreChange,
    TicTacToeCreateGameError,
    TicTacToeTryMoveError,
    TicTacToeTryMoveResponse,
};
use pikadick::tic_tac_toe::{
    minimax,
    Board,
    InvalidTeamError,
    Team,
    WinType,
};

fn board_of(tiles: &[Option<Team>]) -> Board {
    let mut board = Board::new();
    for (i, tile) in tiles.iter().enumerate() {
        board = board.set(i as u8, *tile);
    }
    board
}

const X: Option<Team> = Some(Team::X);
const O: Option<Team> = Some(Team::O);
const E: Option<Team> = None;

#[test]
fn new_board_is_empty_and_x_moves_first() {
    let board = Board::new();
    for i in 0..9 {
        assert_eq!(board.get(i), None);
    }
    assert_eq!(board.num_empty(), 9);
    assert_eq!(board.get_turn(), Team::X);
    assert_eq!(board.get_winner(), None);
    assert!(!board.is_draw());
}

#[test]
fn turn_alternates() {
    let board = Board::new().set(4, X);
    assert_eq!(board.get_turn(), Team::O);
    assert_eq!(board.count(Team::X), 1);
    assert_eq!(board.count(Team::O), 0);
    let board = board.set(0, O);
    assert_eq!(board.get_turn(), Team::X);
}

#[test]
fn team_inverse_and_parse() {
    assert_eq!(Team::X.inverse(), Team::O);
    assert_eq!(Team::O.inverse(), Team::X);
    assert_eq!(Team::from_str("X"), Ok(Team::X));
    assert_eq!(Team::from_str("o"), Ok(Team::O));
    assert_eq!(Team::from_str("Z"), Err(InvalidTeamError));
    assert_eq!(Team::from_str(""), Err(InvalidTeamError));
}

#[test]
fn winner_info_of_each_line_kind() {
    let row = board_of(&[E, E, E, X, X, X, O, O, E]);
    let info = row.get_winner_info().unwrap();
    assert_eq!(info.team, Team::X);
    assert_eq!(info.win_type, WinType::Horizontal);
    assert_eq!(info.start_tile_index(), 3);
    assert_eq!(info.end_tile_index(), 5);

    let column = board_of(&[X, O, X, E, O, X, E, O, E]);
    let info = column.get_winner_info().unwrap();
    assert_eq!(info.team, Team::O);
    assert_eq!(info.win_type, WinType::Vertical);
    assert_eq!((info.start, info.end), (1, 7));

    let diagonal = board_of(&[X, O, E, O, X, E, E, E, X]);
    let info = diagonal.get_winner_info().unwrap();
    assert_eq!(info.win_type, WinType::Diagonal);
    assert_eq!((info.start, info.end), (0, 8));

    let anti = board_of(&[X, X, O, X, O, E, O, E, E]);
    let info = anti.get_winner_info().unwrap();
    assert_eq!(info.team, Team::O);
    assert_eq!(info.win_type, WinType::AntiDiagonal);
    assert_eq!((info.start, info.end), (2, 6));
}

#[test]
fn full_board_without_line_is_draw() {
    let board = board_of(&[X, O, X, X, O, O, O, X, X]);
    assert_eq!(board.get_winner(), None);
    assert!(board.is_draw());
    assert_eq!(board.num_empty(), 0);
}

#[test]
fn encode_decode_round_trip() {
    assert_eq!(Board::new().encode_u16(), 0);
    let board = board_of(&[X, O]);
    assert_eq!(board.encode_u16(), 1 + 2 * 3);
    assert_eq!(Board::decode_u16(7).get(0), X);
    assert_eq!(Board::decode_u16(7).get(1), O);
    let full = board_of(&[O, O, O, O, O, O, O, O, O]);
    assert_eq!(full.encode_u16(), 19682);
    for code in [0u16, 1, 2, 3, 100, 5000, 19682] {
        assert_eq!(Board::decode_u16(code).encode_u16(), code);
    }
    let some = board_of(&[X, E, O, E, X, E, O, E, X]);
    let back = Board::decode_u16(some.encode_u16());
    for i in 0..9 {
        assert_eq!(back.get(i), some.get(i));
    }
}

#[test]
fn minimax_takes_the_win() {
    let board = board_of(&[X, X, E, O, O, E, E, E, E]);
    assert_eq!(minimax(board), (1, 2));
}

#[test]
fn minimax_blocks_a_loss() {
    // O to move; X threatens the top row.
    let board = board_of(&[X, X, E, E, O, E, E, E, E]);
    let (score, index) = minimax(board);
    assert_eq!(index, 2);
    assert_eq!(score, 0);
}

#[test]
fn minimax_on_empty_board_is_a_draw_at_the_first_tile() {
    assert_eq!(minimax(Board::new()), (0, 0));
}

#[test]
fn move_against_computer_gets_an_answer() {
    let game = TicTacToeGame::new(TicTacToePlayer::User(1), TicTacToePlayer::Computer);
    let res = tic_tac_toe_move(game, TicTacToePlayer::User(1), 4);
    match res {
        Ok(TicTacToeTryMoveResponse::NextTurn { game }) => {
            assert_eq!(game.board.get(4), X);
            assert_eq!(game.board.get(0), O);
            assert_eq!(game.board.num_empty(), 7);
            assert_eq!(game.get_player_turn(), TicTacToePlayer::User(1));
        }
        other => panic!("unexpected {:?}", other),
    }
}

#[test]
fn move_out_of_turn_and_bad_tiles_are_refused() {
    let game = TicTacToeGame::new(TicTacToePlayer::User(1), TicTacToePlayer::User(2));
    assert!(matches!(
        tic_tac_toe_move(game, TicTacToePlayer::User(2), 0),
        Err(TicTacToeTryMoveError::InvalidTurn)
    ));
    assert!(matches!(
        tic_tac_toe_move(game, TicTacToePlayer::User(3), 0),
        Err(TicTacToeTryMoveError::InvalidTurn)
    ));
    assert!(matches!(
        tic_tac_toe_move(game, TicTacToePlayer::User(1), 9),
        Err(TicTacToeTryMoveError::InvalidMove)
    ));
    let mut taken = game;
    taken.board = taken.board.set(0, X).set(1, O);
    assert!(matches!(
        tic_tac_toe_move(taken, TicTacToePlayer::User(1), 0),
        Err(TicTacToeTryMoveError::InvalidMove)
    ));
}

#[test]
fn winning_and_tying_moves() {
    let mut game = TicTacToeGame::new(TicTacToePlayer::User(1), TicTacToePlayer::User(2));
    game.board = board_of(&[X, X, E, O, O, E, E, E, E]);
    match tic_tac_toe_move(game, TicTacToePlayer::User(1), 2) {
        Ok(TicTacToeTryMoveResponse::Winner { winner, loser, game }) => {
            assert_eq!(winner, TicTacToePlayer::User(1));
            assert_eq!(loser, TicTacToePlayer::User(2));
            assert_eq!(game.board.get(2), X);
        }
        other => panic!("unexpected {:?}", other),
    }

    game.board = board_of(&[X, O, X, X, O, O, O, X, E]);
    match tic_tac_toe_move(game, TicTacToePlayer::User(1), 8) {
        Ok(TicTacToeTryMoveResponse::Tie { game }) => {
            assert!(game.board.is_draw());
        }
        other => panic!("unexpected {:?}", other),
    }
}

#[test]
fn computer_reply_can_win() {
    let mut game = TicTacToeGame::new(TicTacToePlayer::User(1), TicTacToePlayer::Computer);
    // O holds 3 and 4; X should block at 5 but plays 8.
    game.board = board_of(&[X, E, X, O, O, E, E, E, E]);
    match tic_tac_toe_move(game, TicTacToePlayer::User(1), 8) {
        Ok(TicTacToeTryMoveResponse::Winner { winner, loser, game }) => {
            assert_eq!(winner, TicTacToePlayer::Computer);
            assert_eq!(loser, TicTacToePlayer::User(1));
            assert_eq!(game.board.get(5), O);
        }
        other => panic!("unexpected {:?}", other),
    }
}

#[test]
fn creating_games() {
    let game = create_tic_tac_toe_game(
        TicTacToePlayer::User(1),
        Team::X,
        TicTacToePlayer::Computer,
        None,
    )
    .unwrap();
    assert_eq!(game.x_player, TicTacToePlayer::User(1));
    assert_eq!(game.o_player, TicTacToePlayer::Computer);
    assert_eq!(game.board.num_empty(), 9);

    let game = create_tic_tac_toe_game(
        TicTacToePlayer::User(1),
        Team::O,
        TicTacToePlayer::Computer,
        None,
    )
    .unwrap();
    assert_eq!(game.x_player, TicTacToePlayer::Computer);
    assert_eq!(game.board.get(0), X);
    assert_eq!(game.board.num_empty(), 8);

    assert!(matches!(
        create_tic_tac_toe_game(
            TicTacToePlayer::User(1),
            Team::X,
            TicTacToePlayer::User(2),
            Some((TicTacToePlayer::User(3), TicTacToePlayer::User(1))),
        ),
        Err(TicTacToeCreateGameError::AuthorInGame)
    ));
    assert!(matches!(
        create_tic_tac_toe_game(
            TicTacToePlayer::User(1),
            Team::X,
            TicTacToePlayer::User(2),
            Some((TicTacToePlayer::User(2), TicTacToePlayer::Computer)),
        ),
        Err(TicTacToeCreateGameError::OpponentInGame)
    ));
}

#[test]
fn score_changes() {
    assert_eq!(
        win_score_changes(TicTacToePlayer::User(1), TicTacToePlayer::User(2)),
        vec![ScoreChange::Win(1), ScoreChange::Loss(2)]
    );
    assert_eq!(
        win_score_changes(TicTacToePlayer::Computer, TicTacToePlayer::User(2)),
        vec![]
    );
    let game = TicTacToeGame::new(TicTacToePlayer::User(1), TicTacToePlayer::User(2));
    assert_eq!(
        draw_score_changes(&game),
        vec![ScoreChange::Tie(1), ScoreChange::Tie(2)]
    );
    assert_eq!(
        concede_score_changes(&game, 2),
        Some(vec![ScoreChange::Concede(2), ScoreChange::Win(1)])
    );
    assert_eq!(concede_score_changes(&game, 3), None);
    let vs_computer = TicTacToeGame::new(TicTacToePlayer::Computer, TicTacToePlayer::User(2));
    assert_eq!(concede_score_changes(&vs_computer, 2), Some(vec![]));
    assert_eq!(draw_score_changes(&vs_computer), vec![]);
}

#[test]
fn game_players() {
    let game = TicTacToeGame::new(TicTacToePlayer::User(1), TicTacToePlayer::Computer);
    assert_eq!(game.get_team_turn(), Team::X);
    assert_eq!(game.get_player(Team::O), TicTacToePlayer::Computer);
    assert_eq!(game.get_opponent(TicTacToePlayer::User(1)), Some(TicTacToePlayer::Computer));
    assert_eq!(game.get_opponent(TicTacToePlayer::User(9)), None);
    assert_eq!(
        game.iter_players(),
        vec![TicTacToePlayer::User(1), TicTacToePlayer::Computer]
    );
    let mut game = game;
    assert!(game.try_move(4, Team::X));
    assert!(!game.try_move(4, Team::O));
    assert!(!game.try_move(9, Team::O));
    assert_eq!(game.get_player_turn(), TicTacToePlayer::Computer);
}

#[test]
fn every_code_decodes_and_encodes_back() {
    for code in 0..19683u16 {
        assert_eq!(Board::decode_u16(code).encode_u16(), code);
    }
}
