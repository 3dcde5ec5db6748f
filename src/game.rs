use vstd::prelude::*;

use crate::board::{check_winner, full, is_board_full, wins, EMPTY, MARK_O, MARK_X};
use crate::identity::{sentinel, Identity};

verus! {

/// Where a game stands. `WaitingForPlayer` is the only initial state; the
/// three outcomes are terminal.
#[derive(Clone, Copy, Debug, PartialEq, Eq, Structural)]
pub enum GameStatus {
    WaitingForPlayer,
    Active,
    XWins,
    OWins,
    Tie,
}

/// Why an operation was refused. A refused operation changes nothing.
#[derive(Clone, Copy, Debug, PartialEq, Eq, Structural)]
pub enum ErrorCode {
    GameNotWaitingForPlayer,
    GameNotActive,
    GameStillActive,
    InvalidPosition,
    PositionOccupied,
    NotYourTurn,
    NotAPlayer,
    CannotPlayAgainstYourself,
    AlreadyExists,
}

/// The persisted record of one game.
#[derive(Clone, Copy, Debug)]
pub struct Game {
    /// The creator, who plays X.
    pub player_x: Identity,
    /// The second player, who plays O; the sentinel identity until someone joins.
    pub player_o: Identity,
    /// The nine cells, row by row: `EMPTY`, `MARK_X` or `MARK_O`.
    pub board: [u8; 9],
    /// The mark to play next; read only while the game is active.
    pub current_turn: u8,
    /// Where the game stands; decides which operations are allowed.
    pub status: GameStatus,
    /// Lets the host re-derive the record's address; never read by the engine.
    pub bump: u8,
}

/// A game record as mathematical values.
pub ghost struct GameView {
    pub player_x: Seq<u8>,
    pub player_o: Seq<u8>,
    pub board: Seq<u8>,
    pub current_turn: u8,
    pub status: GameStatus,
    pub bump: u8,
}

impl View for Game {
    type V = GameView;

    open spec fn view(&self) -> GameView {
        GameView {
            player_x: self.player_x@,
            player_o: self.player_o@,
            board: self.board@,
            current_turn: self.current_turn,
            status: self.status,
            bump: self.bump,
        }
    }
}

impl Game {
    /// Bytes that the host allocates for a record: an 8-byte header, two
    /// identities, nine cells, the turn, the status and the bump.
    pub const LEN: usize = 8 + 32 + 32 + 9 + 1 + 1 + 1;
}

/// Whether `s` is one of the three outcomes.
pub open spec fn is_terminal(s: GameStatus) -> bool {
    s == GameStatus::XWins || s == GameStatus::OWins || s == GameStatus::Tie
}

/// The mark that plays after `mark`.
pub open spec fn other_mark(mark: u8) -> u8 {
    if mark == MARK_X {
        MARK_O
    } else {
        MARK_X
    }
}

impl GameView {
    /// What every record reachable by the operations satisfies.
    pub open spec fn wf(self) -> bool {
        &&& self.player_x.len() == 32
        &&& self.player_o.len() == 32
        &&& self.board.len() == 9
        &&& forall|i: int| 0 <= i < 9 ==> #[trigger] self.board[i] <= MARK_O
        &&& self.current_turn == MARK_X || self.current_turn == MARK_O
        &&& self.status == GameStatus::WaitingForPlayer ==> self.player_o == sentinel()
        &&& self.status != GameStatus::WaitingForPlayer ==> self.player_o != self.player_x
    }
}

/// The record that `initialize_game` creates for `player`.
pub open spec fn fresh_game(player: Seq<u8>, bump: u8) -> GameView {
    GameView {
        player_x: player,
        player_o: sentinel(),
        board: Seq::new(9, |_i: int| EMPTY),
        current_turn: MARK_X,
        status: GameStatus::WaitingForPlayer,
        bump,
    }
}

/// The refusal, if any, of a join by `player`.
pub open spec fn join_error(g: GameView, player: Seq<u8>) -> Option<ErrorCode> {
    if g.status != GameStatus::WaitingForPlayer {
        Some(ErrorCode::GameNotWaitingForPlayer)
    } else if player == g.player_x {
        Some(ErrorCode::CannotPlayAgainstYourself)
    } else {
        None
    }
}

/// The record after a successful join by `player`.
pub open spec fn joined(g: GameView, player: Seq<u8>) -> GameView {
    GameView { player_o: player, status: GameStatus::Active, ..g }
}

/// The refusal, if any, of a move by `player` at `position`.
pub open spec fn move_error(g: GameView, player: Seq<u8>, position: u8) -> Option<ErrorCode> {
    if g.status != GameStatus::Active {
        Some(ErrorCode::GameNotActive)
    } else if position >= 9 {
        Some(ErrorCode::InvalidPosition)
    } else if g.board[position as int] != EMPTY {
        Some(ErrorCode::PositionOccupied)
    } else if player == g.player_x {
        if g.current_turn != MARK_X {
            Some(ErrorCode::NotYourTurn)
        } else {
            None
        }
    } else if player == g.player_o {
        if g.current_turn != MARK_O {
            Some(ErrorCode::NotYourTurn)
        } else {
            None
        }
    } else {
        Some(ErrorCode::NotAPlayer)
    }
}

/// The mark that `player` plays: X for the creator, O otherwise.
pub open spec fn mark_of(g: GameView, player: Seq<u8>) -> u8 {
    if player == g.player_x {
        MARK_X
    } else {
        MARK_O
    }
}

/// The record after a successful move by `player` at `position`: the mark is
/// written; a completed line ends the game for its owner, a full board ends it
/// in a tie, and otherwise the turn passes.
pub open spec fn moved(g: GameView, player: Seq<u8>, position: u8) -> GameView {
    let mark = mark_of(g, player);
    let board = g.board.update(position as int, mark);
    if wins(board, mark) {
        GameView {
            board,
            status: if mark == MARK_X {
                GameStatus::XWins
            } else {
                GameStatus::OWins
            },
            ..g
        }
    } else if full(board) {
        GameView { board, status: GameStatus::Tie, ..g }
    } else {
        GameView { board, current_turn: other_mark(g.current_turn), ..g }
    }
}

/// Creates the record of a new game in the empty slot `record`, with `player`
/// as X and X to move. Refused with `AlreadyExists` where the slot holds a record.
pub fn initialize_game(record: &mut Option<Game>, player: Identity, bump: u8) -> (r: Result<(), ErrorCode>)
    ensures
        old(record).is_some() ==> r == Err::<(), ErrorCode>(ErrorCode::AlreadyExists) && *final(record) == *old(record),
        old(record).is_none() ==> r is Ok && final(record).is_some() && final(record).unwrap()@ == fresh_game(player@, bump),
{
    if record.is_some() {
        return Err(ErrorCode::AlreadyExists);
    }
    let game = Game {
        player_x: player,
        player_o: Identity::empty(),
        board: [EMPTY; 9],
        current_turn: MARK_X,
        status: GameStatus::WaitingForPlayer,
        bump,
    };
    assert(game@.board =~= fresh_game(player@, bump).board);
    *record = Some(game);
    Ok(())
}

/// Seats `player` as O and starts the game.
pub fn join_game(game: &mut Game, player: Identity) -> (r: Result<(), ErrorCode>)
    ensures
        match join_error(old(game)@, player@) {
            Some(e) => r == Err::<(), ErrorCode>(e) && *final(game) == *old(game),
            None => r is Ok && final(game)@ == joined(old(game)@, player@),
        },
        r is Ok ==> final(game).player_o@ != final(game).player_x@,
{
    if game.status != GameStatus::WaitingForPlayer {
        return Err(ErrorCode::GameNotWaitingForPlayer);
    }
    if game.player_x == player {
        return Err(ErrorCode::CannotPlayAgainstYourself);
    }
    game.player_o = player;
    game.status = GameStatus::Active;
    Ok(())
}

/// Plays `player`'s mark at `position` (0 to 8, row by row), then ends the
/// game on a win or a full board, or passes the turn.
pub fn make_move(game: &mut Game, player: Identity, position: u8) -> (r: Result<(), ErrorCode>)
    ensures
        match move_error(old(game)@, player@, position) {
            Some(e) => r == Err::<(), ErrorCode>(e) && *final(game) == *old(game),
            None => r is Ok && final(game)@ == moved(old(game)@, player@, position),
        },
{
    if game.status != GameStatus::Active {
        return Err(ErrorCode::GameNotActive);
    }
    if position >= 9 {
        return Err(ErrorCode::InvalidPosition);
    }
    let pos = position as usize;
    if game.board[pos] != EMPTY {
        return Err(ErrorCode::PositionOccupied);
    }
    let mark: u8 = if player == game.player_x {
        if game.current_turn != MARK_X {
            return Err(ErrorCode::NotYourTurn);
        }
        MARK_X
    } else if player == game.player_o {
        if game.current_turn != MARK_O {
            return Err(ErrorCode::NotYourTurn);
        }
        MARK_O
    } else {
        return Err(ErrorCode::NotAPlayer);
    };
    let ghost g = game@;
    game.board[pos] = mark;
    assert(game.board@ =~= g.board.update(pos as int, mark));
    if check_winner(&game.board, mark) {
        game.status = if mark == MARK_X {
            GameStatus::XWins
        } else {
            GameStatus::OWins
        };
    } else if is_board_full(&game.board) {
        game.status = GameStatus::Tie;
    } else {
        game.current_turn = if game.current_turn == MARK_X {
            MARK_O
        } else {
            MARK_X
        };
    }
    Ok(())
}

/// Reclaims the record of a game that is not being played. Anyone may close
/// it; while the game is active it is refused with `GameStillActive`.
pub fn close_game(record: &mut Option<Game>, _player: Identity) -> (r: Result<(), ErrorCode>)
    requires
        old(record).is_some(),
    ensures
        old(record).unwrap().status == GameStatus::Active ==> r == Err::<(), ErrorCode>(ErrorCode::GameStillActive) && *final(record) == *old(record),
        old(record).unwrap().status != GameStatus::Active ==> r is Ok && final(record).is_none(),
{
    match record {
        Some(game) => {
            if game.status == GameStatus::Active {
                return Err(ErrorCode::GameStillActive);
            }
        },
        None => {},
    }
    *record = None;
    Ok(())
}

} // verus!
