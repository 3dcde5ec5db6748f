use vstd::prelude::*;

verus! {

/// A cell that nobody has marked.
pub const EMPTY: u8 = 0;

/// The mark of the first player (X).
pub const MARK_X: u8 = 1;

/// The mark of the second player (O).
pub const MARK_O: u8 = 2;

/// Whether cells `a`, `b` and `c` of `board` all hold `mark`.
pub open spec fn line_held(board: Seq<u8>, mark: u8, a: int, b: int, c: int) -> bool {
    board[a] == mark && board[b] == mark && board[c] == mark
}

/// Whether `mark` holds one of the eight winning lines: three rows, three
/// columns and two diagonals.
pub open spec fn wins(board: Seq<u8>, mark: u8) -> bool {
    line_held(board, mark, 0, 1, 2) || line_held(board, mark, 3, 4, 5)
        || line_held(board, mark, 6, 7, 8) || line_held(board, mark, 0, 3, 6)
        || line_held(board, mark, 1, 4, 7) || line_held(board, mark, 2, 5, 8)
        || line_held(board, mark, 0, 4, 8) || line_held(board, mark, 2, 4, 6)
}

/// Whether no cell of `board` is empty.
pub open spec fn full(board: Seq<u8>) -> bool {
    forall|i: int| 0 <= i < board.len() ==> board[i] != EMPTY
}

fn line_marked(board: &[u8; 9], mark: u8, a: usize, b: usize, c: usize) -> (r: bool)
    requires
        a < 9,
        b < 9,
        c < 9,
    ensures
        r == line_held(board@, mark, a as int, b as int, c as int),
{
    board[a] == mark && board[b] == mark && board[c] == mark
}

/// Whether `mark` has completed a row, a column or a diagonal of `board`.
pub fn check_winner(board: &[u8; 9], mark: u8) -> (r: bool)
    ensures
        r == wins(board@, mark),
{
    line_marked(board, mark, 0, 1, 2) || line_marked(board, mark, 3, 4, 5)
        || line_marked(board, mark, 6, 7, 8) || line_marked(board, mark, 0, 3, 6)
        || line_marked(board, mark, 1, 4, 7) || line_marked(board, mark, 2, 5, 8)
        || line_marked(board, mark, 0, 4, 8) || line_marked(board, mark, 2, 4, 6)
}

/// Whether every cell of `board` holds a mark.
pub fn is_board_full(board: &[u8; 9]) -> (r: bool)
    ensures
        r == full(board@),
{
    let mut i: usize = 0;
    while i < 9
        invariant
            0 <= i <= 9,
            forall|j: int| 0 <= j < i ==> board@[j] != EMPTY,
        decreases 9 - i,
    {
        if board[i] == EMPTY {
            return false;
        }
        i = i + 1;
    }
    true
}

} // verus!
