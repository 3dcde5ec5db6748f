use vstd::prelude::*;

use crate::board::EMPTY;
use crate::game::{
    fresh_game, is_terminal, join_error, joined, move_error, moved, GameStatus, GameView,
};

verus! {

/// An operation on an existing record, as the caller's identity and arguments.
pub ghost enum Action {
    Join { player: Seq<u8> },
    Move { player: Seq<u8>, position: u8 },
}

/// The record after `a`: what `join_game` or `make_move` leaves, refused or not.
pub open spec fn step(g: GameView, a: Action) -> GameView {
    match a {
        Action::Join { player } => if join_error(g, player) is None {
            joined(g, player)
        } else {
            g
        },
        Action::Move { player, position } => if move_error(g, player, position) is None {
            moved(g, player, position)
        } else {
            g
        },
    }
}

/// The record after the operations of `actions`, in order.
pub open spec fn run(g: GameView, actions: Seq<Action>) -> GameView
    decreases actions.len(),
{
    if actions.len() == 0 {
        g
    } else {
        run(step(g, actions[0]), actions.drop_first())
    }
}

/// How far a game has come: waiting, playing, over.
pub open spec fn stage(s: GameStatus) -> int {
    match s {
        GameStatus::WaitingForPlayer => 0,
        GameStatus::Active => 1,
        _ => 2,
    }
}

/// Whether every cell marked in `before` holds the same mark in `after`.
pub open spec fn marks_kept(before: Seq<u8>, after: Seq<u8>) -> bool {
    forall|i: int| 0 <= i < 9 && before[i] != EMPTY ==> #[trigger] after[i] == before[i]
}

/// A freshly created record is well formed.
pub proof fn lemma_fresh_game_wf(player: Seq<u8>, bump: u8)
    requires
        player.len() == 32,
    ensures
        fresh_game(player, bump).wf(),
{
}

/// Every operation keeps a record well formed (a joiner being, like every
/// identity, 32 bytes); in particular, once the game has left
/// `WaitingForPlayer`, O and X are different identities.
pub proof fn lemma_step_wf(g: GameView, a: Action)
    requires
        g.wf(),
        a is Join ==> a->Join_player.len() == 32,
    ensures
        step(g, a).wf(),
{
    match a {
        Action::Join { player } => {},
        Action::Move { player, position } => {
            if move_error(g, player, position) is None {
                let n = moved(g, player, position);
                assert forall|i: int| 0 <= i < 9 implies #[trigger] n.board[i] <= 2 by {
                    if i != position as int {
                        assert(n.board[i] == g.board[i]);
                    }
                }
            }
        },
    }
}

/// A mark, once written, is never erased or overwritten by an operation.
pub proof fn lemma_step_keeps_marks(g: GameView, a: Action)
    requires
        g.wf(),
    ensures
        marks_kept(g.board, step(g, a).board),
{
}

/// Each operation either leaves the status as it was, or starts a waiting game,
/// or ends an active one; a finished game never changes again.
pub proof fn lemma_step_follows_table(g: GameView, a: Action)
    ensures
        step(g, a).status == g.status
            || (g.status == GameStatus::WaitingForPlayer && step(g, a).status == GameStatus::Active)
            || (g.status == GameStatus::Active && is_terminal(step(g, a).status)),
        is_terminal(g.status) ==> step(g, a) == g,
{
}

/// Over any sequence of operations from a well-formed record: the record stays
/// well formed, every mark stays where it was written, and the game never moves
/// back to an earlier stage; a finished game stays exactly as it is.
pub proof fn lemma_run(g: GameView, actions: Seq<Action>)
    requires
        g.wf(),
        forall|k: int| 0 <= k < actions.len() && #[trigger] actions[k] is Join
            ==> actions[k]->Join_player.len() == 32,
    ensures
        run(g, actions).wf(),
        marks_kept(g.board, run(g, actions).board),
        stage(g.status) <= stage(run(g, actions).status),
        is_terminal(g.status) ==> run(g, actions) == g,
    decreases actions.len(),
{
    if actions.len() > 0 {
        let a = actions[0];
        let rest = actions.drop_first();
        lemma_step_wf(g, a);
        lemma_step_keeps_marks(g, a);
        lemma_step_follows_table(g, a);
        assert forall|k: int| 0 <= k < rest.len() && #[trigger] rest[k] is Join
            implies rest[k]->Join_player.len() == 32 by {
            assert(rest[k] == actions[k + 1]);
        }
        lemma_run(step(g, a), rest);
    }
}

} // verus!
