//! Laws of the playback engine and the command queue, proved once and for
//! all over the models that the operations' contracts use.

use vstd::prelude::*;

use crate::command::{
    apply_action, apply_state, completion_action, next_state, play_action, play_state,
    pause_state, prev_state, select_action, select_state, toggle_loop_state, ActionModel,
    CommandModel, CompletionAction, PlayerModel, PlayerState,
};
use crate::queue::CommandQueue;
use vstd::arithmetic::div_mod::{
    lemma_add_mod_noop, lemma_mod_bound, lemma_mod_self_0, lemma_small_mod,
};

verus! {

/// The engine state after `next()` has been applied `k` times.
pub open spec fn iter_next(p: PlayerModel, k: nat) -> PlayerModel
    decreases k,
{
    if k == 0 {
        p
    } else {
        next_state(iter_next(p, (k - 1) as nat))
    }
}

proof fn lemma_iter_next_index(p: PlayerModel, k: nat)
    requires
        p.playlist.len() > 0,
        0 <= p.current_index < p.playlist.len(),
    ensures
        iter_next(p, k).playlist == p.playlist,
        iter_next(p, k).current_index == (p.current_index + k) % (p.playlist.len() as int),
    decreases k,
{
    let n = p.playlist.len() as int;
    if k == 0 {
        lemma_small_mod(p.current_index as nat, n as nat);
    } else {
        let q = iter_next(p, (k - 1) as nat);
        lemma_iter_next_index(p, (k - 1) as nat);
        lemma_add_mod_noop(p.current_index + k - 1, 1, n);
        if n > 1 {
            lemma_small_mod(1, n as nat);
        } else {
            let a = p.current_index + k - 1;
            assert((a % 1 + 1) % 1 == 0) by (nonlinear_arith);
            assert((a + 1) % 1 == 0) by (nonlinear_arith);
        }
    }
}

/// Law: on a non-empty playlist with a valid current index, applying
/// `next()` as many times as the playlist is long returns the current
/// index to its starting value, and leaves the playlist itself alone.
pub proof fn lemma_next_full_cycle(p: PlayerModel)
    requires
        p.playlist.len() > 0,
        0 <= p.current_index < p.playlist.len(),
    ensures
        iter_next(p, p.playlist.len()).current_index == p.current_index,
        iter_next(p, p.playlist.len()).playlist == p.playlist,
{
    let n = p.playlist.len() as int;
    lemma_iter_next_index(p, p.playlist.len());
    lemma_add_mod_noop(p.current_index, n, n);
    lemma_mod_self_0(n);
    lemma_small_mod(p.current_index as nat, n as nat);
}

/// How `next()` moves a valid index: one step forward, or back to the
/// first track from the last one.
proof fn lemma_next_index_value(i: int, n: int)
    requires
        0 <= i < n,
    ensures
        crate::command::next_index(i, n) == if i == n - 1 {
            0int
        } else {
            i + 1
        },
{
    if i == n - 1 {
        lemma_mod_self_0(n);
    } else {
        lemma_small_mod((i + 1) as nat, n as nat);
    }
}

/// Law: `previous()` at index zero wraps to the last track.
pub proof fn lemma_previous_wraps_to_end(p: PlayerModel)
    requires
        p.playlist.len() > 0,
        p.current_index == 0,
    ensures
        prev_state(p).current_index == p.playlist.len() - 1,
{
}

/// Law: under a fixed playlist and a valid current index, `previous()`
/// undoes `next()`, and `next()` undoes `previous()`.
pub proof fn lemma_previous_inverts_next(p: PlayerModel)
    requires
        p.playlist.len() > 0,
        0 <= p.current_index < p.playlist.len(),
    ensures
        prev_state(next_state(p)).current_index == p.current_index,
        next_state(prev_state(p)).current_index == p.current_index,
{
    let n = p.playlist.len() as int;
    let i = p.current_index;
    lemma_next_index_value(i, n);
    if i == 0 {
        lemma_next_index_value(n - 1, n);
    } else {
        lemma_next_index_value(i - 1, n);
    }
}

/// Law: `pause()` followed by `play()` resumes in place.  The action is
/// `Resume`, never `Start`, so no file is re-opened, and the playlist, the
/// current index and the loop flag are all unchanged.
pub proof fn lemma_pause_then_play_resumes(p: PlayerModel)
    ensures
        play_action(pause_state(p)) is Resume,
        play_state(pause_state(p)) == (PlayerModel { state: PlayerState::Playing, ..p }),
{
}

/// Law: with looping switched on after a track started, the completion
/// watcher decides to replay, and the track it captured at start is still
/// the current one — the same descriptor, hence the same path.
pub proof fn lemma_loop_replays_same_track(p: PlayerModel)
    requires
        !(p.state is Paused),
        0 <= p.current_index < p.playlist.len(),
    ensures
        play_action(p) matches ActionModel::Start { song } && ({
            let q = toggle_loop_state(play_state(p), true);
            &&& completion_action(q) == CompletionAction::Replay
            &&& q.current_index == p.current_index
            &&& q.playlist[q.current_index] == song
        }),
{
}

/// Law: with looping off, the completion watcher hands back an advance
/// command, and applying it moves the current index forward by exactly
/// one, modulo the playlist length, and starts the track found there.
pub proof fn lemma_completion_advances(p: PlayerModel)
    requires
        p.state is Playing,
        !p.loop_enabled,
        0 <= p.current_index < p.playlist.len(),
    ensures
        completion_action(p) == CompletionAction::EmitNext,
        apply_state(p, CommandModel::Next).current_index == (p.current_index + 1) % (
        p.playlist.len() as int),
        apply_action(p, CommandModel::Next) matches ActionModel::Start { song } && song
            == p.playlist[(p.current_index + 1) % (p.playlist.len() as int)],
{
    let n = p.playlist.len() as int;
    lemma_mod_bound(p.current_index + 1, n);
}

/// Law: selecting an index outside the playlist changes nothing and asks
/// nothing of the audio output.
pub proof fn lemma_select_out_of_range(p: PlayerModel, u: int)
    requires
        !(0 <= u < p.playlist.len()),
    ensures
        select_state(p, u) == p,
        select_action(p, u) == ActionModel::Stay,
{
}

/// Law: the queue never holds more commands than its capacity.  With the
/// minimum capacity of one, at most one command waits beside the one in
/// flight, so at most the two most recent commands are ever honored; and
/// since `try_send` appends at the back and `recv` takes from the front,
/// accepted commands are never reordered.
pub proof fn lemma_pending_bounded(q: CommandQueue)
    requires
        q.wf(),
    ensures
        q.items@.len() <= q.capacity,
{
}

} // verus!
