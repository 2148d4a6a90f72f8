//! The playback engine: a command-driven state machine over the playlist.
//!
//! The engine owns the logical "now playing" state.  It performs no audio
//! output itself: every operation returns an [`AudioAction`] that tells the
//! caller what to do with the shared audio output handle.  This keeps the
//! decisions verifiable while the output device, the decoder and the timers
//! stay outside the library.

use vstd::prelude::*;

use crate::track::{Song, SongModel};

verus! {

/// The three states of the playback state machine.
#[derive(Clone, Copy, PartialEq, Eq, Structural, Debug)]
pub enum PlayerState {
    Playing,
    Paused,
    Stopped,
}

/// A command issued by the user interface, or by the completion watcher
/// when a track runs out and looping is off.
#[derive(Debug, PartialEq)]
pub enum PlayerCommand {
    Play,
    Pause,
    Stop,
    Next,
    Previous,
    ToggleLoop { enabled: bool },
    LoadSongs(Vec<Song>),
    Select { u: i32 },
}

/// What the caller must do to the audio output after an engine operation.
#[derive(Debug)]
pub enum AudioAction {
    /// Nothing: the operation was rejected or touched no output.
    Stay,
    /// Resume the paused output in place, without re-opening any file.
    Resume,
    /// Pause the output in place.
    PauseOutput,
    /// Stop the output and discard whatever source it still holds.
    StopOutput,
    /// Stop the output, then open, decode and start this track, notify the
    /// user interface of its duration, and arm a new completion watcher.
    Start { song: Song },
}

/// Mathematical view of an [`AudioAction`].
pub enum ActionModel {
    Stay,
    Resume,
    PauseOutput,
    StopOutput,
    Start { song: SongModel },
}

impl View for AudioAction {
    type V = ActionModel;

    open spec fn view(&self) -> ActionModel {
        match self {
            AudioAction::Stay => ActionModel::Stay,
            AudioAction::Resume => ActionModel::Resume,
            AudioAction::PauseOutput => ActionModel::PauseOutput,
            AudioAction::StopOutput => ActionModel::StopOutput,
            AudioAction::Start { song } => ActionModel::Start { song: song@ },
        }
    }
}

/// What the completion watcher must do once the current source runs dry.
#[derive(Clone, Copy, PartialEq, Eq, Structural, Debug)]
pub enum CompletionAction {
    /// Looping is on: re-open and replay the captured track on the same
    /// output; no new watcher is armed by this branch.
    Replay,
    /// Looping is off: hand an advance command back to the dispatcher.
    EmitNext,
}

/// Mathematical view of a [`PlayerCommand`].
pub enum CommandModel {
    Play,
    Pause,
    Stop,
    Next,
    Previous,
    ToggleLoop { enabled: bool },
    LoadSongs(Seq<SongModel>),
    Select { u: int },
}

impl View for PlayerCommand {
    type V = CommandModel;

    open spec fn view(&self) -> CommandModel {
        match self {
            PlayerCommand::Play => CommandModel::Play,
            PlayerCommand::Pause => CommandModel::Pause,
            PlayerCommand::Stop => CommandModel::Stop,
            PlayerCommand::Next => CommandModel::Next,
            PlayerCommand::Previous => CommandModel::Previous,
            PlayerCommand::ToggleLoop { enabled } => CommandModel::ToggleLoop {
                enabled: *enabled,
            },
            PlayerCommand::LoadSongs(songs) => CommandModel::LoadSongs(
                songs@.map_values(|s: Song| s@),
            ),
            PlayerCommand::Select { u } => CommandModel::Select { u: *u as int },
        }
    }
}

/// Mathematical view of the engine's instance state.
pub struct PlayerModel {
    pub playlist: Seq<SongModel>,
    pub current_index: int,
    pub loop_enabled: bool,
    pub state: PlayerState,
}

/// The playback engine.  All fields are plain values; the audio output
/// handle itself lives with the caller, which applies the returned actions
/// under its own exclusive lock.
pub struct MusicPlayer {
    pub songs: Vec<Song>,
    pub current_index: usize,
    pub loop_enabled: bool,
    pub state: PlayerState,
}

impl View for MusicPlayer {
    type V = PlayerModel;

    open spec fn view(&self) -> PlayerModel {
        PlayerModel {
            playlist: self.songs@.map_values(|s: Song| s@),
            current_index: self.current_index as int,
            loop_enabled: self.loop_enabled,
            state: self.state,
        }
    }
}

/// Index of the track after `i` in a playlist of length `n`, wrapping at
/// the end.
pub open spec fn next_index(i: int, n: int) -> int {
    (i + 1) % n
}

/// Index of the track before `i`, wrapping to the last track at zero.
pub open spec fn prev_index(i: int, n: int) -> int {
    if i == 0 {
        n - 1
    } else {
        i - 1
    }
}

/// State after `play()`: resuming keeps everything but the state; starting
/// a track needs a current index inside the playlist, otherwise the call
/// is a no-op.
pub open spec fn play_state(p: PlayerModel) -> PlayerModel {
    if p.state is Paused {
        PlayerModel { state: PlayerState::Playing, ..p }
    } else if 0 <= p.current_index < p.playlist.len() {
        PlayerModel { state: PlayerState::Playing, ..p }
    } else {
        p
    }
}

/// Action of `play()`: resume in place when paused; otherwise start the
/// current track, or do nothing when the playlist gives no current track.
pub open spec fn play_action(p: PlayerModel) -> ActionModel {
    if p.state is Paused {
        ActionModel::Resume
    } else if 0 <= p.current_index < p.playlist.len() {
        ActionModel::Start { song: p.playlist[p.current_index] }
    } else {
        ActionModel::Stay
    }
}

/// State after `pause()`.
pub open spec fn pause_state(p: PlayerModel) -> PlayerModel {
    PlayerModel { state: PlayerState::Paused, ..p }
}

/// State after `stop()`.
pub open spec fn stop_state(p: PlayerModel) -> PlayerModel {
    PlayerModel { state: PlayerState::Stopped, ..p }
}

/// State after `next()`: advance with wrap-around, then behave as `play()`.
/// An empty playlist makes the whole call a no-op.
pub open spec fn next_state(p: PlayerModel) -> PlayerModel {
    if p.playlist.len() == 0 {
        p
    } else {
        play_state(
            PlayerModel {
                current_index: next_index(p.current_index, p.playlist.len() as int),
                ..p
            },
        )
    }
}

/// Action of `next()`.
pub open spec fn next_action(p: PlayerModel) -> ActionModel {
    if p.playlist.len() == 0 {
        ActionModel::Stay
    } else {
        play_action(
            PlayerModel {
                current_index: next_index(p.current_index, p.playlist.len() as int),
                ..p
            },
        )
    }
}

/// State after `previous()`: step back with wrap-around, then behave as
/// `play()`.  An empty playlist makes the whole call a no-op.
pub open spec fn prev_state(p: PlayerModel) -> PlayerModel {
    if p.playlist.len() == 0 {
        p
    } else {
        play_state(
            PlayerModel {
                current_index: prev_index(p.current_index, p.playlist.len() as int),
                ..p
            },
        )
    }
}

/// Action of `previous()`.
pub open spec fn prev_action(p: PlayerModel) -> ActionModel {
    if p.playlist.len() == 0 {
        ActionModel::Stay
    } else {
        play_action(
            PlayerModel {
                current_index: prev_index(p.current_index, p.playlist.len() as int),
                ..p
            },
        )
    }
}

/// State after `select(u)`: an index outside the playlist is rejected and
/// changes nothing.
pub open spec fn select_state(p: PlayerModel, u: int) -> PlayerModel {
    if 0 <= u < p.playlist.len() {
        play_state(PlayerModel { current_index: u, ..p })
    } else {
        p
    }
}

/// Action of `select(u)`.
pub open spec fn select_action(p: PlayerModel, u: int) -> ActionModel {
    if 0 <= u < p.playlist.len() {
        play_action(PlayerModel { current_index: u, ..p })
    } else {
        ActionModel::Stay
    }
}

/// State after `toggle_loop(enabled)`: an absolute set of the flag.
pub open spec fn toggle_loop_state(p: PlayerModel, enabled: bool) -> PlayerModel {
    PlayerModel { loop_enabled: enabled, ..p }
}

/// State after `load(tracks)`: the playlist is replaced wholesale; the
/// current index and the playback state are left alone.
pub open spec fn load_state(p: PlayerModel, tracks: Seq<SongModel>) -> PlayerModel {
    PlayerModel { playlist: tracks, ..p }
}

/// Decision of the completion watcher: replay in place when looping,
/// otherwise hand an advance command back to the dispatcher.
pub open spec fn completion_action(p: PlayerModel) -> CompletionAction {
    if p.loop_enabled {
        CompletionAction::Replay
    } else {
        CompletionAction::EmitNext
    }
}

/// State after the dispatcher applies one command.
pub open spec fn apply_state(p: PlayerModel, c: CommandModel) -> PlayerModel {
    match c {
        CommandModel::Play => play_state(p),
        CommandModel::Pause => pause_state(p),
        CommandModel::Stop => stop_state(p),
        CommandModel::Next => next_state(p),
        CommandModel::Previous => prev_state(p),
        CommandModel::ToggleLoop { enabled } => toggle_loop_state(p, enabled),
        CommandModel::LoadSongs(tracks) => load_state(p, tracks),
        CommandModel::Select { u } => select_state(p, u),
    }
}

/// Action the dispatcher must perform after applying one command.
pub open spec fn apply_action(p: PlayerModel, c: CommandModel) -> ActionModel {
    match c {
        CommandModel::Play => play_action(p),
        CommandModel::Pause => ActionModel::PauseOutput,
        CommandModel::Stop => ActionModel::StopOutput,
        CommandModel::Next => next_action(p),
        CommandModel::Previous => prev_action(p),
        CommandModel::ToggleLoop { enabled: _ } => ActionModel::Stay,
        CommandModel::LoadSongs(_) => ActionModel::Stay,
        CommandModel::Select { u } => select_action(p, u),
    }
}

impl MusicPlayer {
    /// A fresh session: empty playlist, first index, looping off, stopped.
    pub fn new() -> (p: MusicPlayer)
        ensures
            p@.playlist.len() == 0,
            p@.current_index == 0,
            p@.loop_enabled == false,
            p@.state is Stopped,
    {
        MusicPlayer {
            songs: Vec::new(),
            current_index: 0,
            loop_enabled: false,
            state: PlayerState::Stopped,
        }
    }

    /// Resume in place when paused; otherwise start the current track.  An
    /// empty playlist, or a current index left dangling by a shorter
    /// playlist, is reported as `Stay` and changes nothing.
    pub fn play(&mut self) -> (a: AudioAction)
        ensures
            final(self)@ == play_state(old(self)@),
            a@ == play_action(old(self)@),
    {
        match self.state {
            PlayerState::Paused => {
                self.state = PlayerState::Playing;
                AudioAction::Resume
            },
            _ => {
                if self.current_index < self.songs.len() {
                    let song = self.songs[self.current_index].clone();
                    self.state = PlayerState::Playing;
                    AudioAction::Start { song }
                } else {
                    AudioAction::Stay
                }
            },
        }
    }

    /// Pause the output in place.
    pub fn pause(&mut self) -> (a: AudioAction)
        ensures
            final(self)@ == pause_state(old(self)@),
            a@ == ActionModel::PauseOutput,
    {
        self.state = PlayerState::Paused;
        AudioAction::PauseOutput
    }

    /// Stop the output.
    pub fn stop(&mut self) -> (a: AudioAction)
        ensures
            final(self)@ == stop_state(old(self)@),
            a@ == ActionModel::StopOutput,
    {
        self.state = PlayerState::Stopped;
        AudioAction::StopOutput
    }

    /// Advance to the next track, wrapping at the end, then play.
    pub fn next(&mut self) -> (a: AudioAction)
        ensures
            final(self)@ == next_state(old(self)@),
            a@ == next_action(old(self)@),
    {
        let n = self.songs.len();
        if n == 0 {
            return AudioAction::Stay;
        }
        let ghost ci: int = self.current_index as int;
        self.current_index = (self.current_index % n + 1) % n;
        proof {
            vstd::arithmetic::div_mod::lemma_add_mod_noop(ci, 1, n as int);
            if n > 1 {
                vstd::arithmetic::div_mod::lemma_small_mod(1, n as nat);
            } else {
                assert((ci % 1 + 1) % 1 == 0) by (nonlinear_arith);
                assert((ci + 1) % 1 == 0) by (nonlinear_arith);
            }
        }
        self.play()
    }

    /// Step back to the previous track, wrapping to the last at zero, then
    /// play.
    pub fn previous(&mut self) -> (a: AudioAction)
        ensures
            final(self)@ == prev_state(old(self)@),
            a@ == prev_action(old(self)@),
    {
        let n = self.songs.len();
        if n == 0 {
            return AudioAction::Stay;
        }
        if self.current_index == 0 {
            self.current_index = n - 1;
        } else {
            self.current_index = self.current_index - 1;
        }
        self.play()
    }

    /// Jump to a caller-chosen index, then play.  An index outside the
    /// playlist is rejected and changes nothing.
    pub fn select(&mut self, u: i32) -> (a: AudioAction)
        ensures
            final(self)@ == select_state(old(self)@, u as int),
            a@ == select_action(old(self)@, u as int),
    {
        if u >= 0 && (u as usize) < self.songs.len() {
            self.current_index = u as usize;
            self.play()
        } else {
            AudioAction::Stay
        }
    }

    /// Set the loop flag to the given value (an absolute set, despite the
    /// name).
    pub fn toggle_loop(&mut self, enabled: bool)
        ensures
            final(self)@ == toggle_loop_state(old(self)@, enabled),
    {
        self.loop_enabled = enabled;
    }

    /// Replace the playlist wholesale.  The current index and the playback
    /// state are deliberately left alone.
    pub fn load(&mut self, tracks: Vec<Song>)
        ensures
            final(self)@ == load_state(old(self)@, tracks@.map_values(|s: Song| s@)),
    {
        self.songs = tracks;
    }

    /// The completion watcher's decision once the current source runs dry.
    pub fn handle_completion(&self) -> (c: CompletionAction)
        ensures
            c == completion_action(self@),
    {
        if self.loop_enabled {
            CompletionAction::Replay
        } else {
            CompletionAction::EmitNext
        }
    }

    /// Apply one command, exactly as the serializing dispatcher does.
    pub fn apply(&mut self, cmd: PlayerCommand) -> (a: AudioAction)
        ensures
            final(self)@ == apply_state(old(self)@, cmd@),
            a@ == apply_action(old(self)@, cmd@),
    {
        match cmd {
            PlayerCommand::Play => self.play(),
            PlayerCommand::Pause => self.pause(),
            PlayerCommand::Stop => self.stop(),
            PlayerCommand::Next => self.next(),
            PlayerCommand::Previous => self.previous(),
            PlayerCommand::ToggleLoop { enabled } => {
                self.toggle_loop(enabled);
                AudioAction::Stay
            },
            PlayerCommand::LoadSongs(tracks) => {
                self.load(tracks);
                AudioAction::Stay
            },
            PlayerCommand::Select { u } => self.select(u),
        }
    }
}

} // verus!
