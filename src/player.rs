//! Transport control for previewing a single clip: the decisions only; the
//! audio sink that carries them out stays with the caller.
use vstd::prelude::*;

verus! {

/// Where the preview player is; the number is a playback position.
#[derive(Clone, Copy, Debug, PartialEq, Eq, Structural)]
pub enum PlayerState {
    Stopped,
    Playing(u32),
    Paused(u32),
}

/// A transport request from the user.
#[derive(Clone, Copy, Debug, PartialEq, Eq, Structural)]
pub enum PlayerAction {
    Stop,
    Play,
    Pause,
}

/// An operation the player asks of its audio sink.
#[derive(Clone, Copy, Debug, PartialEq, Eq, Structural)]
pub enum SinkCommand {
    Pause,
    Clear,
    Play,
}

/// The sink operations an action needs, in order.
pub open spec fn sink_commands(action: PlayerAction) -> Seq<SinkCommand> {
    match action {
        PlayerAction::Stop => seq![SinkCommand::Pause, SinkCommand::Clear],
        PlayerAction::Play => seq![SinkCommand::Play],
        PlayerAction::Pause => Seq::empty(),
    }
}

/// The state an action leads to: stopping stops; playing resumes the sink
/// and leaves the recorded state as it was.
pub open spec fn next_state(state: PlayerState, action: PlayerAction) -> PlayerState {
    match action {
        PlayerAction::Stop => PlayerState::Stopped,
        _ => state,
    }
}

/// The preview player's transport state.
pub struct Player {
    state: PlayerState,
}

impl Player {
    /// A stopped player; its sink starts paused.
    pub fn new() -> (p: Player)
        ensures
            p.spec_state() == PlayerState::Stopped,
    {
        Player { state: PlayerState::Stopped }
    }

    pub closed spec fn spec_state(&self) -> PlayerState {
        self.state
    }

    pub fn state(&self) -> (r: PlayerState)
        ensures
            r == self.spec_state(),
    {
        self.state
    }

    /// Takes an action; returns what the sink must do for it, in order.
    /// Pausing is not supported.
    pub fn handle_action(&mut self, action: PlayerAction) -> (r: Vec<SinkCommand>)
        requires
            action != PlayerAction::Pause,
        ensures
            r@ == sink_commands(action),
            final(self).spec_state() == next_state(old(self).spec_state(), action),
    {
        match action {
            PlayerAction::Stop => {
                self.state = PlayerState::Stopped;
                let r = vec![SinkCommand::Pause, SinkCommand::Clear];
                assert(r@ =~= sink_commands(action));
                r
            },
            _ => {
                let r = vec![SinkCommand::Play];
                assert(r@ =~= sink_commands(action));
                r
            },
        }
    }
}

} // verus!
