//! The session controller: the protocol state machine that turns frames
//! read from the dial into audio-routing directives.
//!
//! The controller owns a single authoritative run-state and never buffers
//! more than one frame: each frame read from the stream is handed to
//! [`Controller::handle_frame`] exactly once, and the directives returned
//! are issued to the audio collaborator by the surrounding process.

use vstd::prelude::*;
use crate::audio::Channel;
use crate::frame::CHATMIX;
use crate::frame::Frame;
use crate::frame::HEADSET_POWER;
use crate::frame::POWER_OFF;
use crate::frame::POWER_ON;

verus! {

/// The controller's run-state.  `Waiting` is the initial state before the
/// first audio-configure; after that the session cycles between `Running`
/// (routing configured, dial live) and `Paused` (headset powered off,
/// routing torn down).  There is no terminal state: the session ends only
/// when the device stream breaks, which sends the caller back to discovery.
#[derive(Clone, Copy, PartialEq, Eq, Structural, Debug)]
pub enum SessionState {
    Waiting,
    Running,
    Paused,
}

/// One directive the controller issues in response to a frame.  The
/// surrounding process translates each into calls on the external audio
/// collaborator.
#[derive(Clone, Copy, PartialEq, Eq, Structural, Debug)]
pub enum Directive {
    /// Set one channel's sink volume to the given percent value.  The byte
    /// comes verbatim from the frame: values above 100 are passed through
    /// unmodified, by design, and are the collaborator's concern.
    SetVolume { channel: Channel, percent: u8 },
    /// Make the "Game" virtual sink the system default output.
    SetDefaultToGame,
    /// Run the teardown sequence: remove routes, destroy both sinks.
    Teardown,
    /// Run the audio-configure composite: teardown, discover the default
    /// output, create sinks, loop them back, switch the default to "Game".
    Configure,
}

/// The state the controller is in after handling one frame in the given
/// state: a chat-mix frame keeps `Running`; a power-off sub-state pauses a
/// running session; a power-on sub-state resumes a paused one; every other
/// frame — unknown opcodes, unknown power sub-states, frames in the wrong
/// state — changes nothing.
pub open spec fn next_state_spec(s: SessionState, f: Frame) -> SessionState {
    match s {
        SessionState::Waiting => SessionState::Waiting,
        SessionState::Running => if f.opcode == HEADSET_POWER && f.field_a == POWER_OFF {
            SessionState::Paused
        } else {
            SessionState::Running
        },
        SessionState::Paused => if f.opcode == HEADSET_POWER && f.field_a == POWER_ON {
            SessionState::Running
        } else {
            SessionState::Paused
        },
    }
}

/// The directives issued for one frame in the given state, in order.  A
/// chat-mix frame while running sets each channel's volume once, verbatim,
/// and re-asserts "Game" as the default output; power-off while running
/// tears down; power-on while paused re-configures; everything else issues
/// nothing.
pub open spec fn directives_spec(s: SessionState, f: Frame) -> Seq<Directive> {
    match s {
        SessionState::Waiting => Seq::<Directive>::empty(),
        SessionState::Running => if f.opcode == CHATMIX {
            seq![
                (Directive::SetVolume { channel: Channel::Game, percent: f.field_a }),
                (Directive::SetVolume { channel: Channel::Chat, percent: f.field_b }),
                Directive::SetDefaultToGame,
            ]
        } else if f.opcode == HEADSET_POWER && f.field_a == POWER_OFF {
            seq![Directive::Teardown]
        } else {
            Seq::<Directive>::empty()
        },
        SessionState::Paused => if f.opcode == HEADSET_POWER && f.field_a == POWER_ON {
            seq![Directive::Configure]
        } else {
            Seq::<Directive>::empty()
        },
    }
}

/// The session controller.  Exactly one instance drives a session; its
/// state is the single authoritative record of whether routing is
/// currently configured.
pub struct Controller {
    pub state: SessionState,
}

impl Controller {
    /// A fresh controller, before any audio state has been touched.
    pub fn new() -> (c: Controller)
        ensures
            c.state == SessionState::Waiting,
    {
        Controller { state: SessionState::Waiting }
    }

    /// Entry into the session: issues the initial audio-configure and moves
    /// to `Running`.  Called once, before the first frame is read.
    pub fn start(&mut self) -> (ds: Vec<Directive>)
        requires
            old(self).state == SessionState::Waiting,
        ensures
            final(self).state == SessionState::Running,
            ds@ == seq![Directive::Configure],
    {
        self.state = SessionState::Running;
        let ds: Vec<Directive> = vec![Directive::Configure];
        proof {
            assert(ds@ =~= seq![Directive::Configure]);
        }
        ds
    }

    /// Consumes one frame: moves to the successor state and returns the
    /// directives to issue, exactly as the transition table states them.
    pub fn handle_frame(&mut self, f: Frame) -> (ds: Vec<Directive>)
        ensures
            final(self).state == next_state_spec(old(self).state, f),
            ds@ == directives_spec(old(self).state, f),
    {
        match self.state {
            SessionState::Waiting => Vec::new(),
            SessionState::Running => {
                if f.opcode == CHATMIX {
                    let ds: Vec<Directive> = vec![
                        Directive::SetVolume { channel: Channel::Game, percent: f.field_a },
                        Directive::SetVolume { channel: Channel::Chat, percent: f.field_b },
                        Directive::SetDefaultToGame,
                    ];
                    proof {
                        assert(ds@ =~= directives_spec(old(self).state, f));
                    }
                    ds
                } else if f.opcode == HEADSET_POWER && f.field_a == POWER_OFF {
                    self.state = SessionState::Paused;
                    let ds: Vec<Directive> = vec![Directive::Teardown];
                    proof {
                        assert(ds@ =~= directives_spec(old(self).state, f));
                    }
                    ds
                } else {
                    Vec::new()
                }
            },
            SessionState::Paused => {
                if f.opcode == HEADSET_POWER && f.field_a == POWER_ON {
                    self.state = SessionState::Running;
                    let ds: Vec<Directive> = vec![Directive::Configure];
                    proof {
                        assert(ds@ =~= directives_spec(old(self).state, f));
                    }
                    ds
                } else {
                    Vec::new()
                }
            },
        }
    }

    /// The current run-state, for callers outside the crate.
    pub fn current_state(&self) -> (s: SessionState)
        ensures
            s == self.state,
    {
        self.state
    }
}

/// Law: a chat-mix frame handled while running issues exactly one
/// volume-set per channel, with the byte values taken verbatim from the
/// frame's payload fields, and does not change the state.
pub proof fn lemma_chatmix_running(f: Frame)
    requires
        f.opcode == CHATMIX,
    ensures
        next_state_spec(SessionState::Running, f) == SessionState::Running,
        directives_spec(SessionState::Running, f) == seq![
            (Directive::SetVolume { channel: Channel::Game, percent: f.field_a }),
            (Directive::SetVolume { channel: Channel::Chat, percent: f.field_b }),
            Directive::SetDefaultToGame,
        ],
{
}

/// Law: a power-off frame while running pauses the session and issues
/// exactly one teardown; the same frame while already paused issues no
/// further teardown and changes nothing.
pub proof fn lemma_power_off(f: Frame)
    requires
        f.opcode == HEADSET_POWER,
        f.field_a == POWER_OFF,
    ensures
        next_state_spec(SessionState::Running, f) == SessionState::Paused,
        directives_spec(SessionState::Running, f) == seq![Directive::Teardown],
        next_state_spec(SessionState::Paused, f) == SessionState::Paused,
        directives_spec(SessionState::Paused, f) == Seq::<Directive>::empty(),
{
}

/// Law: a power-on frame while paused resumes the session and issues
/// exactly one configure; the same frame while already running issues no
/// further configure and changes nothing.
pub proof fn lemma_power_on(f: Frame)
    requires
        f.opcode == HEADSET_POWER,
        f.field_a == POWER_ON,
    ensures
        next_state_spec(SessionState::Paused, f) == SessionState::Running,
        directives_spec(SessionState::Paused, f) == seq![Directive::Configure],
        next_state_spec(SessionState::Running, f) == SessionState::Running,
        directives_spec(SessionState::Running, f) == Seq::<Directive>::empty(),
{
}

/// Law: a frame with an unrecognised opcode is silently ignored in every
/// state — no directive, no state change.
pub proof fn lemma_unknown_opcode_ignored(s: SessionState, f: Frame)
    requires
        f.opcode != CHATMIX,
        f.opcode != HEADSET_POWER,
    ensures
        next_state_spec(s, f) == s,
        directives_spec(s, f) == Seq::<Directive>::empty(),
{
}

} // verus!
