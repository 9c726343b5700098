//! The audio-routing operations the service issues, and a model of their
//! effect on the audio collaborator's global state.
//!
//! The collaborator itself (the audio server and its control tool) is
//! external: the surrounding process turns each `AudioOp` into one command
//! invocation.  This module fixes *which* operations are issued and in what
//! order, and proves the self-healing properties the design depends on: the
//! two virtual sinks and their routes are global system state that a prior
//! crashed run may have left behind, so teardown must be idempotent and
//! configure must reach the fully-routed state from any starting state.

use vstd::prelude::*;

verus! {

/// One of the two fixed logical audio channels the dial balances.
#[derive(Clone, Copy, PartialEq, Eq, Structural, Debug)]
pub enum Channel {
    Game,
    Chat,
}

/// One operation issued to the external audio collaborator.  Each variant is
/// one command invocation; `destination` is the collaborator's numeric
/// identifier of the real output that a virtual sink's monitor is looped
/// into.
#[derive(Clone, Copy, PartialEq, Eq, Structural, Debug)]
pub enum AudioOp {
    /// Remove all loopback routes; a no-op if none exist.
    DestroyLoopbacks,
    /// Destroy one virtual sink; the collaborator reports a non-fatal
    /// "not found" if it is absent, which callers treat as completion.
    DestroySink { channel: Channel },
    /// Create one virtual sink.  Not idempotent by itself: creating a sink
    /// that already exists yields a duplicate, the known failure mode.
    CreateSink { channel: Channel },
    /// Route one virtual sink's monitor into the given real output.  The
    /// sink must exist first.
    CreateLoopback { channel: Channel, destination: u32 },
    /// Make one channel's virtual sink the system default output.
    SetDefault { channel: Channel },
}

/// A model of the collaborator state these operations touch: which virtual
/// sinks exist, which loopback routes exist, and whether the default output
/// currently points at the "Game" sink.
#[derive(Clone, Copy, PartialEq, Eq, Structural, Debug)]
pub struct AudioState {
    pub game_sink: bool,
    pub chat_sink: bool,
    pub game_route: bool,
    pub chat_route: bool,
    pub default_is_game: bool,
}

/// The fully-routed state that audio-configure is meant to reach: both
/// sinks exist, both are looped back, and "Game" is the default output.
pub open spec fn configured_state() -> AudioState {
    AudioState {
        game_sink: true,
        chat_sink: true,
        game_route: true,
        chat_route: true,
        default_is_game: true,
    }
}

pub open spec fn has_sink(s: AudioState, c: Channel) -> bool {
    match c {
        Channel::Game => s.game_sink,
        Channel::Chat => s.chat_sink,
    }
}

/// Whether one operation completes without an error outcome when issued
/// against the given state.  Destroying routes or sinks tolerates absence;
/// creating a sink that already exists duplicates it, which counts as an
/// error outcome; routing a sink requires that the sink exists.
pub open spec fn op_ok(s: AudioState, op: AudioOp) -> bool {
    match op {
        AudioOp::DestroyLoopbacks => true,
        AudioOp::DestroySink { channel } => true,
        AudioOp::CreateSink { channel } => !has_sink(s, channel),
        AudioOp::CreateLoopback { channel, destination } => has_sink(s, channel),
        AudioOp::SetDefault { channel } => true,
    }
}

/// The effect of one operation on the modelled state.
pub open spec fn apply_op(s: AudioState, op: AudioOp) -> AudioState {
    match op {
        AudioOp::DestroyLoopbacks => AudioState { game_route: false, chat_route: false, ..s },
        AudioOp::DestroySink { channel } => match channel {
            Channel::Game => AudioState { game_sink: false, ..s },
            Channel::Chat => AudioState { chat_sink: false, ..s },
        },
        AudioOp::CreateSink { channel } => match channel {
            Channel::Game => AudioState { game_sink: true, ..s },
            Channel::Chat => AudioState { chat_sink: true, ..s },
        },
        AudioOp::CreateLoopback { channel, destination } => match channel {
            Channel::Game => AudioState { game_route: true, ..s },
            Channel::Chat => AudioState { chat_route: true, ..s },
        },
        AudioOp::SetDefault { channel } => match channel {
            Channel::Game => AudioState { default_is_game: true, ..s },
            Channel::Chat => AudioState { default_is_game: false, ..s },
        },
    }
}

/// The state after a whole plan of operations, issued left to right.
pub open spec fn apply_plan(s: AudioState, ops: Seq<AudioOp>) -> AudioState
    decreases ops.len(),
{
    if ops.len() == 0 {
        s
    } else {
        apply_op(apply_plan(s, ops.drop_last()), ops.last())
    }
}

/// Whether every operation of a plan completes without an error outcome,
/// each against the state the operations before it left behind.
pub open spec fn plan_ok(s: AudioState, ops: Seq<AudioOp>) -> bool
    decreases ops.len(),
{
    if ops.len() == 0 {
        true
    } else {
        plan_ok(s, ops.drop_last()) && op_ok(apply_plan(s, ops.drop_last()), ops.last())
    }
}

/// The teardown sequence: remove the loopback routes, then destroy both
/// virtual sinks.
pub open spec fn teardown_plan_spec() -> Seq<AudioOp> {
    seq![
        AudioOp::DestroyLoopbacks,
        (AudioOp::DestroySink { channel: Channel::Game }),
        (AudioOp::DestroySink { channel: Channel::Chat }),
    ]
}

/// The part of audio-configure that follows teardown and the discovery of
/// the current default output `destination`: create both virtual sinks,
/// loop each back into `destination`, then make "Game" the default.
pub open spec fn routing_plan_spec(destination: u32) -> Seq<AudioOp> {
    seq![
        (AudioOp::CreateSink { channel: Channel::Game }),
        (AudioOp::CreateSink { channel: Channel::Chat }),
        (AudioOp::CreateLoopback { channel: Channel::Game, destination }),
        (AudioOp::CreateLoopback { channel: Channel::Chat, destination }),
        (AudioOp::SetDefault { channel: Channel::Game }),
    ]
}

/// The whole audio-configure composite, once the default output is known:
/// teardown first, then sinks, routes and the default switch.
pub open spec fn configure_plan_spec(destination: u32) -> Seq<AudioOp> {
    teardown_plan_spec() + routing_plan_spec(destination)
}

/// Builds the teardown sequence.
pub fn teardown_plan() -> (ops: Vec<AudioOp>)
    ensures
        ops@ == teardown_plan_spec(),
{
    let ops: Vec<AudioOp> = vec![
        AudioOp::DestroyLoopbacks,
        AudioOp::DestroySink { channel: Channel::Game },
        AudioOp::DestroySink { channel: Channel::Chat },
    ];
    proof {
        assert(ops@ =~= teardown_plan_spec());
    }
    ops
}

/// Builds the post-teardown part of audio-configure for a discovered
/// default output.
pub fn routing_plan(destination: u32) -> (ops: Vec<AudioOp>)
    ensures
        ops@ == routing_plan_spec(destination),
{
    let ops: Vec<AudioOp> = vec![
        AudioOp::CreateSink { channel: Channel::Game },
        AudioOp::CreateSink { channel: Channel::Chat },
        AudioOp::CreateLoopback { channel: Channel::Game, destination },
        AudioOp::CreateLoopback { channel: Channel::Chat, destination },
        AudioOp::SetDefault { channel: Channel::Game },
    ];
    proof {
        assert(ops@ =~= routing_plan_spec(destination));
    }
    ops
}

/// Runs a plan against the modelled state: the state it leaves behind, and
/// whether every operation completed without an error outcome.
pub fn apply_plan_model(start: AudioState, ops: &Vec<AudioOp>) -> (r: (AudioState, bool))
    ensures
        r.0 == apply_plan(start, ops@),
        r.1 == plan_ok(start, ops@),
{
    let mut cur: AudioState = start;
    let mut all_ok: bool = true;
    let mut i: usize = 0;
    while i < ops.len()
        invariant
            i <= ops.len(),
            cur == apply_plan(start, ops@.take(i as int)),
            all_ok == plan_ok(start, ops@.take(i as int)),
        decreases ops.len() - i,
    {
        let op = ops[i];
        proof {
            assert(ops@.take(i + 1).drop_last() =~= ops@.take(i as int));
            assert(ops@.take(i + 1).last() == op);
        }
        all_ok = all_ok && op_ok_exec(cur, op);
        cur = apply_op_exec(cur, op);
        i = i + 1;
    }
    proof {
        assert(ops@.take(ops@.len() as int) =~= ops@);
    }
    (cur, all_ok)
}

/// Whether one operation completes cleanly against the modelled state.
pub fn op_ok_exec(s: AudioState, op: AudioOp) -> (r: bool)
    ensures
        r == op_ok(s, op),
{
    match op {
        AudioOp::DestroyLoopbacks => true,
        AudioOp::DestroySink { channel: _ } => true,
        AudioOp::CreateSink { channel } => match channel {
            Channel::Game => !s.game_sink,
            Channel::Chat => !s.chat_sink,
        },
        AudioOp::CreateLoopback { channel, destination: _ } => match channel {
            Channel::Game => s.game_sink,
            Channel::Chat => s.chat_sink,
        },
        AudioOp::SetDefault { channel: _ } => true,
    }
}

/// The effect of one operation on the modelled state.
pub fn apply_op_exec(s: AudioState, op: AudioOp) -> (r: AudioState)
    ensures
        r == apply_op(s, op),
{
    match op {
        AudioOp::DestroyLoopbacks => AudioState { game_route: false, chat_route: false, ..s },
        AudioOp::DestroySink { channel } => match channel {
            Channel::Game => AudioState { game_sink: false, ..s },
            Channel::Chat => AudioState { chat_sink: false, ..s },
        },
        AudioOp::CreateSink { channel } => match channel {
            Channel::Game => AudioState { game_sink: true, ..s },
            Channel::Chat => AudioState { chat_sink: true, ..s },
        },
        AudioOp::CreateLoopback { channel, destination: _ } => match channel {
            Channel::Game => AudioState { game_route: true, ..s },
            Channel::Chat => AudioState { chat_route: true, ..s },
        },
        AudioOp::SetDefault { channel } => match channel {
            Channel::Game => AudioState { default_is_game: true, ..s },
            Channel::Chat => AudioState { default_is_game: false, ..s },
        },
    }
}

/// The state teardown always reaches: no routes and no sinks, everything
/// else untouched.
pub open spec fn torn_down(s: AudioState) -> AudioState {
    AudioState { game_sink: false, chat_sink: false, game_route: false, chat_route: false, ..s }
}

/// Law: teardown reaches the torn-down state from any starting state, and
/// every one of its operations completes without an error outcome — absence
/// of a route or a sink is tolerated, never an error.
pub proof fn lemma_teardown_total(s: AudioState)
    ensures
        apply_plan(s, teardown_plan_spec()) == torn_down(s),
        plan_ok(s, teardown_plan_spec()),
{
    reveal_with_fuel(apply_plan, 4);
    reveal_with_fuel(plan_ok, 4);
    let p = teardown_plan_spec();
    assert(p.drop_last() =~= seq![
        AudioOp::DestroyLoopbacks,
        (AudioOp::DestroySink { channel: Channel::Game }),
    ]);
    assert(p.drop_last().drop_last() =~= seq![AudioOp::DestroyLoopbacks]);
    assert(p.drop_last().drop_last().drop_last() =~= Seq::<AudioOp>::empty());
}

/// Law: invoking teardown twice in a row — as after a crash and restart —
/// is indistinguishable from invoking it once: the second run completes
/// just as cleanly and leaves the very same state.
pub proof fn lemma_teardown_idempotent(s: AudioState)
    ensures
        apply_plan(apply_plan(s, teardown_plan_spec()), teardown_plan_spec()) == apply_plan(
            s,
            teardown_plan_spec(),
        ),
        plan_ok(s, teardown_plan_spec()),
        plan_ok(apply_plan(s, teardown_plan_spec()), teardown_plan_spec()),
{
    lemma_teardown_total(s);
    lemma_teardown_total(apply_plan(s, teardown_plan_spec()));
}

/// How a plan split in two behaves: running the concatenation equals
/// running the first part and then the second, both for the reached state
/// and for clean completion.
proof fn lemma_apply_plan_concat(s: AudioState, a: Seq<AudioOp>, b: Seq<AudioOp>)
    ensures
        apply_plan(s, a + b) == apply_plan(apply_plan(s, a), b),
        plan_ok(s, a + b) == (plan_ok(s, a) && plan_ok(apply_plan(s, a), b)),
    decreases b.len(),
{
    if b.len() == 0 {
        assert((a + b) =~= a);
    } else {
        lemma_apply_plan_concat(s, a, b.drop_last());
        assert((a + b).drop_last() =~= a + b.drop_last());
        assert((a + b).last() == b.last());
    }
}

/// Law: the audio-configure composite is safe to run whatever state a prior
/// run — even one that crashed mid-configure — left behind: from any
/// starting state every operation completes without an error outcome, and
/// the fully-routed state is reached.
pub proof fn lemma_configure_self_healing(s: AudioState, destination: u32)
    ensures
        apply_plan(s, configure_plan_spec(destination)) == configured_state(),
        plan_ok(s, configure_plan_spec(destination)),
{
    reveal_with_fuel(apply_plan, 6);
    reveal_with_fuel(plan_ok, 6);
    lemma_teardown_total(s);
    lemma_apply_plan_concat(s, teardown_plan_spec(), routing_plan_spec(destination));
    let t = torn_down(s);
    let r = routing_plan_spec(destination);
    assert(r.drop_last() =~= seq![
        (AudioOp::CreateSink { channel: Channel::Game }),
        (AudioOp::CreateSink { channel: Channel::Chat }),
        (AudioOp::CreateLoopback { channel: Channel::Game, destination }),
        (AudioOp::CreateLoopback { channel: Channel::Chat, destination }),
    ]);
    assert(r.drop_last().drop_last() =~= seq![
        (AudioOp::CreateSink { channel: Channel::Game }),
        (AudioOp::CreateSink { channel: Channel::Chat }),
        (AudioOp::CreateLoopback { channel: Channel::Game, destination }),
    ]);
    assert(r.drop_last().drop_last().drop_last() =~= seq![
        (AudioOp::CreateSink { channel: Channel::Game }),
        (AudioOp::CreateSink { channel: Channel::Chat }),
    ]);
    assert(r.drop_last().drop_last().drop_last().drop_last() =~= seq![
        (AudioOp::CreateSink { channel: Channel::Game }),
    ]);
    assert(r.drop_last().drop_last().drop_last().drop_last().drop_last() =~= Seq::<
        AudioOp,
    >::empty());
    assert(apply_plan(t, r) == configured_state());
    assert(plan_ok(t, r));
}

/// Whether the collaborator's answer to the default-output query is usable
/// yet: an empty answer means the audio server is still initialising and
/// the query must be retried after a delay.
pub fn default_output_ready(answer: &[u8]) -> (r: bool)
    ensures
        r <==> answer@.len() > 0,
{
    answer.len() > 0
}

/// Whether the destroy loop for one virtual sink is finished.  The destroy
/// tool's exit status does not reflect the not-found condition, so the
/// signal is the diagnostic: a run that printed an error diagnostic found
/// no sink left to destroy and the loop is done, while a silent run
/// destroyed a live sink (possibly one of several duplicates) and must be
/// repeated.
pub fn destroy_loop_done(diagnostic_len: usize) -> (r: bool)
    ensures
        r <==> diagnostic_len > 0,
{
    diagnostic_len > 0
}

} // verus!
