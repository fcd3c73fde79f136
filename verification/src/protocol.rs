//! A model of the watcher's lifecycle under an asynchronous interrupt.
//!
//! The watcher has two execution contexts: the watch loop, and a shutdown
//! handler the host may run on another thread the instant the interrupt
//! arrives — possibly while a clipboard read is in flight. Both contexts go
//! through one mutual-exclusion lock around the shared clipboard handle.
//!
//! [`Model`] is one instant of that system; [`enabled`] and [`apply`] give
//! its transition relation, [`run`] folds a sequence of events. The proofs
//! below establish the lifecycle laws: startup leaves the register clear, a
//! terminated run always ends with an empty register whatever the
//! interleaving, and a failed launch changes nothing the loop acts on.
//!
//! The model covers the two contexts of the process itself; a copy arriving
//! from the host is an event of its own, possible while the watcher runs but
//! not once shutdown has begun.

use crate::monitor::should_launch;
use crate::policy::Policy;
use vstd::prelude::*;

verus! {

/// Process-level lifecycle phase.
pub enum Phase {
    /// The watch loop polls; no interrupt has arrived.
    Running,
    /// The interrupt arrived; the handler is on its way to clearing and
    /// exiting, while the loop may still finish an in-flight poll.
    ShuttingDown,
    /// The process has exited.
    Terminated,
}

/// Who holds the lock guarding the shared clipboard handle.
pub enum Holder {
    Nobody,
    WatchLoop,
    Handler,
}

/// One instant of the whole system.
pub struct Model {
    /// The process's lifecycle phase.
    pub phase: Phase,
    /// The clipboard lock's holder.
    pub lock: Holder,
    /// The text in the host clipboard register; empty means cleared.
    pub clipboard: Seq<char>,
    /// The loop's last accepted text.
    pub last_seen: Seq<char>,
    /// The validation policy, fixed at startup.
    pub policy: Policy,
    /// Whether the shutdown handler has already cleared the register.
    pub shutdown_cleared: bool,
}

/// What can happen, one atomic step at a time.
pub enum Event {
    /// The host puts new text into the clipboard register (a user copy).
    HostCopy { text: Seq<char> },
    /// The loop takes the lock to read the register.
    BeginRead,
    /// The loop reads the register, releases the lock, and decides: a new,
    /// valid, non-empty text is recorded and launched; anything else idles.
    EndRead,
    /// A submitted launch finished starting — or failed to. Fire-and-forget:
    /// the loop never waits on it.
    LaunchDone { ok: bool },
    /// The interrupt signal arrives. It needs no lock: it may land while a
    /// read is in progress.
    Interrupt,
    /// The shutdown handler acquires the lock (it must wait for an in-flight
    /// read to release it first).
    HandlerAcquire,
    /// The shutdown handler clears the register under the lock.
    HandlerClear,
    /// The shutdown handler terminates the process, still holding the lock.
    Exit,
}

/// Whether the poll completing in state `m` decides to launch.
pub open spec fn poll_decides_launch(m: Model) -> bool {
    should_launch(m.policy, m.last_seen, m.clipboard)
}

/// Whether `ev` can happen in state `pre`.
pub open spec fn enabled(pre: Model, ev: Event) -> bool {
    match ev {
        Event::HostCopy { text } => pre.phase is Running,
        Event::BeginRead => !(pre.phase is Terminated) && pre.lock is Nobody,
        Event::EndRead => pre.lock is WatchLoop,
        Event::LaunchDone { ok } => pre.phase is Running,
        Event::Interrupt => pre.phase is Running,
        Event::HandlerAcquire => pre.phase is ShuttingDown && pre.lock is Nobody,
        Event::HandlerClear => pre.lock is Handler,
        Event::Exit => pre.lock is Handler && pre.shutdown_cleared,
    }
}

/// The state after `ev` happens in `pre`.
pub open spec fn apply(pre: Model, ev: Event) -> Model {
    match ev {
        Event::HostCopy { text } => (Model { clipboard: text, ..pre }),
        Event::BeginRead => (Model { lock: Holder::WatchLoop, ..pre }),
        Event::EndRead => (Model {
            lock: Holder::Nobody,
            last_seen: if poll_decides_launch(pre) {
                pre.clipboard
            } else {
                pre.last_seen
            },
            ..pre
        }),
        Event::LaunchDone { ok } => pre,
        Event::Interrupt => (Model { phase: Phase::ShuttingDown, ..pre }),
        Event::HandlerAcquire => (Model { lock: Holder::Handler, ..pre }),
        Event::HandlerClear => (Model { clipboard: Seq::empty(), shutdown_cleared: true, ..pre }),
        Event::Exit => (Model { phase: Phase::Terminated, ..pre }),
    }
}

/// The state at the instant initialization finishes: whatever text the
/// register held before startup, it has been cleared once under the lock,
/// nothing is locked any more, and nothing has been accepted yet.
pub open spec fn boot(pre_start_clipboard: Seq<char>, policy: Policy) -> Model {
    Model {
        phase: Phase::Running,
        lock: Holder::Nobody,
        clipboard: Seq::empty(),
        last_seen: Seq::empty(),
        policy,
        shutdown_cleared: false,
    }
}

/// Whether every event of `events` is enabled in turn, starting from `m0`.
pub open spec fn valid_run(m0: Model, events: Seq<Event>) -> bool
    decreases events.len(),
{
    events.len() == 0 || (enabled(m0, events[0]) && valid_run(apply(m0, events[0]), events.skip(1)))
}

/// The state after the events of `events` happen in turn, starting from `m0`.
pub open spec fn run(m0: Model, events: Seq<Event>) -> Model
    decreases events.len(),
{
    if events.len() == 0 {
        m0
    } else {
        run(apply(m0, events[0]), events.skip(1))
    }
}

/// The inductive invariant behind the shutdown law: once the handler has
/// cleared, the register stays empty and the loop can no longer be in plain
/// running state; and the process only ever exits after the clear.
pub open spec fn inv(m: Model) -> bool {
    &&& m.shutdown_cleared ==> m.clipboard.len() == 0
    &&& m.shutdown_cleared ==> !(m.phase is Running)
    &&& m.lock is Handler ==> !(m.phase is Running)
    &&& m.phase is Terminated ==> m.shutdown_cleared
}

/// Every enabled event preserves the invariant.
pub proof fn inv_step(pre: Model, ev: Event)
    requires
        inv(pre),
        enabled(pre, ev),
    ensures
        inv(apply(pre, ev)),
{
}

/// The invariant holds along every valid run.
pub proof fn inv_run(m0: Model, events: Seq<Event>)
    requires
        inv(m0),
        valid_run(m0, events),
    ensures
        inv(run(m0, events)),
    decreases events.len(),
{
    if events.len() > 0 {
        inv_step(m0, events[0]);
        inv_run(apply(m0, events[0]), events.skip(1));
    }
}

/// Startup clearing: after initialization and before the first poll, the
/// register is empty whatever it held before startup — so the first poll can
/// only see genuinely new content or emptiness, never stale text, and by
/// itself decides no launch.
pub proof fn startup_clears(pre_start_clipboard: Seq<char>, policy: Policy)
    ensures
        boot(pre_start_clipboard, policy).clipboard.len() == 0,
        boot(pre_start_clipboard, policy).last_seen.len() == 0,
        !poll_decides_launch(boot(pre_start_clipboard, policy)),
        inv(boot(pre_start_clipboard, policy)),
{
}

/// Shutdown clears under concurrency: however the interrupt interleaves with
/// the loop — including arriving while a read holds the lock — every run from
/// a booted state that reaches termination leaves the register empty. No
/// interleaving leaves stale text behind.
pub proof fn shutdown_leaves_register_empty(
    pre_start_clipboard: Seq<char>,
    policy: Policy,
    events: Seq<Event>,
)
    requires
        valid_run(boot(pre_start_clipboard, policy), events),
        run(boot(pre_start_clipboard, policy), events).phase is Terminated,
    ensures
        run(boot(pre_start_clipboard, policy), events).clipboard.len() == 0,
{
    inv_run(boot(pre_start_clipboard, policy), events);
}

/// Prepending an enabled event to a valid run gives a valid run.
pub proof fn valid_run_cons(m0: Model, ev: Event, rest: Seq<Event>)
    requires
        enabled(m0, ev),
        valid_run(apply(m0, ev), rest),
    ensures
        valid_run(m0, seq![ev] + rest),
        run(m0, seq![ev] + rest) == run(apply(m0, ev), rest),
{
    let e = seq![ev] + rest;
    assert(e[0] == ev);
    assert(e.skip(1) =~= rest);
}

/// Fire-and-forget: a launch outcome — failure included — is always possible
/// to absorb while running, and changes nothing: not the loop's state, not
/// the register, not the phase.
pub proof fn launch_outcome_is_no_op(pre: Model, ok: bool)
    requires
        pre.phase is Running,
    ensures
        enabled(pre, Event::LaunchDone { ok }),
        apply(pre, Event::LaunchDone { ok }) == pre,
{
}

/// A launch failure does not stop polling: after absorbing the failure, a
/// later host copy of a new valid URL is read and the completing poll again
/// decides to launch.
pub proof fn later_url_still_launches(pre: Model, text: Seq<char>)
    requires
        pre.phase is Running,
        pre.lock is Nobody,
        should_launch(pre.policy, pre.last_seen, text),
    ensures
        ({
            let events = seq![
                Event::LaunchDone { ok: false },
                Event::HostCopy { text },
                Event::BeginRead,
            ];
            valid_run(pre, events) && poll_decides_launch(run(pre, events)) && enabled(
                run(pre, events),
                Event::EndRead,
            )
        }),
{
    let m1 = apply(pre, Event::LaunchDone { ok: false });
    let m2 = apply(m1, Event::HostCopy { text });
    valid_run_cons(m2, Event::BeginRead, Seq::empty());
    assert(seq![Event::BeginRead] + Seq::<Event>::empty() =~= seq![Event::BeginRead]);
    valid_run_cons(m1, Event::HostCopy { text }, seq![Event::BeginRead]);
    assert(
        seq![Event::HostCopy { text }] + seq![Event::BeginRead] =~= seq![
            Event::HostCopy { text },
            Event::BeginRead,
        ]
    );
    valid_run_cons(
        pre,
        Event::LaunchDone { ok: false },
        seq![Event::HostCopy { text }, Event::BeginRead]
    );
    assert(
        seq![Event::LaunchDone { ok: false }] + seq![Event::HostCopy { text }, Event::BeginRead]
            =~= seq![Event::LaunchDone { ok: false }, Event::HostCopy { text }, Event::BeginRead]
    );
}

/// The canonical racing interleaving is a valid run: the interrupt lands
/// while a read is in progress, the handler waits for the lock, clears, and
/// exits; the final register is empty.
pub proof fn interrupt_mid_read_run(pre_start_clipboard: Seq<char>, policy: Policy)
    ensures
        ({
            let events = seq![
                Event::BeginRead,
                Event::Interrupt,
                Event::EndRead,
                Event::HandlerAcquire,
                Event::HandlerClear,
                Event::Exit,
            ];
            let m0 = boot(pre_start_clipboard, policy);
            valid_run(m0, events) && run(m0, events).phase is Terminated && run(
                m0,
                events,
            ).clipboard.len() == 0
        }),
{
    let m0 = boot(pre_start_clipboard, policy);
    let m1 = apply(m0, Event::BeginRead);
    let m2 = apply(m1, Event::Interrupt);
    let m3 = apply(m2, Event::EndRead);
    let m4 = apply(m3, Event::HandlerAcquire);
    let m5 = apply(m4, Event::HandlerClear);
    valid_run_cons(m5, Event::Exit, Seq::empty());
    assert(seq![Event::Exit] + Seq::<Event>::empty() =~= seq![Event::Exit]);
    valid_run_cons(m4, Event::HandlerClear, seq![Event::Exit]);
    assert(
        seq![Event::HandlerClear] + seq![Event::Exit] =~= seq![Event::HandlerClear, Event::Exit]
    );
    valid_run_cons(m3, Event::HandlerAcquire, seq![Event::HandlerClear, Event::Exit]);
    assert(
        seq![Event::HandlerAcquire] + seq![Event::HandlerClear, Event::Exit] =~= seq![
            Event::HandlerAcquire,
            Event::HandlerClear,
            Event::Exit,
        ]
    );
    valid_run_cons(
        m2,
        Event::EndRead,
        seq![Event::HandlerAcquire, Event::HandlerClear, Event::Exit]
    );
    assert(
        seq![Event::EndRead] + seq![Event::HandlerAcquire, Event::HandlerClear, Event::Exit]
            =~= seq![
            Event::EndRead,
            Event::HandlerAcquire,
            Event::HandlerClear,
            Event::Exit,
        ]
    );
    valid_run_cons(
        m1,
        Event::Interrupt,
        seq![Event::EndRead, Event::HandlerAcquire, Event::HandlerClear, Event::Exit]
    );
    assert(
        seq![Event::Interrupt] + seq![
            Event::EndRead,
            Event::HandlerAcquire,
            Event::HandlerClear,
            Event::Exit,
        ] =~= seq![
            Event::Interrupt,
            Event::EndRead,
            Event::HandlerAcquire,
            Event::HandlerClear,
            Event::Exit,
        ]
    );
    valid_run_cons(
        m0,
        Event::BeginRead,
        seq![
            Event::Interrupt,
            Event::EndRead,
            Event::HandlerAcquire,
            Event::HandlerClear,
            Event::Exit,
        ]
    );
    assert(
        seq![Event::BeginRead] + seq![
            Event::Interrupt,
            Event::EndRead,
            Event::HandlerAcquire,
            Event::HandlerClear,
            Event::Exit,
        ] =~= seq![
            Event::BeginRead,
            Event::Interrupt,
            Event::EndRead,
            Event::HandlerAcquire,
            Event::HandlerClear,
            Event::Exit,
        ]
    );
}

} // verus!
