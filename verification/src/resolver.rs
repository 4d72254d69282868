//! The Action Resolver: converts the protocol's fire-and-forget control
//! calls into synchronous results. After a mutating call is issued, the
//! resolver waits at least one tick, then polls the single-unit fetch until
//! the unit's `active` state is terminal (does not end in "ing"); actions
//! that pass through no transient state are re-fetched exactly once.

use vstd::prelude::*;
use crate::service::{Service, is_transient_active};

verus! {

/// One mutating call against a single unit.
#[derive(Clone, Copy, PartialEq, Eq, Structural)]
pub enum UnitCommand {
    Start,
    Stop,
    Restart,
    Enable,
    Disable,
    Mask,
    Unmask,
}

/// Start, stop and restart pass through a transient "ing" state and must be
/// polled to a terminal state; the others only need one refetch.
pub open spec fn needs_poll(c: UnitCommand) -> bool {
    match c {
        UnitCommand::Start => true,
        UnitCommand::Stop => true,
        UnitCommand::Restart => true,
        UnitCommand::Enable => false,
        UnitCommand::Disable => false,
        UnitCommand::Mask => false,
        UnitCommand::Unmask => false,
    }
}

pub fn command_needs_poll(c: UnitCommand) -> (r: bool)
    ensures
        r == needs_poll(c),
{
    match c {
        UnitCommand::Start | UnitCommand::Stop | UnitCommand::Restart => true,
        _ => false,
    }
}

/// A unit whose persisted state is masked is unmasked by the toggle, and
/// masked otherwise.
pub fn mask_toggle_command(file: &str) -> (r: UnitCommand)
    ensures
        r == (if file@ == "masked"@ || file@ == "masked-runtime"@ {
            UnitCommand::Unmask
        } else {
            UnitCommand::Mask
        }),
{
    if crate::text::str_eq(file, "masked") || crate::text::str_eq(file, "masked-runtime") {
        UnitCommand::Unmask
    } else {
        UnitCommand::Mask
    }
}

/// What the driving task must do next.
#[derive(Clone, Copy, PartialEq, Eq, Structural)]
pub enum ResolverStep {
    /// Sleep one fixed interval, then report the tick.
    Wait,
    /// Fetch the unit's current fields, then report them.
    Fetch,
    /// The action is resolved; take the result.
    Done,
}

/// The resolution of one issued action, driven step by step: the action call
/// itself has already been issued (any immediate protocol error was
/// propagated by the caller); this machine decides when the returned
/// `Service` is current.
pub struct ActionResolver {
    pub command: UnitCommand,
    pub waited: bool,
    pub fetches: u64,
    pub result: Option<Service>,
}

impl ActionResolver {
    /// The machine's invariant: a result exists only after at least one wait
    /// tick and one fetch, and — for polled commands — only once the fetched
    /// state is terminal.
    pub open spec fn wf(self) -> bool {
        match self.result {
            Option::None => true,
            Option::Some(s) => {
                &&& self.waited
                &&& self.fetches >= 1
                &&& (needs_poll(self.command) ==> !is_transient_active(s@.state.active))
            },
        }
    }

    pub fn new(command: UnitCommand) -> (r: ActionResolver)
        ensures
            r.command == command,
            !r.waited,
            r.fetches == 0,
            r.result is None,
            r.wf(),
    {
        ActionResolver { command, waited: false, fetches: 0, result: None }
    }

    /// No fetch happens before at least one wait tick, so the pre-transition
    /// state is never read.
    pub fn next_step(&self) -> (s: ResolverStep)
        ensures
            s == (if !self.waited {
                ResolverStep::Wait
            } else if self.result is None {
                ResolverStep::Fetch
            } else {
                ResolverStep::Done
            }),
    {
        if !self.waited {
            ResolverStep::Wait
        } else if self.result.is_none() {
            ResolverStep::Fetch
        } else {
            ResolverStep::Done
        }
    }

    /// One wait tick has passed.
    pub fn on_waited(&mut self)
        requires
            old(self).wf(),
        ensures
            *final(self) == (ActionResolver { waited: true, ..*old(self) }),
            final(self).wf(),
    {
        self.waited = true;
    }

    /// A fetch returned the unit's current fields. For a polled command a
    /// transient state keeps the machine fetching; a terminal state resolves
    /// it. A command that needs no polling resolves on its single refetch.
    pub fn on_fetched(&mut self, s: Service)
        requires
            old(self).wf(),
            old(self).waited,
            old(self).result is None,
            old(self).fetches < u64::MAX,
        ensures
            final(self).command == old(self).command,
            final(self).waited,
            final(self).fetches == old(self).fetches + 1,
            final(self).result == (if needs_poll(old(self).command) && is_transient_active(
                s@.state.active,
            ) {
                Option::<Service>::None
            } else {
                Option::Some(s)
            }),
            final(self).wf(),
    {
        self.fetches = self.fetches + 1;
        if command_needs_poll(self.command) && s.state().is_transient() {
            // still in transition: the next step is another fetch
        } else {
            self.result = Some(s);
        }
    }
}

/// Resolution replayed over a recorded sequence of poll results: the first
/// terminal observation resolves the action, and the count of fetch cycles
/// spent is returned with it. `None` means every observation was transient
/// and the poll is still running.
pub fn resolve_polls(polls: &Vec<Service>) -> (r: Option<(Service, usize)>)
    ensures
        match r {
            Option::Some(p) => {
                &&& 1 <= p.1 <= polls@.len()
                &&& p.0 == polls@[p.1 - 1]
                &&& !is_transient_active(polls@[p.1 - 1]@.state.active)
                &&& forall|t: int|
                    0 <= t < p.1 - 1 ==> is_transient_active((#[trigger] polls@[t])@.state.active)
            },
            Option::None => forall|t: int|
                0 <= t < polls@.len() ==> is_transient_active(
                    (#[trigger] polls@[t])@.state.active,
                ),
        },
{
    let n = polls.len();
    let mut i: usize = 0;
    while i < n
        invariant
            0 <= i <= n,
            n == polls@.len(),
            forall|t: int|
                0 <= t < i ==> is_transient_active((#[trigger] polls@[t])@.state.active),
        decreases n - i,
    {
        if !polls[i].state().is_transient() {
            return Some((polls[i].clone(), i + 1));
        }
        i = i + 1;
    }
    None
}

} // verus!
