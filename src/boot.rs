//! The whole boot run as one state machine: provisioning, then installation,
//! then the handoff. A failure in either of the first two leads straight to
//! the handoff, which cleans up and starts the real init if there is one.
use vstd::prelude::*;
use crate::action::{Action, ActionView, Outcome};
use crate::classify::BootContext;
use crate::handoff::Handoff;
use crate::install::{Install, lemma_install_rank_decreases};
use crate::provision::{BinDirectory, Provision, Strategy, lemma_rank_decreases};

verus! {

/// Where a boot run stands.
#[derive(Debug)]
pub enum Boot {
    Provisioning(Provision),
    Installing { bin: Strategy, state: Install },
    HandingOff(Handoff),
}

/// The boot state once provisioning reached `p`.
pub open spec fn after_provision(p: Provision) -> Boot {
    match p {
        Provision::Provisioned(st) => Boot::Installing { bin: st, state: Install::ExportingFirstStage },
        Provision::Failed => Boot::HandingOff(Handoff::RemovingScratch(0)),
        _ => Boot::Provisioning(p),
    }
}

/// The boot state once installation into a directory made by `st` reached `s`.
pub open spec fn after_install(st: Strategy, s: Install) -> Boot {
    if s.is_terminal() {
        Boot::HandingOff(Handoff::RemovingScratch(0))
    } else {
        Boot::Installing { bin: st, state: s }
    }
}

/// The most actions a boot run issues before its exec or abort.
pub const MAX_BOOT_STEPS: usize = 53;

impl Boot {
    pub open spec fn initial(ctx: BootContext) -> Boot {
        Boot::Provisioning(Provision::initial(ctx))
    }

    /// The run has issued its exec or its abort.
    pub open spec fn is_ending(&self) -> bool {
        self matches Boot::HandingOff(h) && h.is_ending()
    }

    pub open spec fn next(self, ctx: BootContext, o: Outcome) -> Boot {
        match self {
            Boot::Provisioning(p) => after_provision(p.next(ctx, o)),
            Boot::Installing { bin, state } => after_install(bin, state.next(ctx, bin, o)),
            Boot::HandingOff(h) => Boot::HandingOff(h.next(ctx, o)),
        }
    }

    pub open spec fn action_of(&self, ctx: BootContext) -> Option<ActionView> {
        match self {
            Boot::Provisioning(p) => p.action_of(),
            Boot::Installing { bin, state } => state.action_of(ctx, *bin),
            Boot::HandingOff(h) => h.action_of(),
        }
    }

    pub open spec fn rank(&self) -> nat {
        match self {
            Boot::Provisioning(p) => p.rank() + 41,
            Boot::Installing { state, .. } => state.rank() + 8,
            Boot::HandingOff(h) => h.rank(),
        }
    }

    /// The state a boot run begins in.
    pub fn start(ctx: &BootContext) -> (r: Boot)
        ensures
            r == Boot::initial(*ctx),
    {
        Boot::Provisioning(Provision::start(ctx))
    }

    /// Whether the run has issued its exec or its abort.
    pub fn is_done(&self) -> (r: bool)
        ensures
            r == self.is_ending(),
    {
        match self {
            Boot::HandingOff(Handoff::Executing) | Boot::HandingOff(Handoff::Aborting) => true,
            _ => false,
        }
    }

    /// Moves on from this state with the outcome of its action.
    pub fn step(self, ctx: &BootContext, o: Outcome) -> (r: Boot)
        ensures
            r == self.next(*ctx, o),
    {
        match self {
            Boot::Provisioning(p) => {
                let p = p.step(ctx, o);
                match p {
                    Provision::Provisioned(st) => Boot::Installing {
                        bin: st,
                        state: Install::start(),
                    },
                    Provision::Failed => Boot::HandingOff(Handoff::start()),
                    _ => Boot::Provisioning(p),
                }
            },
            Boot::Installing { bin, state } => {
                let s = state.step(ctx, bin, o);
                if s.is_done() {
                    Boot::HandingOff(Handoff::start())
                } else {
                    Boot::Installing { bin, state: s }
                }
            },
            Boot::HandingOff(h) => Boot::HandingOff(h.step(ctx, o)),
        }
    }

    /// The action this state issues.
    pub fn action(&self, ctx: &BootContext) -> (r: Option<Action>)
        ensures
            crate::action::view_of(r) == self.action_of(*ctx),
    {
        match self {
            Boot::Provisioning(p) => p.action(),
            Boot::Installing { bin, state } => {
                let dir = BinDirectory::of(*bin);
                state.action(ctx, &dir)
            },
            Boot::HandingOff(h) => h.action(),
        }
    }
}

/// The states a boot run passes through from `s`, one outcome per action, up
/// to its exec or abort or to the end of `outs`.
pub open spec fn boot_trace(ctx: BootContext, s: Boot, outs: Seq<Outcome>) -> Seq<Boot>
    decreases outs.len(),
{
    if s.is_ending() || outs.len() == 0 {
        seq![s]
    } else {
        seq![s] + boot_trace(ctx, s.next(ctx, outs[0]), outs.drop_first())
    }
}

/// Every step of a boot run lowers the rank until the exec or the abort.
pub proof fn lemma_boot_rank_decreases(ctx: BootContext, s: Boot, o: Outcome)
    ensures
        !s.is_ending() ==> s.next(ctx, o).rank() < s.rank(),
        s.rank() <= 1 ==> s.is_ending(),
        Boot::initial(ctx).rank() <= MAX_BOOT_STEPS,
{
    lemma_rank_decreases(ctx, Provision::initial(ctx), o);
    match s {
        Boot::Provisioning(p) => {
            lemma_rank_decreases(ctx, p, o);
        },
        Boot::Installing { bin, state } => {
            lemma_install_rank_decreases(ctx, bin, state, o);
        },
        Boot::HandingOff(h) => {},
    }
}

proof fn lemma_boot_reaches_end(ctx: BootContext, s: Boot, outs: Seq<Outcome>)
    requires
        s.rank() <= outs.len(),
    ensures
        boot_trace(ctx, s, outs).last().is_ending(),
    decreases outs.len(),
{
    if !s.is_ending() {
        lemma_boot_rank_decreases(ctx, s, outs[0]);
        let n = s.next(ctx, outs[0]);
        lemma_boot_reaches_end(ctx, n, outs.drop_first());
        assert(boot_trace(ctx, s, outs).last() == boot_trace(ctx, n, outs.drop_first()).last());
    }
}

/// Whatever the topology and whatever the outcomes, a boot run issues the
/// exec of the real init or the abort within [`MAX_BOOT_STEPS`] actions.
pub proof fn lemma_boot_ends(ctx: BootContext, outs: Seq<Outcome>)
    requires
        outs.len() >= MAX_BOOT_STEPS,
    ensures
        boot_trace(ctx, Boot::initial(ctx), outs).last().is_ending(),
{
    lemma_boot_rank_decreases(ctx, Boot::initial(ctx), outs[0]);
    lemma_boot_reaches_end(ctx, Boot::initial(ctx), outs);
}

/// A failed provisioning or installation goes straight to the handoff's
/// cleanup.
pub proof fn lemma_failure_hands_off(ctx: BootContext, s: Boot, o: Outcome)
    requires
        s matches Boot::Provisioning(p) ==> p.next(ctx, o) == Provision::Failed,
        s matches Boot::Installing { bin, state } ==> state.next(ctx, bin, o) == Install::Failed,
        !(s is HandingOff),
    ensures
        s.next(ctx, o) == Boot::HandingOff(Handoff::RemovingScratch(0)),
{
}

} // verus!
