//! Failure diagnostics for aborted test runs: a swappable process-wide handler
//! slot, a report composer, a backtrace formatter, and a source-span resolver
//! that finds the project frame behind an abort.
use vstd::prelude::*;

pub mod location;
pub mod payload;
pub mod report;
pub mod resolve;
pub mod text;
pub mod trace;

verus! {

/// The value held by the process-wide handler slot: the platform's own
/// handler, this library's reporting handler closed over a project root,
/// or some other handler installed by foreign code, tracked by identity.
pub enum HandlerValue {
    PlatformDefault,
    Reporter { project_root: String },
    Other { id: u64 },
}

/// The single process-wide handler slot. Exactly one handler is active at any
/// instant; each swap moves the whole value in and the previous one out, so
/// the slot is never empty.
///
/// The slot is deliberately a plain value threaded by `&mut`, not hidden
/// global state: each swap is atomic at the single-call granularity, and the
/// save–install–run–restore bracket around a test body is not atomic as a
/// whole. When two brackets overlap on different threads, one body's restore
/// can replace the slot while the other still runs; that body keeps running
/// and only the fidelity of its report degrades, exactly as the round-trip
/// law below, which speaks of one uninterleaved sequence, leaves open.
pub struct HandlerSlot {
    pub active: HandlerValue,
}

/// A slot holding the platform's default handler, the state before anything
/// was installed.
pub fn platform_slot() -> (r: HandlerSlot)
    ensures
        r.active == HandlerValue::PlatformDefault,
{
    HandlerSlot { active: HandlerValue::PlatformDefault }
}

/// Atomically replaces the slot's handler and returns the one that was active
/// before, as a restorable value.
pub fn swap_handler(slot: &mut HandlerSlot, new: HandlerValue) -> (prev: HandlerValue)
    ensures
        final(slot).active == new,
        prev == old(slot).active,
{
    let mut tmp = HandlerSlot { active: new };
    core::mem::swap(slot, &mut tmp);
    tmp.active
}

/// Registers the reporting handler for the given project root. Installing is
/// a single slot replacement: it cannot fail, and installing twice with the
/// same root leaves the slot in the same state.
pub fn install(slot: &mut HandlerSlot, project_root: String)
    ensures
        final(slot).active == (HandlerValue::Reporter { project_root }),
{
    let _prev = swap_handler(slot, HandlerValue::Reporter { project_root });
}

/// Law: saving the active handler, installing the reporter, and swapping the
/// saved handler back leaves the slot exactly as it began. The premises are
/// the postconditions of the two `swap_handler` calls of that sequence.
pub proof fn lemma_handler_round_trip(
    s0: HandlerSlot,
    s1: HandlerSlot,
    s2: HandlerSlot,
    installed: HandlerValue,
    saved: HandlerValue,
)
    requires
        s1.active == installed,
        saved == s0.active,
        s2.active == saved,
    ensures
        s2 == s0,
{
}

/// Law: the slot state after `install` depends on the project root alone,
/// never on what was active before, so installing twice is idempotent.
pub proof fn lemma_install_idempotent(s1: HandlerSlot, s2: HandlerSlot, project_root: String)
    requires
        s1.active == (HandlerValue::Reporter { project_root }),
        s2.active == (HandlerValue::Reporter { project_root }),
    ensures
        s1 == s2,
{
}

} // verus!
