//! The fatal path: what a trap reports, and the latch that keeps a second
//! fault from formatting again.
use crate::frame::{context_text, ExceptionContext};
use crate::syndrome::{decode_spec, decode_syndrome, SyndromeDecode};
use crate::transition::SimRegisters;
use crate::vector::{handler_kind, is_fatal_stub, route, route_spec, Handler, TrapEventClass, TrapOrigin};
use vstd::prelude::*;

verus! {

/// The message of the stubs for the same-level, SP_EL0 origin.
pub open spec fn sp0_message() -> Seq<char> {
    "Should not be here. Use of SP_EL0 in EL1 is not supported."@
}

/// The message a handler raises for a captured context; `far` is the
/// fault address sampled for it, if any.
pub open spec fn trap_message_text(h: Handler, ctx: ExceptionContext, far: Option<u64>) -> Seq<char> {
    if is_fatal_stub(h) {
        sp0_message()
    } else {
        "CPU Exception! (exception kind: '"@ + handler_kind(h) + "')\n\n"@ + context_text(ctx, far)
    }
}

/// The message handler `h` raises for `ctx`.
pub fn trap_message(h: Handler, ctx: &ExceptionContext, far: Option<u64>) -> (r: String)
    ensures
        r@ == trap_message_text(h, *ctx, far),
{
    let mut out = String::new();
    if h.is_fatal_stub() {
        out.append("Should not be here. Use of SP_EL0 in EL1 is not supported.");
    } else {
        out.append("CPU Exception! (exception kind: '");
        out.append(h.kind());
        out.append("')\n\n");
        let ghost head = out@;
        ctx.fmt(far, &mut out);
        assert(out@ == head + context_text(*ctx, far));
    }
    out
}

/// Whether a report made while the latch reads `latched` formats a
/// diagnostic.
pub open spec fn formats(latched: bool) -> bool {
    !latched
}

/// The latch after any report.
pub open spec fn latch_after(latched: bool) -> bool {
    true
}

/// The fatal-path reporter. Once it has begun reporting, any further
/// report halts directly.
#[derive(Debug)]
pub struct Reporter {
    /// Whether a report is in progress.
    pub in_progress: bool,
}

impl Reporter {
    /// A reporter that has not reported yet.
    pub fn new() -> (r: Reporter)
        ensures
            !r.in_progress,
    {
        Reporter { in_progress: false }
    }

    /// Sets the latch; true when this is the first entry, in which case
    /// the caller may format its diagnostic. Otherwise the caller halts.
    pub fn panic_prevent_reenter(&mut self) -> (r: bool)
        ensures
            r == formats(old(self).in_progress),
            final(self).in_progress == latch_after(old(self).in_progress),
    {
        if !self.in_progress {
            self.in_progress = true;
            return true;
        }
        false
    }

    /// Reports `message`: hands it back for output on the first report,
    /// and nothing (a direct halt) on any later one.
    pub fn report(&mut self, message: String) -> (r: Option<String>)
        ensures
            r.is_some() == formats(old(self).in_progress),
            r matches Some(t) ==> t@ == message@,
            final(self).in_progress == latch_after(old(self).in_progress),
    {
        if self.panic_prevent_reenter() {
            Some(message)
        } else {
            None
        }
    }
}

/// Two reports in direct succession format exactly one diagnostic when the
/// first starts from a clear latch, and never more than one.
pub proof fn lemma_single_diagnostic(latched: bool)
    ensures
        (formats(latched) as int) + (formats(latch_after(latched)) as int) <= 1,
        !latched ==> formats(latched) && !formats(latch_after(latched)),
{
}

/// What happened when a trap was delivered.
#[derive(Debug)]
pub struct TrapOutcome {
    /// The handler the slot routed to.
    pub handler: Handler,
    /// The decoded syndrome.
    pub decode: SyndromeDecode,
    /// The fault address, when one was sampled.
    pub fault_address: Option<u64>,
    /// The diagnostic, when one was formatted. The trap is fatal either way.
    pub diagnostic: Option<String>,
}

/// Whether delivering a trap through the slot of (`o`, `c`) with syndrome
/// `esr` samples the fault-address register.
pub open spec fn samples_far(o: TrapOrigin, c: TrapEventClass, esr: u64) -> bool {
    !is_fatal_stub(route_spec(o, c)) && decode_spec(esr).fault_address_valid
}

/// Delivers a trap taken from origin `o` with event class `c` and captured
/// context `ctx`: routes it, decodes its syndrome, samples the fault
/// address exactly when the cause carries one, and reports it as fatal.
pub fn deliver_trap(
    regs: &mut SimRegisters,
    reporter: &mut Reporter,
    o: TrapOrigin,
    c: TrapEventClass,
    ctx: &ExceptionContext,
) -> (r: TrapOutcome)
    requires
        old(regs).vector_synced,
    ensures
        r.handler == route_spec(o, c),
        r.decode == decode_spec(ctx.esr_el1.0),
        r.fault_address == if samples_far(o, c, ctx.esr_el1.0) { Some(old(regs).far_el1) } else { None },
        *final(regs) == if samples_far(o, c, ctx.esr_el1.0) {
            SimRegisters { far_sampled: true, ..*old(regs) }
        } else {
            *old(regs)
        },
        r.diagnostic.is_some() == formats(old(reporter).in_progress),
        r.diagnostic matches Some(t) ==> t@ == trap_message_text(r.handler, *ctx, r.fault_address),
        final(reporter).in_progress == latch_after(old(reporter).in_progress),
{
    let handler = route(o, c);
    let decode = decode_syndrome(ctx.esr_el1.0);
    let fault_address = if !handler.is_fatal_stub() && decode.fault_address_valid {
        Some(regs.sample_far())
    } else {
        None
    };
    let message = trap_message(handler, ctx, fault_address);
    let diagnostic = reporter.report(message);
    TrapOutcome { handler, decode, fault_address, diagnostic }
}

} // verus!
