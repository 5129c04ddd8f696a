//! The trap vector table: sixteen slots, one per (origin, event class) pair,
//! and the routing of each slot to its handler.
use vstd::prelude::*;

verus! {

/// The execution context a trap came from.
#[derive(Clone, Copy, Debug, PartialEq, Eq, Structural)]
pub enum TrapOrigin {
    /// Same level, using SP_EL0: never used by this kernel.
    CurrentElSp0,
    /// Same level, using SP_ELx.
    CurrentElSpx,
    /// A lower level running AArch64.
    LowerAarch64,
    /// A lower level running AArch32.
    LowerAarch32,
}

/// The kind of event that raised a trap.
#[derive(Clone, Copy, Debug, PartialEq, Eq, Structural)]
pub enum TrapEventClass {
    Synchronous,
    Irq,
    Fiq,
    SError,
}

/// The handler behind each slot of the table.
#[derive(Clone, Copy, Debug, PartialEq, Eq, Structural)]
pub enum Handler {
    CurrentEl0Synchronous,
    CurrentEl0Irq,
    CurrentEl0Fiq,
    CurrentEl0Serror,
    CurrentElxSynchronous,
    CurrentElxIrq,
    CurrentElxFiq,
    CurrentElxSerror,
    LowerAarch64Synchronous,
    LowerAarch64Irq,
    LowerAarch64Fiq,
    LowerAarch64Serror,
    LowerAarch32Synchronous,
    LowerAarch32Irq,
    LowerAarch32Fiq,
    LowerAarch32Serror,
}

/// Position of an origin in the table (each origin owns four slots).
pub open spec fn origin_index(o: TrapOrigin) -> nat {
    match o {
        TrapOrigin::CurrentElSp0 => 0,
        TrapOrigin::CurrentElSpx => 1,
        TrapOrigin::LowerAarch64 => 2,
        TrapOrigin::LowerAarch32 => 3,
    }
}

/// Position of an event class within an origin's four slots.
pub open spec fn class_index(c: TrapEventClass) -> nat {
    match c {
        TrapEventClass::Synchronous => 0,
        TrapEventClass::Irq => 1,
        TrapEventClass::Fiq => 2,
        TrapEventClass::SError => 3,
    }
}

/// The handler registered for the slot of (`o`, `c`).
pub open spec fn route_spec(o: TrapOrigin, c: TrapEventClass) -> Handler {
    match (o, c) {
        (TrapOrigin::CurrentElSp0, TrapEventClass::Synchronous) => Handler::CurrentEl0Synchronous,
        (TrapOrigin::CurrentElSp0, TrapEventClass::Irq) => Handler::CurrentEl0Irq,
        (TrapOrigin::CurrentElSp0, TrapEventClass::Fiq) => Handler::CurrentEl0Fiq,
        (TrapOrigin::CurrentElSp0, TrapEventClass::SError) => Handler::CurrentEl0Serror,
        (TrapOrigin::CurrentElSpx, TrapEventClass::Synchronous) => Handler::CurrentElxSynchronous,
        (TrapOrigin::CurrentElSpx, TrapEventClass::Irq) => Handler::CurrentElxIrq,
        (TrapOrigin::CurrentElSpx, TrapEventClass::Fiq) => Handler::CurrentElxFiq,
        (TrapOrigin::CurrentElSpx, TrapEventClass::SError) => Handler::CurrentElxSerror,
        (TrapOrigin::LowerAarch64, TrapEventClass::Synchronous) => Handler::LowerAarch64Synchronous,
        (TrapOrigin::LowerAarch64, TrapEventClass::Irq) => Handler::LowerAarch64Irq,
        (TrapOrigin::LowerAarch64, TrapEventClass::Fiq) => Handler::LowerAarch64Fiq,
        (TrapOrigin::LowerAarch64, TrapEventClass::SError) => Handler::LowerAarch64Serror,
        (TrapOrigin::LowerAarch32, TrapEventClass::Synchronous) => Handler::LowerAarch32Synchronous,
        (TrapOrigin::LowerAarch32, TrapEventClass::Irq) => Handler::LowerAarch32Irq,
        (TrapOrigin::LowerAarch32, TrapEventClass::Fiq) => Handler::LowerAarch32Fiq,
        (TrapOrigin::LowerAarch32, TrapEventClass::SError) => Handler::LowerAarch32Serror,
    }
}

/// The slot that a handler serves.
pub open spec fn slot_of(h: Handler) -> (TrapOrigin, TrapEventClass) {
    match h {
        Handler::CurrentEl0Synchronous => (TrapOrigin::CurrentElSp0, TrapEventClass::Synchronous),
        Handler::CurrentEl0Irq => (TrapOrigin::CurrentElSp0, TrapEventClass::Irq),
        Handler::CurrentEl0Fiq => (TrapOrigin::CurrentElSp0, TrapEventClass::Fiq),
        Handler::CurrentEl0Serror => (TrapOrigin::CurrentElSp0, TrapEventClass::SError),
        Handler::CurrentElxSynchronous => (TrapOrigin::CurrentElSpx, TrapEventClass::Synchronous),
        Handler::CurrentElxIrq => (TrapOrigin::CurrentElSpx, TrapEventClass::Irq),
        Handler::CurrentElxFiq => (TrapOrigin::CurrentElSpx, TrapEventClass::Fiq),
        Handler::CurrentElxSerror => (TrapOrigin::CurrentElSpx, TrapEventClass::SError),
        Handler::LowerAarch64Synchronous => (TrapOrigin::LowerAarch64, TrapEventClass::Synchronous),
        Handler::LowerAarch64Irq => (TrapOrigin::LowerAarch64, TrapEventClass::Irq),
        Handler::LowerAarch64Fiq => (TrapOrigin::LowerAarch64, TrapEventClass::Fiq),
        Handler::LowerAarch64Serror => (TrapOrigin::LowerAarch64, TrapEventClass::SError),
        Handler::LowerAarch32Synchronous => (TrapOrigin::LowerAarch32, TrapEventClass::Synchronous),
        Handler::LowerAarch32Irq => (TrapOrigin::LowerAarch32, TrapEventClass::Irq),
        Handler::LowerAarch32Fiq => (TrapOrigin::LowerAarch32, TrapEventClass::Fiq),
        Handler::LowerAarch32Serror => (TrapOrigin::LowerAarch32, TrapEventClass::SError),
    }
}

/// Whether a handler is a stub that is fatal whatever the trap: those of
/// the same-level, SP_EL0 origin, which this kernel never runs in.
pub open spec fn is_fatal_stub(h: Handler) -> bool {
    slot_of(h).0 == TrapOrigin::CurrentElSp0
}

/// The handler registered for the slot of (`o`, `c`).
pub fn route(o: TrapOrigin, c: TrapEventClass) -> (r: Handler)
    ensures
        r == route_spec(o, c),
        slot_of(r) == (o, c),
{
    match o {
        TrapOrigin::CurrentElSp0 => match c {
            TrapEventClass::Synchronous => Handler::CurrentEl0Synchronous,
            TrapEventClass::Irq => Handler::CurrentEl0Irq,
            TrapEventClass::Fiq => Handler::CurrentEl0Fiq,
            TrapEventClass::SError => Handler::CurrentEl0Serror,
        },
        TrapOrigin::CurrentElSpx => match c {
            TrapEventClass::Synchronous => Handler::CurrentElxSynchronous,
            TrapEventClass::Irq => Handler::CurrentElxIrq,
            TrapEventClass::Fiq => Handler::CurrentElxFiq,
            TrapEventClass::SError => Handler::CurrentElxSerror,
        },
        TrapOrigin::LowerAarch64 => match c {
            TrapEventClass::Synchronous => Handler::LowerAarch64Synchronous,
            TrapEventClass::Irq => Handler::LowerAarch64Irq,
            TrapEventClass::Fiq => Handler::LowerAarch64Fiq,
            TrapEventClass::SError => Handler::LowerAarch64Serror,
        },
        TrapOrigin::LowerAarch32 => match c {
            TrapEventClass::Synchronous => Handler::LowerAarch32Synchronous,
            TrapEventClass::Irq => Handler::LowerAarch32Irq,
            TrapEventClass::Fiq => Handler::LowerAarch32Fiq,
            TrapEventClass::SError => Handler::LowerAarch32Serror,
        },
    }
}

/// Byte offset of the slot of (`o`, `c`) from the table base: 0x200 per
/// origin, 0x80 per class.
pub open spec fn slot_offset_spec(o: TrapOrigin, c: TrapEventClass) -> nat {
    origin_index(o) * 0x200 + class_index(c) * 0x80
}

/// Byte offset of the slot of (`o`, `c`) from the table base.
pub fn slot_offset(o: TrapOrigin, c: TrapEventClass) -> (r: u64)
    ensures
        r == slot_offset_spec(o, c),
{
    let oi: u64 = match o {
        TrapOrigin::CurrentElSp0 => 0,
        TrapOrigin::CurrentElSpx => 1,
        TrapOrigin::LowerAarch64 => 2,
        TrapOrigin::LowerAarch32 => 3,
    };
    let ci: u64 = match c {
        TrapEventClass::Synchronous => 0,
        TrapEventClass::Irq => 1,
        TrapEventClass::Fiq => 2,
        TrapEventClass::SError => 3,
    };
    oi * 0x200 + ci * 0x80
}

/// Required alignment of the table base, in bytes.
pub const VECTOR_TABLE_ALIGN: u64 = 0x800;

impl Handler {
    /// Whether this handler is a stub that is fatal whatever the trap.
    pub fn is_fatal_stub(self) -> (r: bool)
        ensures
            r == is_fatal_stub(self),
    {
        match self {
            Handler::CurrentEl0Synchronous
            | Handler::CurrentEl0Irq
            | Handler::CurrentEl0Fiq
            | Handler::CurrentEl0Serror => true,
            _ => false,
        }
    }

    /// The kind name that the handler reports.
    pub fn kind(self) -> (r: &'static str)
        ensures
            r@ == handler_kind(self),
    {
        match self {
            Handler::CurrentEl0Synchronous => "current_el0_synchronous",
            Handler::CurrentEl0Irq => "current_el0_irq",
            Handler::CurrentEl0Fiq => "current_el0_fiq",
            Handler::CurrentEl0Serror => "current_el0_serror",
            Handler::CurrentElxSynchronous => "current_elx_synchronous",
            Handler::CurrentElxIrq => "current_elx_irq",
            Handler::CurrentElxFiq => "current_elx_fiq",
            Handler::CurrentElxSerror => "current_elx_serror",
            Handler::LowerAarch64Synchronous => "lower_aarch64_synchronous",
            Handler::LowerAarch64Irq => "lower_aarch64_irq",
            Handler::LowerAarch64Fiq => "lower_aarch64_fiq",
            Handler::LowerAarch64Serror => "lower_aarch64_serror",
            Handler::LowerAarch32Synchronous => "lower_aarch32_synchronous",
            Handler::LowerAarch32Irq => "lower_aarch32_irq",
            Handler::LowerAarch32Fiq => "lower_aarch32_fiq",
            Handler::LowerAarch32Serror => "lower_aarch32_serror",
        }
    }
}

/// The kind name that a handler reports.
pub open spec fn handler_kind(h: Handler) -> Seq<char> {
    match h {
        Handler::CurrentEl0Synchronous => "current_el0_synchronous"@,
        Handler::CurrentEl0Irq => "current_el0_irq"@,
        Handler::CurrentEl0Fiq => "current_el0_fiq"@,
        Handler::CurrentEl0Serror => "current_el0_serror"@,
        Handler::CurrentElxSynchronous => "current_elx_synchronous"@,
        Handler::CurrentElxIrq => "current_elx_irq"@,
        Handler::CurrentElxFiq => "current_elx_fiq"@,
        Handler::CurrentElxSerror => "current_elx_serror"@,
        Handler::LowerAarch64Synchronous => "lower_aarch64_synchronous"@,
        Handler::LowerAarch64Irq => "lower_aarch64_irq"@,
        Handler::LowerAarch64Fiq => "lower_aarch64_fiq"@,
        Handler::LowerAarch64Serror => "lower_aarch64_serror"@,
        Handler::LowerAarch32Synchronous => "lower_aarch32_synchronous"@,
        Handler::LowerAarch32Irq => "lower_aarch32_irq"@,
        Handler::LowerAarch32Fiq => "lower_aarch32_fiq"@,
        Handler::LowerAarch32Serror => "lower_aarch32_serror"@,
    }
}

/// Each of the sixteen (origin, class) pairs is routed to the handler
/// registered for exactly that pair: distinct pairs reach distinct
/// handlers, and every handler serves the pair that reaches it.
pub proof fn lemma_routing_is_exact(o1: TrapOrigin, c1: TrapEventClass, o2: TrapOrigin, c2: TrapEventClass)
    ensures
        slot_of(route_spec(o1, c1)) == (o1, c1),
        route_spec(o1, c1) == route_spec(o2, c2) <==> (o1 == o2 && c1 == c2),
        route_spec(slot_of(route_spec(o1, c1)).0, slot_of(route_spec(o1, c1)).1) == route_spec(o1, c1),
{
}

/// Both same-level, SP_EL0 slots of every class are fatal stubs, and no
/// other slot is.
pub proof fn lemma_sp0_slots_fatal(o: TrapOrigin, c: TrapEventClass)
    ensures
        is_fatal_stub(route_spec(o, c)) <==> o == TrapOrigin::CurrentElSp0,
{
}

/// Distinct pairs occupy distinct, non-overlapping 0x80-byte slots inside
/// a 0x800-byte table.
pub proof fn lemma_slots_disjoint(o1: TrapOrigin, c1: TrapEventClass, o2: TrapOrigin, c2: TrapEventClass)
    ensures
        slot_offset_spec(o1, c1) + 0x80 <= 0x800,
        (o1, c1) != (o2, c2) ==> slot_offset_spec(o1, c1) != slot_offset_spec(o2, c2),
        slot_offset_spec(o1, c1) % 0x80 == 0,
{
}

} // verus!
