//! One-way descents between privilege tiers, and a software model of the
//! privileged registers they program.
//!
//! A descent is computed as a plan: the values to write into the
//! destination's control registers. On hardware those values are written
//! and an exception return is issued; here [`SimRegisters`] applies the
//! same plan to a modelled register file, so that the resulting state can
//! be inspected.
use crate::mask::masked;
use crate::privilege::{is_descent, level_of_el, PrivilegeLevel};
use crate::regs::{descent_spsr, descent_spsr_spec, hcr_el1_aarch64, Descent, MaskClass};
use vstd::prelude::*;

verus! {

/// The register values that carry out one descent.
#[derive(Clone, Copy, Debug, PartialEq, Eq)]
pub struct TransitionPlan {
    /// Which descent this is.
    pub descent: Descent,
    /// Value for HCR_EL2, written only when leaving EL2.
    pub hcr_el2: Option<u64>,
    /// Saved program status for the destination: all four classes masked,
    /// destination mode selected.
    pub spsr: u64,
    /// Where the destination starts executing.
    pub elr: u64,
    /// The destination's stack pointer.
    pub sp: u64,
}

/// The tier a descent starts from.
pub open spec fn source_level(d: Descent) -> PrivilegeLevel {
    match d {
        Descent::HypervisorToKernel => PrivilegeLevel::Hypervisor,
        Descent::KernelToUser => PrivilegeLevel::Kernel,
    }
}

/// The tier a descent ends in.
pub open spec fn target_level(d: Descent) -> PrivilegeLevel {
    match d {
        Descent::HypervisorToKernel => PrivilegeLevel::Kernel,
        Descent::KernelToUser => PrivilegeLevel::User,
    }
}

/// The descent from `from` to the tier below it.
pub open spec fn descent_of(from: PrivilegeLevel) -> Descent {
    if from == PrivilegeLevel::Hypervisor {
        Descent::HypervisorToKernel
    } else {
        Descent::KernelToUser
    }
}

/// The plan for descent `d` onto stack `stack` at address `entry`.
pub open spec fn plan_spec(d: Descent, stack: u64, entry: u64) -> TransitionPlan {
    TransitionPlan {
        descent: d,
        hcr_el2: match d {
            Descent::HypervisorToKernel => Some(0x8000_0000u64),
            Descent::KernelToUser => None,
        },
        spsr: descent_spsr_spec(d),
        elr: entry,
        sp: stack,
    }
}

/// Plans the descent from `from` to `to`, which must be the tier
/// immediately below: the destination runs in AArch64 state with all four
/// asynchronous classes masked, from `entry_address` on the stack
/// `target_stack_top`.
pub fn transition(from: PrivilegeLevel, to: PrivilegeLevel, target_stack_top: u64, entry_address: u64) -> (r: TransitionPlan)
    requires
        is_descent(from, to),
    ensures
        r == plan_spec(descent_of(from), target_stack_top, entry_address),
        source_level(r.descent) == from,
        target_level(r.descent) == to,
{
    let d = if from == PrivilegeLevel::Hypervisor {
        Descent::HypervisorToKernel
    } else {
        Descent::KernelToUser
    };
    let hcr = match d {
        Descent::HypervisorToKernel => Some(hcr_el1_aarch64()),
        Descent::KernelToUser => None,
    };
    TransitionPlan { descent: d, hcr_el2: hcr, spsr: descent_spsr(d), elr: entry_address, sp: target_stack_top }
}

/// Plans the boot-time descent from EL2 to EL1.
pub fn transition_from_el2_to_el1(stack_end_addr: u64, exception_return_addr: u64) -> (r: TransitionPlan)
    ensures
        r == plan_spec(Descent::HypervisorToKernel, stack_end_addr, exception_return_addr),
{
    transition(PrivilegeLevel::Hypervisor, PrivilegeLevel::Kernel, stack_end_addr, exception_return_addr)
}

/// Plans the descent from EL1 to EL0 that launches a user payload.
pub fn transition_from_el1_to_el0(stack_end_addr: u64, exception_return_addr: u64) -> (r: TransitionPlan)
    ensures
        r == plan_spec(Descent::KernelToUser, stack_end_addr, exception_return_addr),
{
    transition(PrivilegeLevel::Kernel, PrivilegeLevel::User, stack_end_addr, exception_return_addr)
}

/// A modelled privileged register file.
#[derive(Clone, Copy, Debug, PartialEq, Eq)]
pub struct SimRegisters {
    /// The tier currently executing.
    pub current_el: PrivilegeLevel,
    /// Whether the active stack pointer is SP_EL0 rather than the tier's own.
    pub sp_sel_el0: bool,
    /// Program counter.
    pub pc: u64,
    /// Interrupt mask bits, laid out as in DAIF.
    pub daif: u64,
    pub hcr_el2: u64,
    pub spsr_el2: u64,
    pub elr_el2: u64,
    pub spsr_el1: u64,
    pub elr_el1: u64,
    pub sp_el0: u64,
    pub sp_el1: u64,
    pub sp_el2: u64,
    /// Vector base register.
    pub vbar_el1: u64,
    /// Whether a synchronization barrier followed the last vector-base write.
    pub vector_synced: bool,
    /// Fault-address register.
    pub far_el1: u64,
    /// Whether the fault-address register has been read.
    pub far_sampled: bool,
}

/// The stack pointer in use.
pub open spec fn active_sp(s: SimRegisters) -> u64 {
    if s.sp_sel_el0 {
        s.sp_el0
    } else {
        match s.current_el {
            PrivilegeLevel::Kernel => s.sp_el1,
            PrivilegeLevel::Hypervisor => s.sp_el2,
            _ => s.sp_el0,
        }
    }
}

/// `s` after the plan's values are written to the source tier's registers.
pub open spec fn programmed(s: SimRegisters, p: TransitionPlan) -> SimRegisters {
    match p.descent {
        Descent::HypervisorToKernel => SimRegisters {
            hcr_el2: match p.hcr_el2 { Some(h) => h, None => s.hcr_el2 },
            spsr_el2: p.spsr,
            elr_el2: p.elr,
            sp_el1: p.sp,
            ..s
        },
        Descent::KernelToUser => SimRegisters {
            spsr_el1: p.spsr,
            elr_el1: p.elr,
            sp_el0: p.sp,
            ..s
        },
    }
}

/// `s` after an exception return from the current tier: the saved mode
/// selects tier and stack, the saved mask bits become current, and
/// execution resumes at the exception link address.
pub open spec fn returned(s: SimRegisters) -> SimRegisters {
    let spsr = if s.current_el == PrivilegeLevel::Hypervisor { s.spsr_el2 } else { s.spsr_el1 };
    let elr = if s.current_el == PrivilegeLevel::Hypervisor { s.elr_el2 } else { s.elr_el1 };
    SimRegisters {
        current_el: level_of_el((spsr >> 2u64) & 3u64),
        sp_sel_el0: spsr & 1u64 == 0u64,
        daif: spsr & 0x3c0u64,
        pc: elr,
        ..s
    }
}

/// `s` after the whole descent of plan `p`.
pub open spec fn descended(s: SimRegisters, p: TransitionPlan) -> SimRegisters {
    returned(programmed(s, p))
}

impl SimRegisters {
    /// A register file with every register zero, executing at `level`
    /// on its own stack pointer.
    pub fn new(level: PrivilegeLevel) -> (r: SimRegisters)
        ensures
            r.current_el == level,
            !r.sp_sel_el0,
            r.pc == 0 && r.daif == 0 && r.far_el1 == 0 && r.vbar_el1 == 0,
            r.hcr_el2 == 0 && r.spsr_el2 == 0 && r.elr_el2 == 0,
            r.spsr_el1 == 0 && r.elr_el1 == 0,
            r.sp_el0 == 0 && r.sp_el1 == 0 && r.sp_el2 == 0,
            !r.vector_synced && !r.far_sampled,
    {
        SimRegisters {
            current_el: level,
            sp_sel_el0: false,
            pc: 0,
            daif: 0,
            hcr_el2: 0,
            spsr_el2: 0,
            elr_el2: 0,
            spsr_el1: 0,
            elr_el1: 0,
            sp_el0: 0,
            sp_el1: 0,
            sp_el2: 0,
            vbar_el1: 0,
            vector_synced: false,
            far_el1: 0,
            far_sampled: false,
        }
    }

    /// Whether the event class `c` is currently masked.
    pub fn query(&self, c: MaskClass) -> (r: bool)
        ensures
            r == masked(self.daif, c),
    {
        crate::mask::is_masked(self.daif, c)
    }

    /// The stack pointer in use.
    pub fn stack_pointer(&self) -> (r: u64)
        ensures
            r == active_sp(*self),
    {
        if self.sp_sel_el0 {
            self.sp_el0
        } else {
            match self.current_el {
                PrivilegeLevel::Kernel => self.sp_el1,
                PrivilegeLevel::Hypervisor => self.sp_el2,
                _ => self.sp_el0,
            }
        }
    }

    /// The raw CurrentEL value: the tier's number in bits 3..2.
    pub fn current_el_raw(&self) -> (r: u64)
        ensures
            self.current_el != PrivilegeLevel::Unknown ==> level_of_el((r >> 2u64) & 3u64) == self.current_el,
    {
        let r: u64 = match self.current_el {
            PrivilegeLevel::User => 0,
            PrivilegeLevel::Kernel => 4,
            PrivilegeLevel::Hypervisor => 8,
            PrivilegeLevel::Unknown => 12,
        };
        assert(((0u64 >> 2u64) & 3u64) == 0u64 && ((4u64 >> 2u64) & 3u64) == 1u64
            && ((8u64 >> 2u64) & 3u64) == 2u64) by (bit_vector);
        r
    }

    /// Writes the plan's values into the source tier's control registers.
    pub fn program(&mut self, p: &TransitionPlan)
        ensures
            *final(self) == programmed(*old(self), *p),
    {
        match p.descent {
            Descent::HypervisorToKernel => {
                match p.hcr_el2 {
                    Some(h) => { self.hcr_el2 = h; },
                    None => {},
                }
                self.spsr_el2 = p.spsr;
                self.elr_el2 = p.elr;
                self.sp_el1 = p.sp;
            },
            Descent::KernelToUser => {
                self.spsr_el1 = p.spsr;
                self.elr_el1 = p.elr;
                self.sp_el0 = p.sp;
            },
        }
    }

    /// Performs an exception return from the current tier.
    pub fn exception_return(&mut self)
        ensures
            *final(self) == returned(*old(self)),
    {
        let hyp = self.current_el == PrivilegeLevel::Hypervisor;
        let spsr = if hyp { self.spsr_el2 } else { self.spsr_el1 };
        let elr = if hyp { self.elr_el2 } else { self.elr_el1 };
        let el = (spsr >> 2u64) & 3u64;
        self.current_el = if el == 0 {
            PrivilegeLevel::User
        } else if el == 1 {
            PrivilegeLevel::Kernel
        } else if el == 2 {
            PrivilegeLevel::Hypervisor
        } else {
            PrivilegeLevel::Unknown
        };
        self.sp_sel_el0 = spsr & 1u64 == 0u64;
        self.daif = spsr & 0x3c0u64;
        self.pc = elr;
    }

    /// Carries out the plan: writes its values, then returns into the
    /// destination tier.
    pub fn perform(&mut self, p: &TransitionPlan)
        ensures
            *final(self) == descended(*old(self), *p),
    {
        self.program(p);
        self.exception_return();
    }

    /// Installs the vector table at `table_base` and synchronizes, so that
    /// every later trap enters through it.
    pub fn install_vector_table(&mut self, table_base: u64)
        requires
            table_base % 0x800 == 0,
        ensures
            *final(self) == (SimRegisters { vbar_el1: table_base, vector_synced: true, ..*old(self) }),
    {
        self.vbar_el1 = table_base;
        self.vector_synced = false;
        self.instruction_barrier();
    }

    /// An instruction synchronization barrier: earlier register writes take effect.
    pub fn instruction_barrier(&mut self)
        ensures
            *final(self) == (SimRegisters { vector_synced: true, ..*old(self) }),
    {
        self.vector_synced = true;
    }

    /// Reads the fault-address register.
    pub fn sample_far(&mut self) -> (r: u64)
        ensures
            r == old(self).far_el1,
            *final(self) == (SimRegisters { far_sampled: true, ..*old(self) }),
    {
        self.far_sampled = true;
        self.far_el1
    }
}

/// After any descent, each of the four event classes is masked: the
/// destination's mask profile is "all masked".
pub proof fn lemma_descent_masks_all(s: SimRegisters, from: PrivilegeLevel, to: PrivilegeLevel, stack: u64, entry: u64, c: MaskClass)
    requires
        s.current_el == from,
        is_descent(from, to),
    ensures
        masked(descended(s, plan_spec(descent_of(from), stack, entry)).daif, c),
{
    assert((0x3c5u64 & 0x3c0u64) == 0x3c0u64) by (bit_vector);
    assert((0x3c0u64 & 0x3c0u64) == 0x3c0u64) by (bit_vector);
    assert(((0x3c0u64 >> 9u64) & 1u64) == 1u64 && ((0x3c0u64 >> 8u64) & 1u64) == 1u64
        && ((0x3c0u64 >> 7u64) & 1u64) == 1u64 && ((0x3c0u64 >> 6u64) & 1u64) == 1u64) by (bit_vector);
}

/// A descent lands in the tier below, at the entry address, on the given
/// stack.
pub proof fn lemma_descent_lands(s: SimRegisters, from: PrivilegeLevel, to: PrivilegeLevel, stack: u64, entry: u64)
    requires
        s.current_el == from,
        is_descent(from, to),
    ensures
        descended(s, plan_spec(descent_of(from), stack, entry)).current_el == to,
        descended(s, plan_spec(descent_of(from), stack, entry)).pc == entry,
        active_sp(descended(s, plan_spec(descent_of(from), stack, entry))) == stack,
{
    assert(((0x3c5u64 >> 2u64) & 3u64) == 1u64 && (0x3c5u64 & 1u64) != 0u64) by (bit_vector);
    assert(((0x3c0u64 >> 2u64) & 3u64) == 0u64 && (0x3c0u64 & 1u64) == 0u64) by (bit_vector);
}

} // verus!
