//! Bit layouts of the AArch64 system registers that the kernel reads and
//! programs. Field positions come from the `aarch64_cpu` register
//! descriptions; each accessor states the field it extracts.
use aarch64_cpu::registers::{CurrentEL, DAIF, ESR_EL1, HCR_EL2, SPSR_EL1, SPSR_EL2};
use vstd::prelude::*;

verus! {

/// A named field of the exception syndrome register.
#[derive(Clone, Copy, Debug, PartialEq, Eq)]
pub enum EsrField {
    /// Exception class, bits 31..26.
    Class,
    /// Instruction-specific syndrome, bits 24..0.
    Syndrome,
}

/// Value of the syndrome field `f` within the raw register value `esr`.
pub open spec fn esr_field_spec(esr: u64, f: EsrField) -> u64 {
    match f {
        EsrField::Class => (esr >> 26u64) & 0x3fu64,
        EsrField::Syndrome => esr & 0x1ff_ffffu64,
    }
}

/// Relies on `tock_registers::fields::Field::read` applied to
/// `ESR_EL1::EC` (offset 26, 6 bits) and `ESR_EL1::ISS` (offset 0, 25 bits).
#[verifier::external_body]
pub(crate) fn read_esr_field(esr: u64, f: EsrField) -> (r: u64)
    ensures
        r == esr_field_spec(esr, f),
{
    let field = match f {
        EsrField::Class => ESR_EL1::EC,
        EsrField::Syndrome => ESR_EL1::ISS,
    };
    field.read(esr)
}

/// A single-bit flag of the saved program status register.
#[derive(Clone, Copy, Debug, PartialEq, Eq)]
pub enum SpsrFlag {
    Negative,
    Zero,
    Carry,
    Overflow,
    IllegalExecution,
    Debug,
    SError,
    Irq,
    Fiq,
}

/// Bit position of an SPSR flag.
pub open spec fn spsr_flag_bit(f: SpsrFlag) -> u64 {
    match f {
        SpsrFlag::Negative => 31,
        SpsrFlag::Zero => 30,
        SpsrFlag::Carry => 29,
        SpsrFlag::Overflow => 28,
        SpsrFlag::IllegalExecution => 20,
        SpsrFlag::Debug => 9,
        SpsrFlag::SError => 8,
        SpsrFlag::Irq => 7,
        SpsrFlag::Fiq => 6,
    }
}

/// Whether bit `bit` of `v` is one.
pub open spec fn bit_set(v: u64, bit: u64) -> bool {
    (v >> bit) & 1u64 == 1u64
}

/// Relies on `tock_registers::fields::Field::is_set` applied to the
/// one-bit fields N, Z, C, V, IL, D, A, I, F of `SPSR_EL1`.
#[verifier::external_body]
pub(crate) fn spsr_flag_set(spsr: u64, f: SpsrFlag) -> (r: bool)
    ensures
        r == bit_set(spsr, spsr_flag_bit(f)),
{
    let field = match f {
        SpsrFlag::Negative => SPSR_EL1::N,
        SpsrFlag::Zero => SPSR_EL1::Z,
        SpsrFlag::Carry => SPSR_EL1::C,
        SpsrFlag::Overflow => SPSR_EL1::V,
        SpsrFlag::IllegalExecution => SPSR_EL1::IL,
        SpsrFlag::Debug => SPSR_EL1::D,
        SpsrFlag::SError => SPSR_EL1::A,
        SpsrFlag::Irq => SPSR_EL1::I,
        SpsrFlag::Fiq => SPSR_EL1::F,
    };
    field.is_set(spsr)
}

/// One of the four asynchronous event classes that the DAIF register masks.
#[derive(Clone, Copy, Debug, PartialEq, Eq)]
pub enum MaskClass {
    Debug,
    SError,
    Irq,
    Fiq,
}

/// Bit position of a mask class within DAIF (and within the DAIF part of an SPSR).
pub open spec fn mask_bit(c: MaskClass) -> u64 {
    match c {
        MaskClass::Debug => 9,
        MaskClass::SError => 8,
        MaskClass::Irq => 7,
        MaskClass::Fiq => 6,
    }
}

/// Relies on `tock_registers::fields::Field::is_set` applied to the
/// one-bit fields D, A, I, F of `DAIF`.
#[verifier::external_body]
pub(crate) fn daif_flag_set(daif: u64, c: MaskClass) -> (r: bool)
    ensures
        r == bit_set(daif, mask_bit(c)),
{
    let field = match c {
        MaskClass::Debug => DAIF::D,
        MaskClass::SError => DAIF::A,
        MaskClass::Irq => DAIF::I,
        MaskClass::Fiq => DAIF::F,
    };
    field.is_set(daif)
}

/// Relies on `tock_registers::fields::Field::read` applied to
/// `CurrentEL::EL` (offset 2, 2 bits).
#[verifier::external_body]
pub(crate) fn read_current_el(raw: u64) -> (r: u64)
    ensures
        r == (raw >> 2u64) & 3u64,
{
    CurrentEL::EL.read(raw)
}

/// Which one-way descent a saved program status value is built for.
#[derive(Clone, Copy, Debug, PartialEq, Eq)]
pub enum Descent {
    /// From EL2 to EL1, using the EL1 stack pointer.
    HypervisorToKernel,
    /// From EL1 to EL0, using the EL0 stack pointer.
    KernelToUser,
}

/// SPSR value that masks D, A, I and F and selects the destination mode:
/// EL1h (`0b0101`) or EL0t (`0b0000`).
pub open spec fn descent_spsr_spec(d: Descent) -> u64 {
    match d {
        Descent::HypervisorToKernel => 0x3c5,
        Descent::KernelToUser => 0x3c0,
    }
}

/// Relies on the `FieldValue` constants `D::Masked`, `A::Masked`,
/// `I::Masked`, `F::Masked` and `M::EL1h` of `SPSR_EL2` (or `M::EL0t` of
/// `SPSR_EL1`), combined with `FieldValue`'s `+`, which ors the values.
#[verifier::external_body]
pub(crate) fn descent_spsr(d: Descent) -> (r: u64)
    ensures
        r == descent_spsr_spec(d),
{
    match d {
        Descent::HypervisorToKernel => (SPSR_EL2::D::Masked + SPSR_EL2::A::Masked
            + SPSR_EL2::I::Masked + SPSR_EL2::F::Masked + SPSR_EL2::M::EL1h).value,
        Descent::KernelToUser => (SPSR_EL1::D::Masked + SPSR_EL1::A::Masked
            + SPSR_EL1::I::Masked + SPSR_EL1::F::Masked + SPSR_EL1::M::EL0t).value,
    }
}

/// Relies on the `FieldValue` constant `HCR_EL2::RW::EL1IsAarch64`
/// (bit 31 set): EL1 executes in AArch64 state.
#[verifier::external_body]
pub(crate) fn hcr_el1_aarch64() -> (r: u64)
    ensures
        r == 0x8000_0000u64,
{
    HCR_EL2::RW::EL1IsAarch64.value
}

} // verus!
