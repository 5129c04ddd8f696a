//! Classification of a trap from its exception syndrome.
use crate::regs::{read_esr_field, esr_field_spec, EsrField};
use vstd::prelude::*;

verus! {

/// Architecture-defined exception classes, as encoded in ESR_EL1.EC.
#[derive(Clone, Copy, Debug, PartialEq, Eq)]
pub enum ExceptionClass {
    Unknown,
    TrappedWfiOrWfe,
    TrappedMcrOrMrc,
    TrappedMcrrOrMrrc,
    TrappedMcrOrMrc2,
    TrappedLdcOrStc,
    TrappedFp,
    TrappedMrrc,
    BranchTarget,
    IllegalExecutionState,
    Svc32,
    Svc64,
    Hvc64,
    Smc64,
    TrappedMsrMrs,
    TrappedSve,
    PointerAuth,
    InstrAbortLowerEL,
    InstrAbortCurrentEL,
    PCAlignmentFault,
    DataAbortLowerEL,
    DataAbortCurrentEL,
    SPAlignmentFault,
    TrappedFp32,
    TrappedFp64,
    SError,
    BreakpointLowerEL,
    BreakpointCurrentEL,
    SoftwareStepLowerEL,
    SoftwareStepCurrentEL,
    WatchpointLowerEL,
    WatchpointCurrentEL,
    Bkpt32,
    Brk64,
    /// A class code that names none of the causes above.
    Unclassified,
}

/// The class named by a 6-bit EC code.
pub open spec fn class_of_code(code: u64) -> ExceptionClass {
    if code == 0x00 { ExceptionClass::Unknown }
    else if code == 0x01 { ExceptionClass::TrappedWfiOrWfe }
    else if code == 0x03 { ExceptionClass::TrappedMcrOrMrc }
    else if code == 0x04 { ExceptionClass::TrappedMcrrOrMrrc }
    else if code == 0x05 { ExceptionClass::TrappedMcrOrMrc2 }
    else if code == 0x06 { ExceptionClass::TrappedLdcOrStc }
    else if code == 0x07 { ExceptionClass::TrappedFp }
    else if code == 0x0c { ExceptionClass::TrappedMrrc }
    else if code == 0x0d { ExceptionClass::BranchTarget }
    else if code == 0x0e { ExceptionClass::IllegalExecutionState }
    else if code == 0x11 { ExceptionClass::Svc32 }
    else if code == 0x15 { ExceptionClass::Svc64 }
    else if code == 0x16 { ExceptionClass::Hvc64 }
    else if code == 0x17 { ExceptionClass::Smc64 }
    else if code == 0x18 { ExceptionClass::TrappedMsrMrs }
    else if code == 0x19 { ExceptionClass::TrappedSve }
    else if code == 0x1c { ExceptionClass::PointerAuth }
    else if code == 0x20 { ExceptionClass::InstrAbortLowerEL }
    else if code == 0x21 { ExceptionClass::InstrAbortCurrentEL }
    else if code == 0x22 { ExceptionClass::PCAlignmentFault }
    else if code == 0x24 { ExceptionClass::DataAbortLowerEL }
    else if code == 0x25 { ExceptionClass::DataAbortCurrentEL }
    else if code == 0x26 { ExceptionClass::SPAlignmentFault }
    else if code == 0x28 { ExceptionClass::TrappedFp32 }
    else if code == 0x2c { ExceptionClass::TrappedFp64 }
    else if code == 0x2f { ExceptionClass::SError }
    else if code == 0x30 { ExceptionClass::BreakpointLowerEL }
    else if code == 0x31 { ExceptionClass::BreakpointCurrentEL }
    else if code == 0x32 { ExceptionClass::SoftwareStepLowerEL }
    else if code == 0x33 { ExceptionClass::SoftwareStepCurrentEL }
    else if code == 0x34 { ExceptionClass::WatchpointLowerEL }
    else if code == 0x35 { ExceptionClass::WatchpointCurrentEL }
    else if code == 0x38 { ExceptionClass::Bkpt32 }
    else if code == 0x3c { ExceptionClass::Brk64 }
    else { ExceptionClass::Unclassified }
}

/// The causes for which the hardware also records a fault address.
pub open spec fn bears_fault_address(c: ExceptionClass) -> bool {
    match c {
        ExceptionClass::InstrAbortLowerEL
        | ExceptionClass::InstrAbortCurrentEL
        | ExceptionClass::PCAlignmentFault
        | ExceptionClass::DataAbortLowerEL
        | ExceptionClass::DataAbortCurrentEL
        | ExceptionClass::WatchpointLowerEL
        | ExceptionClass::WatchpointCurrentEL => true,
        _ => false,
    }
}

impl ExceptionClass {
    /// The class that the EC code `code` names.
    pub fn from_code(code: u64) -> (r: ExceptionClass)
        ensures
            r == class_of_code(code),
    {
        match code {
            0x00 => ExceptionClass::Unknown,
            0x01 => ExceptionClass::TrappedWfiOrWfe,
            0x03 => ExceptionClass::TrappedMcrOrMrc,
            0x04 => ExceptionClass::TrappedMcrrOrMrrc,
            0x05 => ExceptionClass::TrappedMcrOrMrc2,
            0x06 => ExceptionClass::TrappedLdcOrStc,
            0x07 => ExceptionClass::TrappedFp,
            0x0c => ExceptionClass::TrappedMrrc,
            0x0d => ExceptionClass::BranchTarget,
            0x0e => ExceptionClass::IllegalExecutionState,
            0x11 => ExceptionClass::Svc32,
            0x15 => ExceptionClass::Svc64,
            0x16 => ExceptionClass::Hvc64,
            0x17 => ExceptionClass::Smc64,
            0x18 => ExceptionClass::TrappedMsrMrs,
            0x19 => ExceptionClass::TrappedSve,
            0x1c => ExceptionClass::PointerAuth,
            0x20 => ExceptionClass::InstrAbortLowerEL,
            0x21 => ExceptionClass::InstrAbortCurrentEL,
            0x22 => ExceptionClass::PCAlignmentFault,
            0x24 => ExceptionClass::DataAbortLowerEL,
            0x25 => ExceptionClass::DataAbortCurrentEL,
            0x26 => ExceptionClass::SPAlignmentFault,
            0x28 => ExceptionClass::TrappedFp32,
            0x2c => ExceptionClass::TrappedFp64,
            0x2f => ExceptionClass::SError,
            0x30 => ExceptionClass::BreakpointLowerEL,
            0x31 => ExceptionClass::BreakpointCurrentEL,
            0x32 => ExceptionClass::SoftwareStepLowerEL,
            0x33 => ExceptionClass::SoftwareStepCurrentEL,
            0x34 => ExceptionClass::WatchpointLowerEL,
            0x35 => ExceptionClass::WatchpointCurrentEL,
            0x38 => ExceptionClass::Bkpt32,
            0x3c => ExceptionClass::Brk64,
            _ => ExceptionClass::Unclassified,
        }
    }

    /// Whether a fault address accompanies this cause.
    pub fn has_fault_address(self) -> (r: bool)
        ensures
            r == bears_fault_address(self),
    {
        match self {
            ExceptionClass::InstrAbortLowerEL
            | ExceptionClass::InstrAbortCurrentEL
            | ExceptionClass::PCAlignmentFault
            | ExceptionClass::DataAbortLowerEL
            | ExceptionClass::DataAbortCurrentEL
            | ExceptionClass::WatchpointLowerEL
            | ExceptionClass::WatchpointCurrentEL => true,
            _ => false,
        }
    }
}

/// What a syndrome value says about the trap that produced it.
#[derive(Clone, Copy, Debug, PartialEq, Eq)]
pub struct SyndromeDecode {
    /// The raw 6-bit class code.
    pub class_code: u64,
    /// The class that code names.
    pub exception_class: ExceptionClass,
    /// The instruction-specific syndrome bits.
    pub iss: u64,
    /// Whether the fault-address register holds an address for this cause.
    pub fault_address_valid: bool,
}

/// The decoding of the syndrome value `esr`.
pub open spec fn decode_spec(esr: u64) -> SyndromeDecode {
    let code = esr_field_spec(esr, EsrField::Class);
    SyndromeDecode {
        class_code: code,
        exception_class: class_of_code(code),
        iss: esr_field_spec(esr, EsrField::Syndrome),
        fault_address_valid: bears_fault_address(class_of_code(code)),
    }
}

/// Decodes a raw exception syndrome value.
pub fn decode_syndrome(esr: u64) -> (r: SyndromeDecode)
    ensures
        r == decode_spec(esr),
{
    let code = read_esr_field(esr, EsrField::Class);
    let class = ExceptionClass::from_code(code);
    let iss = read_esr_field(esr, EsrField::Syndrome);
    SyndromeDecode {
        class_code: code,
        exception_class: class,
        iss,
        fault_address_valid: class.has_fault_address(),
    }
}

} // verus!
