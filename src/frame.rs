//! The execution context captured on trap entry, and its diagnostic text.
use crate::regs::{spsr_flag_set, bit_set, spsr_flag_bit, SpsrFlag};
use crate::syndrome::{decode_syndrome, decode_spec, ExceptionClass, SyndromeDecode};
use crate::text::{fmt_hex, fmt_hex_padded, fmt_index, hex_text, hex_text_padded, index_text};
use vstd::prelude::*;

verus! {

/// Number of general-purpose registers saved in a frame (x0 to x29).
pub const GPR_COUNT: usize = 30;

/// A captured saved-program-status value.
#[derive(Clone, Copy, Debug, PartialEq, Eq)]
pub struct SpsrEL1(pub u64);

/// A captured exception-syndrome value.
#[derive(Clone, Copy, Debug, PartialEq, Eq)]
pub struct EsrEL1(pub u64);

/// The snapshot of an execution context taken on trap entry.
#[derive(Clone, Copy, Debug)]
pub struct ExceptionContext {
    /// General-purpose registers x0 to x29.
    pub gpr: [u64; 30],
    /// Link register (x30).
    pub lr: u64,
    /// Exception link register: where execution resumes.
    pub elr_el1: u64,
    /// Saved program status register.
    pub spsr_el1: SpsrEL1,
    /// Exception syndrome register.
    pub esr_el1: EsrEL1,
}

/// "Set" or "Not set".
pub open spec fn flag_text(b: bool) -> Seq<char> {
    if b { "Set"@ } else { "Not set"@ }
}

/// "Masked" or "Unmasked".
pub open spec fn mask_text(b: bool) -> Seq<char> {
    if b { "Masked"@ } else { "Unmasked"@ }
}

/// A labelled line: `label`, `value`, newline.
pub open spec fn line_text(label: Seq<char>, value: Seq<char>) -> Seq<char> {
    label + value + "\n"@
}

/// The condition-flag block of an SPSR text.
pub open spec fn spsr_flags_text(v: u64) -> Seq<char> {
    "      Flags:\n"@
    + line_text("            Negative (N): "@, flag_text(bit_set(v, 31)))
    + line_text("            Zero     (Z): "@, flag_text(bit_set(v, 30)))
    + line_text("            Carry    (C): "@, flag_text(bit_set(v, 29)))
    + line_text("            Overflow (V): "@, flag_text(bit_set(v, 28)))
}

/// The mask-flag block of an SPSR text.
pub open spec fn spsr_masks_text(v: u64) -> Seq<char> {
    "      Exception handling state:\n"@
    + line_text("            Debug  (D): "@, mask_text(bit_set(v, 9)))
    + line_text("            SError (A): "@, mask_text(bit_set(v, 8)))
    + line_text("            IRQ    (I): "@, mask_text(bit_set(v, 7)))
    + line_text("            FIQ    (F): "@, mask_text(bit_set(v, 6)))
}

/// The text for an SPSR value: raw value, condition flags, mask flags and
/// the illegal-execution-state flag.
#[verifier::opaque]
pub open spec fn spsr_text(v: u64) -> Seq<char> {
    line_text("SPSR_EL1: "@, hex_text_padded(v))
    + spsr_flags_text(v)
    + spsr_masks_text(v)
    + "      Illegal Execution State (IL): "@ + flag_text(bit_set(v, 20))
}

/// A readable name for an exception class, where one is given.
pub open spec fn class_translation(c: ExceptionClass) -> Seq<char> {
    match c {
        ExceptionClass::DataAbortCurrentEL => "Data Abort, current EL"@,
        _ => "N/A"@,
    }
}

/// The text for a syndrome value: raw value, class code and its
/// translation, and the instruction-specific syndrome.
#[verifier::opaque]
pub open spec fn esr_text(v: u64) -> Seq<char> {
    let d = decode_spec(v);
    "ESR_EL1: "@ + hex_text_padded(v) + "\n"@
    + "      Exception Class         (EC) : "@ + hex_text(d.class_code)
    + " - "@ + class_translation(d.exception_class) + "\n"@
    + "      Instr Specific Syndrome (ISS): "@ + hex_text(d.iss)
}

/// The line for general-purpose register `i`: two per row.
pub open spec fn gpr_text(i: usize, v: u64) -> Seq<char> {
    "      x"@ + index_text(i) + ": "@ + hex_text_padded(v)
    + if i % 2 == 0 { "  "@ } else { "\n"@ }
}

/// The dump of the first `n` registers of `gpr`.
pub open spec fn gprs_text(gpr: Seq<u64>, n: nat) -> Seq<char>
    decreases n,
{
    if n == 0 {
        Seq::empty()
    } else {
        gprs_text(gpr, (n - 1) as nat) + gpr_text((n - 1) as usize, gpr[n - 1])
    }
}

/// The fault-address line, present only when an address was sampled.
pub open spec fn far_text(far: Option<u64>) -> Seq<char> {
    match far {
        Some(a) => "FAR_EL1: "@ + hex_text_padded(a) + "\n"@,
        None => Seq::empty(),
    }
}

/// The full text for a captured context.
pub open spec fn context_text(c: ExceptionContext, far: Option<u64>) -> Seq<char> {
    esr_text(c.esr_el1.0) + "\n"@ + far_text(far)
    + spsr_text(c.spsr_el1.0) + "\n"@
    + "ELR_EL1: "@ + hex_text_padded(c.elr_el1) + "\n"@
    + "\n"@
    + "General purpose registers:\n"@
    + gprs_text(c.gpr@, 30)
    + "      lr : "@ + hex_text_padded(c.lr)
}

fn append_line(out: &mut String, label: &str, value: &str)
    ensures
        final(out)@ == old(out)@ + line_text(label@, value@),
{
    out.append(label);
    out.append(value);
    out.append("\n");
}

fn flag_str(b: bool) -> (r: &'static str)
    ensures
        r@ == flag_text(b),
{
    if b { "Set" } else { "Not set" }
}

fn mask_str(b: bool) -> (r: &'static str)
    ensures
        r@ == mask_text(b),
{
    if b { "Masked" } else { "Unmasked" }
}

impl SpsrEL1 {
    /// Whether the flag `f` is set in this value.
    pub fn is_set(&self, f: SpsrFlag) -> (r: bool)
        ensures
            r == bit_set(self.0, spsr_flag_bit(f)),
    {
        spsr_flag_set(self.0, f)
    }

    /// Appends the text for this value to `out`.
    pub fn fmt(&self, out: &mut String)
        ensures
            final(out)@ == old(out)@ + spsr_text(self.0),
    {
        let ghost start = out@;
        let v = self.0;
        append_line(out, "SPSR_EL1: ", fmt_hex_padded(v).as_str());
        self.fmt_flags(out);
        self.fmt_masks(out);
        out.append("      Illegal Execution State (IL): ");
        out.append(flag_str(spsr_flag_set(v, SpsrFlag::IllegalExecution)));
        reveal(spsr_text);
        assert(out@ == start + spsr_text(v));
    }

    fn fmt_flags(&self, out: &mut String)
        ensures
            final(out)@ == old(out)@ + spsr_flags_text(self.0),
    {
        let ghost start = out@;
        let v = self.0;
        out.append("      Flags:\n");
        append_line(out, "            Negative (N): ", flag_str(spsr_flag_set(v, SpsrFlag::Negative)));
        append_line(out, "            Zero     (Z): ", flag_str(spsr_flag_set(v, SpsrFlag::Zero)));
        append_line(out, "            Carry    (C): ", flag_str(spsr_flag_set(v, SpsrFlag::Carry)));
        append_line(out, "            Overflow (V): ", flag_str(spsr_flag_set(v, SpsrFlag::Overflow)));
        assert(out@ == start + spsr_flags_text(v));
    }

    fn fmt_masks(&self, out: &mut String)
        ensures
            final(out)@ == old(out)@ + spsr_masks_text(self.0),
    {
        let ghost start = out@;
        let v = self.0;
        out.append("      Exception handling state:\n");
        append_line(out, "            Debug  (D): ", mask_str(spsr_flag_set(v, SpsrFlag::Debug)));
        append_line(out, "            SError (A): ", mask_str(spsr_flag_set(v, SpsrFlag::SError)));
        append_line(out, "            IRQ    (I): ", mask_str(spsr_flag_set(v, SpsrFlag::Irq)));
        append_line(out, "            FIQ    (F): ", mask_str(spsr_flag_set(v, SpsrFlag::Fiq)));
        assert(out@ == start + spsr_masks_text(v));
    }
}

impl EsrEL1 {
    /// The exception class that this syndrome names.
    pub fn exception_class(&self) -> (r: ExceptionClass)
        ensures
            r == decode_spec(self.0).exception_class,
    {
        decode_syndrome(self.0).exception_class
    }

    /// Appends the text for this value to `out`.
    pub fn fmt(&self, out: &mut String)
        ensures
            final(out)@ == old(out)@ + esr_text(self.0),
    {
        let ghost start = out@;
        let d = decode_syndrome(self.0);
        out.append("ESR_EL1: ");
        out.append(fmt_hex_padded(self.0).as_str());
        out.append("\n");
        out.append("      Exception Class         (EC) : ");
        out.append(fmt_hex(d.class_code).as_str());
        out.append(" - ");
        let translation = match d.exception_class {
            ExceptionClass::DataAbortCurrentEL => "Data Abort, current EL",
            _ => "N/A",
        };
        out.append(translation);
        out.append("\n");
        out.append("      Instr Specific Syndrome (ISS): ");
        out.append(fmt_hex(d.iss).as_str());
        reveal(esr_text);
        assert(out@ == start + esr_text(self.0));
    }
}

impl ExceptionContext {
    /// The exception class recorded in this context's syndrome.
    pub fn exception_class(&self) -> (r: ExceptionClass)
        ensures
            r == decode_spec(self.esr_el1.0).exception_class,
    {
        self.esr_el1.exception_class()
    }

    /// The decoded syndrome of this context.
    pub fn decode(&self) -> (r: SyndromeDecode)
        ensures
            r == decode_spec(self.esr_el1.0),
    {
        decode_syndrome(self.esr_el1.0)
    }

    /// Whether the fault-address register holds an address for this trap.
    pub fn fault_address_valid(&self) -> (r: bool)
        ensures
            r == decode_spec(self.esr_el1.0).fault_address_valid,
    {
        decode_syndrome(self.esr_el1.0).fault_address_valid
    }

    /// Appends the full text for this context to `out`; `far` is the
    /// fault address sampled for it, if any.
    pub fn fmt(&self, far: Option<u64>, out: &mut String)
        ensures
            final(out)@ == old(out)@ + context_text(*self, far),
    {
        let ghost s0 = out@;
        self.esr_el1.fmt(out);
        out.append("\n");
        let ghost s1 = out@;
        match far {
            Some(a) => append_line(out, "FAR_EL1: ", fmt_hex_padded(a).as_str()),
            None => {},
        }
        let ghost s2 = out@;
        self.spsr_el1.fmt(out);
        out.append("\n");
        let ghost s3 = out@;
        append_line(out, "ELR_EL1: ", fmt_hex_padded(self.elr_el1).as_str());
        out.append("\n");
        out.append("General purpose registers:\n");
        self.fmt_gprs(out);
        out.append("      lr : ");
        out.append(fmt_hex_padded(self.lr).as_str());
        assert(s1 == s0 + (esr_text(self.esr_el1.0) + "\n"@));
        assert(s2 == s1 + far_text(far));
        assert(s3 == s2 + (spsr_text(self.spsr_el1.0) + "\n"@));
        assert(out@ == s0 + context_text(*self, far));
    }

    fn fmt_gprs(&self, out: &mut String)
        ensures
            final(out)@ == old(out)@ + gprs_text(self.gpr@, 30),
    {
        let ghost start = out@;
        let mut i: usize = 0;
        while i < GPR_COUNT
            invariant
                i <= GPR_COUNT,
                self.gpr@.len() == 30,
                out@ == start + gprs_text(self.gpr@, i as nat),
            decreases GPR_COUNT - i,
        {
            let ghost before = out@;
            out.append("      x");
            out.append(fmt_index(i).as_str());
            out.append(": ");
            out.append(fmt_hex_padded(self.gpr[i]).as_str());
            if i % 2 == 0 {
                out.append("  ");
            } else {
                out.append("\n");
            }
            assert(out@ == before + gpr_text(i, self.gpr@[i as int]));
            assert(gprs_text(self.gpr@, (i + 1) as nat)
                == gprs_text(self.gpr@, i as nat) + gpr_text(i, self.gpr@[i as int]));
            i = i + 1;
        }
    }
}

} // verus!
