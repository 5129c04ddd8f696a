//! The interrupt mask state: which asynchronous event classes are deferred.
use crate::frame::mask_text;
use crate::regs::{bit_set, daif_flag_set, mask_bit, MaskClass};
use vstd::prelude::*;

verus! {

/// Whether `c` is masked in the DAIF value `daif`.
pub open spec fn masked(daif: u64, c: MaskClass) -> bool {
    bit_set(daif, mask_bit(c))
}

/// Whether the event class `c` is masked in the DAIF value `daif`.
pub fn is_masked(daif: u64, c: MaskClass) -> (r: bool)
    ensures
        r == masked(daif, c),
{
    daif_flag_set(daif, c)
}

/// One line of the mask-state listing: the class name right-aligned in 16
/// characters, a colon, and its state.
pub open spec fn mask_line(name: Seq<char>, m: bool) -> Seq<char> {
    name + ": "@ + mask_text(m) + "\n"@
}

/// The listing of all four classes for the DAIF value `daif`.
pub open spec fn mask_state_text(daif: u64) -> Seq<char> {
    mask_line("           Debug"@, masked(daif, MaskClass::Debug))
    + mask_line("          SError"@, masked(daif, MaskClass::SError))
    + mask_line("             IRQ"@, masked(daif, MaskClass::Irq))
    + mask_line("             FIQ"@, masked(daif, MaskClass::Fiq))
}

fn append_mask_line(out: &mut String, name: &str, daif: u64, c: MaskClass)
    ensures
        final(out)@ == old(out)@ + mask_line(name@, masked(daif, c)),
{
    out.append(name);
    out.append(": ");
    if is_masked(daif, c) {
        out.append("Masked");
    } else {
        out.append("Unmasked");
    }
    out.append("\n");
}

/// The mask-state listing for the DAIF value `daif`, one line per class.
pub fn mask_state(daif: u64) -> (r: String)
    ensures
        r@ == mask_state_text(daif),
{
    let mut out = String::new();
    append_mask_line(&mut out, "           Debug", daif, MaskClass::Debug);
    append_mask_line(&mut out, "          SError", daif, MaskClass::SError);
    append_mask_line(&mut out, "             IRQ", daif, MaskClass::Irq);
    append_mask_line(&mut out, "             FIQ", daif, MaskClass::Fiq);
    out
}

} // verus!
