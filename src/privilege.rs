//! Hardware privilege tiers.
use crate::regs::read_current_el;
use vstd::prelude::*;

verus! {

/// A hardware privilege tier (exception level).
#[derive(Clone, Copy, Debug, PartialEq, Eq, Structural)]
pub enum PrivilegeLevel {
    /// EL0.
    User,
    /// EL1.
    Kernel,
    /// EL2.
    Hypervisor,
    /// A read-back that names none of the tiers above.
    Unknown,
}

/// The tier named by a 2-bit exception-level number.
pub open spec fn level_of_el(el: u64) -> PrivilegeLevel {
    if el == 0 {
        PrivilegeLevel::User
    } else if el == 1 {
        PrivilegeLevel::Kernel
    } else if el == 2 {
        PrivilegeLevel::Hypervisor
    } else {
        PrivilegeLevel::Unknown
    }
}

/// The short name printed for a tier.
pub open spec fn level_name(l: PrivilegeLevel) -> Seq<char> {
    match l {
        PrivilegeLevel::Hypervisor => "EL2"@,
        PrivilegeLevel::Kernel => "EL1"@,
        PrivilegeLevel::User => "EL0"@,
        PrivilegeLevel::Unknown => "Unknown"@,
    }
}

/// Whether `to` is the tier immediately below `from`.
pub open spec fn is_descent(from: PrivilegeLevel, to: PrivilegeLevel) -> bool {
    (from == PrivilegeLevel::Hypervisor && to == PrivilegeLevel::Kernel)
    || (from == PrivilegeLevel::Kernel && to == PrivilegeLevel::User)
}

/// The tier and its name, from a raw CurrentEL value (the level sits in bits 3..2).
pub fn current_privilege_level(current_el: u64) -> (r: (PrivilegeLevel, &'static str))
    ensures
        r.0 == level_of_el((current_el >> 2u64) & 3u64),
        r.1@ == level_name(r.0),
{
    let el = read_current_el(current_el);
    if el == 2 {
        (PrivilegeLevel::Hypervisor, "EL2")
    } else if el == 1 {
        (PrivilegeLevel::Kernel, "EL1")
    } else if el == 0 {
        (PrivilegeLevel::User, "EL0")
    } else {
        (PrivilegeLevel::Unknown, "Unknown")
    }
}

} // verus!
