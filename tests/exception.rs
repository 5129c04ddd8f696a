use rpi_kernel::frame::{EsrEL1, ExceptionContext, SpsrEL1};
use rpi_kernel::mask::{is_masked, mask_state};
use rpi_kernel::privilege::{current_privilege_level, PrivilegeLevel};
use rpi_kernel::regs::{Descent, MaskClass, SpsrFlag};
use rpi_kernel::report::{deliver_trap, trap_message, Reporter};
use rpi_kernel::syndrome::{decode_syndrome, ExceptionClass};
use rpi_kernel::transition::{
    transition, transition_from_el1_to_el0, transition_from_el2_to_el1, SimRegisters,
};
use rpi_kernel::vector::{route, slot_offset, Handler, TrapEventClass, TrapOrigin};

const ALL_MASKS: [MaskClass; 4] = [MaskClass::Debug, MaskClass::SError, MaskClass::Irq, MaskClass::Fiq];
const ORIGINS: [TrapOrigin; 4] = [
    TrapOrigin::CurrentElSp0,
    TrapOrigin::CurrentElSpx,
    TrapOrigin::LowerAarch64,
    TrapOrigin::LowerAarch32,
];
const CLASSES: [TrapEventClass; 4] = [
    TrapEventClass::Synchronous,
    TrapEventClass::Irq,
    TrapEventClass::Fiq,
    TrapEventClass::SError,
];

fn context(esr: u64) -> ExceptionContext {
    let mut gpr = [0u64; 30];
    for (i, r) in gpr.iter_mut().enumerate() {
        *r = i as u64;
    }
    ExceptionContext { gpr, lr: 0x1234, elr_el1: 0x8_0000, spsr_el1: SpsrEL1(0x3c5), esr_el1: EsrEL1(esr) }
}

fn booted_kernel() -> SimRegisters {
    let mut regs = SimRegisters::new(PrivilegeLevel::Hypervisor);
    let plan = transition_from_el2_to_el1(0x8000_0000, 0x8_0000);
    regs.perform(&plan);
    regs.install_vector_table(0x8_1000);
    regs
}

#[test]
fn masks_after_every_descent_are_all_set() {
    let mut regs = SimRegisters::new(PrivilegeLevel::Hypervisor);
    for c in ALL_MASKS {
        assert!(!regs.query(c));
    }
    regs.perform(&transition(PrivilegeLevel::Hypervisor, PrivilegeLevel::Kernel, 0x4000, 0x100));
    for c in ALL_MASKS {
        assert!(regs.query(c));
    }
    regs.daif = 0;
    regs.perform(&transition(PrivilegeLevel::Kernel, PrivilegeLevel::User, 0x2000, 0x200));
    for c in ALL_MASKS {
        assert!(regs.query(c));
    }
}

#[test]
fn hypervisor_to_kernel_lands_at_entry_on_stack() {
    let mut regs = SimRegisters::new(PrivilegeLevel::Hypervisor);
    let plan = transition(PrivilegeLevel::Hypervisor, PrivilegeLevel::Kernel, 0x7_fff0, 0x8_0000);
    assert_eq!(plan.descent, Descent::HypervisorToKernel);
    assert_eq!(plan.hcr_el2, Some(0x8000_0000));
    assert_eq!(plan.spsr, 0x3c5);
    regs.perform(&plan);
    assert_eq!(regs.pc, 0x8_0000);
    assert_eq!(regs.current_el, PrivilegeLevel::Kernel);
    assert_eq!(regs.stack_pointer(), 0x7_fff0);
    assert_eq!(regs.hcr_el2, 0x8000_0000);
}

#[test]
fn boot_descent_end_to_end() {
    let entry = 0x8_2468;
    let mut regs = SimRegisters::new(PrivilegeLevel::Hypervisor);
    regs.perform(&transition_from_el2_to_el1(0x8000_0000, entry));
    assert_eq!(regs.pc, entry);
    assert_eq!(regs.current_el, PrivilegeLevel::Kernel);
    assert_eq!(regs.stack_pointer(), 0x8000_0000);
    let (level, name) = current_privilege_level(regs.current_el_raw());
    assert_eq!(level, PrivilegeLevel::Kernel);
    assert_eq!(name, "EL1");
}

#[test]
fn kernel_to_user_launch() {
    let mut regs = booted_kernel();
    let plan = transition_from_el1_to_el0(0x9000, 0x20_0000);
    assert_eq!(plan.hcr_el2, None);
    assert_eq!(plan.spsr, 0x3c0);
    regs.perform(&plan);
    assert_eq!(regs.current_el, PrivilegeLevel::User);
    assert_eq!(regs.pc, 0x20_0000);
    assert_eq!(regs.stack_pointer(), 0x9000);
    assert!(regs.sp_sel_el0);
}

#[test]
fn decode_data_abort_and_unclassified() {
    let d = decode_syndrome(0x25 << 26);
    assert_eq!(d.exception_class, ExceptionClass::DataAbortCurrentEL);
    assert!(d.fault_address_valid);
    assert_eq!(d.class_code, 0x25);

    let u = decode_syndrome(0x02 << 26 | 0x17);
    assert_eq!(u.exception_class, ExceptionClass::Unclassified);
    assert!(!u.fault_address_valid);
    assert_eq!(u.iss, 0x17);

    let mut regs = booted_kernel();
    regs.far_el1 = 0xdead;
    let mut reporter = Reporter::new();
    let out = deliver_trap(&mut regs, &mut reporter, TrapOrigin::CurrentElSpx, TrapEventClass::Synchronous, &context(0x02 << 26));
    assert_eq!(out.fault_address, None);
    assert!(!regs.far_sampled);
    assert!(!out.diagnostic.unwrap().contains("FAR_EL1"));
}

#[test]
fn decode_every_fault_address_class() {
    let with_address = [0x20u64, 0x21, 0x22, 0x24, 0x25, 0x34, 0x35];
    for code in 0u64..64 {
        let d = decode_syndrome(code << 26);
        assert_eq!(d.class_code, code);
        assert_eq!(d.fault_address_valid, with_address.contains(&code), "code {:#x}", code);
    }
    assert_eq!(decode_syndrome(0x15 << 26).exception_class, ExceptionClass::Svc64);
    assert_eq!(decode_syndrome(0x3c << 26).exception_class, ExceptionClass::Brk64);
    assert_eq!(decode_syndrome(0x00).exception_class, ExceptionClass::Unknown);
    assert_eq!(decode_syndrome(0x3f << 26).exception_class, ExceptionClass::Unclassified);
    assert_eq!(decode_syndrome(0x1ff_ffff).iss, 0x1ff_ffff);
    assert_eq!(decode_syndrome(u64::MAX).iss, 0x1ff_ffff);
}

#[test]
fn dispatch_matrix_routes_each_pair() {
    let mut seen: Vec<Handler> = Vec::new();
    for o in ORIGINS {
        for c in CLASSES {
            let h = route(o, c);
            assert!(!seen.contains(&h));
            seen.push(h);
            assert_eq!(h.is_fatal_stub(), o == TrapOrigin::CurrentElSp0);
        }
    }
    assert_eq!(seen.len(), 16);
    assert_eq!(route(TrapOrigin::LowerAarch64, TrapEventClass::Irq), Handler::LowerAarch64Irq);
    assert_eq!(route(TrapOrigin::CurrentElSpx, TrapEventClass::SError).kind(), "current_elx_serror");
    assert_eq!(slot_offset(TrapOrigin::CurrentElSp0, TrapEventClass::Synchronous), 0x000);
    assert_eq!(slot_offset(TrapOrigin::LowerAarch64, TrapEventClass::Fiq), 0x500);
    assert_eq!(slot_offset(TrapOrigin::LowerAarch32, TrapEventClass::SError), 0x780);
}

#[test]
fn sp0_slots_are_fatal_whatever_the_syndrome() {
    for c in CLASSES {
        for esr in [0u64, 0x25 << 26, 0x22 << 26, u64::MAX] {
            let mut regs = booted_kernel();
            let mut reporter = Reporter::new();
            let out = deliver_trap(&mut regs, &mut reporter, TrapOrigin::CurrentElSp0, c, &context(esr));
            assert_eq!(out.diagnostic.unwrap(), "Should not be here. Use of SP_EL0 in EL1 is not supported.");
            assert_eq!(out.fault_address, None);
            assert!(!regs.far_sampled);
        }
    }
}

#[test]
fn second_report_halts_without_formatting() {
    let mut regs = booted_kernel();
    let mut reporter = Reporter::new();
    let first = deliver_trap(&mut regs, &mut reporter, TrapOrigin::CurrentElSpx, TrapEventClass::Synchronous, &context(0x25 << 26));
    let second = deliver_trap(&mut regs, &mut reporter, TrapOrigin::CurrentElSpx, TrapEventClass::Synchronous, &context(0x25 << 26));
    assert!(first.diagnostic.is_some());
    assert!(second.diagnostic.is_none());
    assert!(reporter.in_progress);

    let mut latch = Reporter::new();
    assert!(latch.panic_prevent_reenter());
    assert!(!latch.panic_prevent_reenter());
    assert_eq!(latch.report(String::from("x")), None);
}

#[test]
fn pc_alignment_fault_reports_sampled_address() {
    let mut regs = booted_kernel();
    regs.far_el1 = 0xdead_beef;
    let mut reporter = Reporter::new();
    let out = deliver_trap(&mut regs, &mut reporter, TrapOrigin::LowerAarch64, TrapEventClass::Synchronous, &context(0x22 << 26));
    assert_eq!(out.decode.exception_class, ExceptionClass::PCAlignmentFault);
    assert!(out.decode.fault_address_valid);
    assert_eq!(out.fault_address, Some(0xdead_beef));
    assert!(regs.far_sampled);
    let text = out.diagnostic.unwrap();
    assert!(text.starts_with("CPU Exception! (exception kind: 'lower_aarch64_synchronous')\n\n"));
    assert!(text.contains("\nFAR_EL1: 0x000000deadbeef\n"));
}

#[test]
fn syndrome_text() {
    let mut out = String::new();
    EsrEL1(0x9600_0045).fmt(&mut out);
    assert_eq!(
        out,
        "ESR_EL1: 0x00000096000045\n      Exception Class         (EC) : 0x25 - Data Abort, current EL\n      Instr Specific Syndrome (ISS): 0x45"
    );
    let mut other = String::new();
    EsrEL1(0x5600_0000).fmt(&mut other);
    assert!(other.ends_with("(EC) : 0x15 - N/A\n      Instr Specific Syndrome (ISS): 0x0"));
}

#[test]
fn saved_state_text() {
    let mut out = String::new();
    SpsrEL1(0x6010_03c5 & !0x100).fmt(&mut out);
    let expected = "SPSR_EL1: 0x000000601002c5\n      Flags:\n            Negative (N): Not set\n            Zero     (Z): Set\n            Carry    (C): Set\n            Overflow (V): Not set\n      Exception handling state:\n            Debug  (D): Masked\n            SError (A): Unmasked\n            IRQ    (I): Masked\n            FIQ    (F): Masked\n      Illegal Execution State (IL): Set";
    assert_eq!(out, expected);
    assert!(SpsrEL1(0x8000_0000).is_set(SpsrFlag::Negative));
    assert!(!SpsrEL1(0x8000_0000).is_set(SpsrFlag::Zero));
}

#[test]
fn context_text_layout() {
    let ctx = context(0x2 << 26);
    assert!(!ctx.fault_address_valid());
    assert_eq!(ctx.exception_class(), ExceptionClass::Unclassified);
    let mut out = String::new();
    ctx.fmt(None, &mut out);
    assert!(out.contains("\nELR_EL1: 0x00000000080000\n\nGeneral purpose registers:\n"));
    assert!(out.contains("      x0 : 0x00000000000000        x1 : 0x00000000000001\n"));
    assert!(out.contains("      x28: 0x0000000000001c        x29: 0x0000000000001d\n"));
    assert!(out.ends_with("      lr : 0x00000000001234"));
    assert!(!out.contains("FAR_EL1"));
    let mut with_far = String::new();
    ctx.fmt(Some(0x42), &mut with_far);
    assert!(with_far.contains("FAR_EL1: 0x00000000000042\n"));
    let msg = trap_message(Handler::CurrentElxIrq, &ctx, None);
    assert_eq!(msg, format!("CPU Exception! (exception kind: 'current_elx_irq')\n\n{}", out));
}

#[test]
fn mask_state_listing() {
    assert_eq!(
        mask_state(0x3c0),
        "           Debug: Masked\n          SError: Masked\n             IRQ: Masked\n             FIQ: Masked\n"
    );
    assert_eq!(
        mask_state(0x080),
        "           Debug: Unmasked\n          SError: Unmasked\n             IRQ: Masked\n             FIQ: Unmasked\n"
    );
    assert!(is_masked(0x200, MaskClass::Debug));
    assert!(!is_masked(0x200, MaskClass::Fiq));
}

#[test]
fn privilege_level_read_back() {
    assert_eq!(current_privilege_level(0x0), (PrivilegeLevel::User, "EL0"));
    assert_eq!(current_privilege_level(0x4), (PrivilegeLevel::Kernel, "EL1"));
    assert_eq!(current_privilege_level(0x8), (PrivilegeLevel::Hypervisor, "EL2"));
    assert_eq!(current_privilege_level(0xc), (PrivilegeLevel::Unknown, "Unknown"));
    assert_eq!(current_privilege_level(0x3).0, PrivilegeLevel::User);
}

#[test]
fn vector_install_synchronizes() {
    let mut regs = SimRegisters::new(PrivilegeLevel::Kernel);
    assert!(!regs.vector_synced);
    regs.install_vector_table(0x8_0800);
    assert_eq!(regs.vbar_el1, 0x8_0800);
    assert!(regs.vector_synced);
}
