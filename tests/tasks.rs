use rpi_kernel::tasks::build_img::{build_plan, Args as BuildArgs};
use rpi_kernel::tasks::push_kernel::{check_ack, forwards, image_size_field, size_message, Drain, DrainAction, DrainEvent, Error as PushError};
use rpi_kernel::tasks::qemu::{qemu_args, Args as QemuArgs};
use rpi_kernel::tasks::{cargo_args, join_path, parent_of, BinTarget, Error, TaskRunner};

#[test]
fn target_names() {
    assert_eq!(BinTarget::Kernel.as_str(), "kernel");
    assert_eq!(BinTarget::Uartload.as_str(), "uartload");
    assert_eq!(BinTarget::UserProgram.as_str(), "user-program");
    assert_eq!(BinTarget::Kernel.image_name(), "rpi3-kernel.img");
    assert_eq!(BinTarget::Uartload.image_name(), "kernel8.img");
    assert_eq!(BinTarget::UserProgram.image_name(), "user-program.img");
}

#[test]
fn runner_root_is_two_levels_up() {
    let r = TaskRunner::new("/work/repo/crates/xtask").unwrap();
    assert_eq!(r.root, "/work/repo");
    assert_eq!(r.release_dir(), "/work/repo/target/aarch64-unknown-none-softfloat/release");
    assert!(matches!(TaskRunner::new("/"), Err(Error::CouldNotDetermineRepositoryRoot)));
    assert!(matches!(TaskRunner::new("/x"), Err(Error::CouldNotDetermineRepositoryRoot)));
}

#[test]
fn build_plan_for_kernel() {
    let p = build_plan(&BuildArgs::new(BinTarget::Kernel, true), "/repo");
    assert_eq!(p.cargo_args, "rustc --package=kernel --target=aarch64-unknown-none-softfloat --profile=release-with-symbols");
    assert_eq!(p.rust_flags, "-C target-cpu=cortex-a53 -C link-arg=--library-path=/repo/crates/kernel -C link-arg=--script=kernel.ld -D warnings");
    assert_eq!(p.elf, "/repo/target/aarch64-unknown-none-softfloat/release-with-symbols/kernel");
    assert_eq!(p.image, "/repo/target/aarch64-unknown-none-softfloat/release-with-symbols/rpi3-kernel.img");
    let q = build_plan(&BuildArgs::new(BinTarget::Uartload, false), "/repo");
    assert_eq!(q.image, "/repo/target/aarch64-unknown-none-softfloat/release/kernel8.img");
}

#[test]
fn qemu_plan() {
    let runner = TaskRunner::new("/repo/crates/xtask").unwrap();
    let args = QemuArgs { target: BinTarget::Kernel, debug: true, stdio: false, cpio: "initramfs.cpio".into(), dtb: "board.dtb".into() };
    let plan = runner.run_qemu(&args).unwrap();
    assert_eq!(plan.build.cargo_args, "rustc --package=kernel --target=aarch64-unknown-none-softfloat --profile=release-with-symbols");
    assert_eq!(
        plan.argv,
        vec!["-M", "raspi3b", "-serial", "null", "-serial", "pty", "-display", "none", "-initrd", "initramfs.cpio",
            "-dtb", "board.dtb", "-kernel", "/repo/target/aarch64-unknown-none-softfloat/release/rpi3-kernel.img", "-S", "-s"]
    );
    let user = QemuArgs { target: BinTarget::UserProgram, debug: false, stdio: true, cpio: String::new(), dtb: String::new() };
    assert!(matches!(runner.run_qemu(&user), Err(Error::CannotRunUserProgramInQemu)));
    let plain = qemu_args("k.img", &QemuArgs { target: BinTarget::Uartload, debug: false, stdio: true, cpio: "c".into(), dtb: "d".into() });
    assert_eq!(plain.len(), 14);
    assert_eq!(plain[5], "stdio");
}

#[test]
fn check_and_push_plans() {
    let runner = TaskRunner::new("/repo/crates/xtask").unwrap();
    assert_eq!(runner.run_check(), vec!["fmt --all --check", "check --all-features", "clippy --all-features --no-deps -- -D warnings"]);
    let push = runner.run_push_kernel();
    assert_eq!(push.cargo_args, "rustc --package=kernel --target=aarch64-unknown-none-softfloat --profile=release");
    assert_eq!(cargo_args("clippy --all-features --no-deps -- -D warnings").unwrap(), vec!["clippy", "--all-features", "--no-deps", "--", "-D", "warnings"]);
    assert_eq!(cargo_args("a 'b c'").unwrap(), vec!["a", "b c"]);
    assert!(cargo_args("unterminated 'quote").is_none());
}

#[test]
fn push_protocol() {
    assert_eq!(image_size_field(0x1234), Ok(0x1234));
    assert_eq!(image_size_field(u32::MAX as u64), Ok(u32::MAX));
    assert_eq!(image_size_field(1 << 32), Err(PushError::KernelImageTooLarge(1 << 32)));
    assert_eq!(size_message(0x1234_5678), vec![0x78, 0x56, 0x34, 0x12]);
    assert_eq!(check_ack(b"OK\r\n"), Ok(()));
    assert_eq!(check_ack(b"NO"), Err(PushError::NoOkReceived));
    assert!(forwards(b'a'));
    assert!(!forwards(3));
}

#[test]
fn drain_gives_up_after_fourth_timeout() {
    let mut d = Drain::new();
    assert_eq!(d.step(DrainEvent::Data(5)), DrainAction::Echo(5));
    assert_eq!(d.step(DrainEvent::Data(0)), DrainAction::Retry);
    assert_eq!(d.step(DrainEvent::TimedOut), DrainAction::Retry);
    assert_eq!(d.step(DrainEvent::TimedOut), DrainAction::Retry);
    assert_eq!(d.step(DrainEvent::TimedOut), DrainAction::Retry);
    assert_eq!(d.step(DrainEvent::TimedOut), DrainAction::Done);
    assert_eq!(d.step(DrainEvent::Failed), DrainAction::Fail);
}

#[test]
fn unix_path_parents() {
    assert_eq!(parent_of("/a/b/c"), Some("/a/b"));
    assert_eq!(parent_of("/a/b//c/"), Some("/a/b"));
    assert_eq!(parent_of("/a"), Some("/"));
    assert_eq!(parent_of("//a"), Some("/"));
    assert_eq!(parent_of("a"), Some(""));
    assert_eq!(parent_of("/"), None);
    assert_eq!(parent_of(""), None);
    assert_eq!(join_path("/repo", "target"), "/repo/target");
    assert_eq!(join_path("/repo/", "target"), "/repo/target");
    assert_eq!(join_path("", "target"), "target");
}
