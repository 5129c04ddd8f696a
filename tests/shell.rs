use rpi_kernel::allocator::BumpAllocator;
use rpi_kernel::privilege::PrivilegeLevel;
use rpi_kernel::shell::{Cat, CatItem, CpioArchive, CpioFile, Exec, ExecOutcome, Hello, KeyAction, Ls, Shell, ShellCommand};
use rpi_kernel::transition::SimRegisters;
use rpi_kernel::words::split_whitespace;

fn archive() -> CpioArchive {
    CpioArchive {
        files: vec![
            CpioFile { filename: "hello.txt".into(), content: b"hi\n".to_vec(), address: 0x2000 },
            CpioFile { filename: "user-program".into(), content: vec![0xd5, 0x03], address: 0x3000 },
            CpioFile { filename: "hello.txt".into(), content: b"shadowed".to_vec(), address: 0x4000 },
        ],
    }
}

#[test]
fn words_split_on_any_white_space() {
    assert_eq!(split_whitespace("  cat  a.txt\tb\u{3000}c \n"), vec!["cat", "a.txt", "b", "c"]);
    assert!(split_whitespace("").is_empty());
    assert!(split_whitespace(" \t\r\n").is_empty());
    assert_eq!(split_whitespace("one"), vec!["one"]);
}

#[test]
fn ls_lists_every_file() {
    let cpio = archive();
    assert_eq!(Ls::new(&cpio).execute(), "hello.txt\nuser-program\nhello.txt\n");
    let empty = CpioArchive { files: Vec::new() };
    assert_eq!(Ls::new(&empty).execute(), "");
}

#[test]
fn cat_finds_first_match_or_reports() {
    let cpio = archive();
    let cat = Cat::new(&cpio);
    assert_eq!(cat.execute("   "), Err(String::from("Usage: cat <file>...")));
    assert_eq!(
        cat.execute("hello.txt missing user-program"),
        Ok(vec![
            CatItem::Content(0),
            CatItem::Missing(String::from("cat: missing: No such file or directory")),
            CatItem::Content(1),
        ])
    );
    assert_eq!(cpio.find("user-program"), Some(1));
    assert_eq!(cpio.find("nope"), None);
}

#[test]
fn exec_launches_named_program() {
    let cpio = archive();
    let exec = Exec::new(&cpio);
    assert!(matches!(exec.execute("", 0x1_0000), ExecOutcome::Usage(u) if u == "Usage: exec <program>"));
    assert!(matches!(exec.execute("ghost", 0x1_0000), ExecOutcome::NotFound(m) if m == "exec: ghost: No such file or directory"));
    match exec.execute(" user-program extra", 0x1_0000) {
        ExecOutcome::Launch(plan) => {
            assert_eq!(plan.elr, 0x3000);
            assert_eq!(plan.sp, 0x1_1000);
            let mut regs = SimRegisters::new(PrivilegeLevel::Kernel);
            regs.perform(&plan);
            assert_eq!(regs.current_el, PrivilegeLevel::User);
            assert_eq!(regs.pc, 0x3000);
            assert_eq!(regs.stack_pointer(), 0x1_1000);
        }
        other => panic!("unexpected outcome {:?}", other),
    }
}

#[test]
fn line_editing() {
    let mut sh = Shell::new();
    assert_eq!(sh.read_input('h'), KeyAction::Echo('h'));
    assert_eq!(sh.read_input('x'), KeyAction::Echo('x'));
    assert_eq!(sh.read_input('\x7f'), KeyAction::Erase);
    assert_eq!(sh.read_input('\u{1b}'), KeyAction::Ignore);
    assert_eq!(sh.read_input('é'), KeyAction::Ignore);
    for c in "elp".chars() {
        sh.read_input(c);
    }
    assert_eq!(sh.buf, "help");
    assert_eq!(sh.read_input('\r'), KeyAction::Submit);
    assert_eq!(sh.handle_input(), ShellCommand::Help);
    assert_eq!(sh.buf, "");
    assert_eq!(sh.read_input('\x08'), KeyAction::Ignore);
}

#[test]
fn command_dispatch() {
    let mut sh = Shell::new();
    for (line, cmd) in [
        ("  hello ", ShellCommand::Hello),
        ("reboot now", ShellCommand::Reboot),
        ("info", ShellCommand::Info),
        ("   ", ShellCommand::Empty),
        ("", ShellCommand::Empty),
        ("foo bar", ShellCommand::NotFound(String::from("foo: command not found"))),
        ("hello\tthere", ShellCommand::NotFound(String::from("hello\tthere: command not found"))),
    ] {
        sh.buf = String::from(line);
        assert_eq!(sh.handle_input(), cmd, "line {:?}", line);
    }
    assert_eq!(sh.help().len(), 4);
    assert_eq!(Hello.execute(), "Hello World!");
}

#[test]
fn bump_allocation() {
    let mut heap = BumpAllocator::new(0x1001, 0x1100);
    assert_eq!(heap.allocate(0x10, 0x10), Some(0x1010));
    assert_eq!(heap.allocate(1, 1), Some(0x1020));
    assert_eq!(heap.allocate(8, 8), Some(0x1028));
    assert_eq!(heap.allocate(0x100, 1), None);
    assert_eq!(heap.allocate(0xd0, 1), Some(0x1030));
    assert_eq!(heap.allocate(0, 1), Some(0x1100));
    assert_eq!(heap.allocate(1, 1), None);
    assert_eq!(heap.heap_start(), 0x1001);
    assert_eq!(heap.heap_end(), 0x1100);
    assert_eq!(heap.compute_alloc_region(4, 0x100), Some((0x1100, 0x1104)));
    assert!(!heap.is_region_valid(0x1100, 0x1104));
    let mut top = BumpAllocator::new(usize::MAX - 3, usize::MAX);
    assert_eq!(top.allocate(1, 16), None);
}
