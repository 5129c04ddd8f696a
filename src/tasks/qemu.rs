//! Booting an image on the emulated board.
use super::BinTarget;
use super::build_img::BuildPlan;
use vstd::prelude::*;

verus! {

/// How to boot.
#[derive(Debug)]
pub struct Args {
    pub target: BinTarget,
    /// Wait for a debugger on the default port.
    pub debug: bool,
    /// Attach the serial console to stdio rather than a pseudo-terminal.
    pub stdio: bool,
    /// The initial ramdisk.
    pub cpio: String,
    /// The device-tree blob.
    pub dtb: String,
}

/// A build followed by an emulator run.
#[derive(Debug)]
pub struct QemuPlan {
    pub build: BuildPlan,
    /// Arguments of `qemu-system-aarch64`.
    pub argv: Vec<String>,
}

/// The emulator arguments that boot `kernel` with `args`.
pub open spec fn qemu_argv(kernel: Seq<char>, args: Args) -> Seq<Seq<char>> {
    seq![
        "-M"@, "raspi3b"@,
        "-serial"@, "null"@,
        "-serial"@, if args.stdio { "stdio"@ } else { "pty"@ },
        "-display"@, "none"@,
        "-initrd"@, args.cpio@,
        "-dtb"@, args.dtb@,
        "-kernel"@, kernel,
    ] + if args.debug { seq!["-S"@, "-s"@] } else { Seq::empty() }
}

fn push_str(v: &mut Vec<String>, s: &str)
    ensures
        final(v)@.map_values(|a: String| a@) == old(v)@.map_values(|a: String| a@).push(s@),
{
    let ghost before = v@;
    v.push(String::from_str(s));
    assert(v@.map_values(|a: String| a@) =~= before.map_values(|a: String| a@).push(s@));
}

/// The emulator arguments that boot the image at `kernel_path` with `args`.
pub fn qemu_args(kernel_path: &str, args: &Args) -> (r: Vec<String>)
    ensures
        r@.map_values(|a: String| a@) == qemu_argv(kernel_path@, *args),
{
    let mut v: Vec<String> = Vec::new();
    push_str(&mut v, "-M");
    push_str(&mut v, "raspi3b");
    push_str(&mut v, "-serial");
    push_str(&mut v, "null");
    push_str(&mut v, "-serial");
    push_str(&mut v, if args.stdio { "stdio" } else { "pty" });
    push_str(&mut v, "-display");
    push_str(&mut v, "none");
    push_str(&mut v, "-initrd");
    push_str(&mut v, args.cpio.as_str());
    push_str(&mut v, "-dtb");
    push_str(&mut v, args.dtb.as_str());
    push_str(&mut v, "-kernel");
    push_str(&mut v, kernel_path);
    if args.debug {
        push_str(&mut v, "-S");
        push_str(&mut v, "-s");
    }
    assert(v@.map_values(|a: String| a@) =~= qemu_argv(kernel_path@, *args));
    v
}

} // verus!
