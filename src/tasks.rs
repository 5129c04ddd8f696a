//! The host-side build tool: which artefacts it builds, and the commands it
//! runs for each task. Running the commands is left to the caller.
pub mod build_img;
pub mod push_kernel;
pub mod qemu;

use vstd::prelude::*;

verus! {

/// The target triple of every image.
pub const TARGET_TRIPLE: &'static str = "aarch64-unknown-none-softfloat";

/// Why a task cannot run.
#[derive(Debug)]
pub enum Error {
    /// Pushing the kernel failed.
    PushKernelFailed(push_kernel::Error),
    /// The manifest directory has no grandparent.
    CouldNotDetermineRepositoryRoot,
    /// The named program exited unsuccessfully.
    CommandFailed(&'static str),
    /// The user program does not boot on the emulated board.
    CannotRunUserProgramInQemu,
}

/// A binary of the workspace that can be built into an image.
#[derive(Clone, Copy, Debug, PartialEq, Eq, Structural)]
pub enum BinTarget {
    Kernel,
    Uartload,
    UserProgram,
}

/// The package name of a target.
pub open spec fn target_name(t: BinTarget) -> Seq<char> {
    match t {
        BinTarget::Kernel => "kernel"@,
        BinTarget::Uartload => "uartload"@,
        BinTarget::UserProgram => "user-program"@,
    }
}

/// The image file name of a target.
pub open spec fn target_image(t: BinTarget) -> Seq<char> {
    match t {
        BinTarget::Kernel => "rpi3-kernel.img"@,
        BinTarget::Uartload => "kernel8.img"@,
        BinTarget::UserProgram => "user-program.img"@,
    }
}

impl BinTarget {
    /// The package name of this target.
    pub fn as_str(&self) -> (r: &'static str)
        ensures
            r@ == target_name(*self),
    {
        match self {
            BinTarget::Kernel => "kernel",
            BinTarget::Uartload => "uartload",
            BinTarget::UserProgram => "user-program",
        }
    }

    /// The image file name of this target.
    pub fn image_name(&self) -> (r: &'static str)
        ensures
            r@ == target_image(*self),
    {
        match self {
            BinTarget::Kernel => "rpi3-kernel.img",
            BinTarget::Uartload => "kernel8.img",
            BinTarget::UserProgram => "user-program.img",
        }
    }
}

/// Index just past the last character of `p` that is not a trailing `/`.
pub open spec fn trimmed_end(p: Seq<char>) -> nat
    decreases p.len(),
{
    if p.len() > 0 && p.last() == '/' { trimmed_end(p.drop_last()) } else { p.len() }
}

/// Index of the last `/` before `end`, if any.
pub open spec fn last_slash(p: Seq<char>, end: nat) -> Option<nat>
    decreases end,
{
    if end == 0 {
        None
    } else if p[end - 1] == '/' {
        Some((end - 1) as nat)
    } else {
        last_slash(p, (end - 1) as nat)
    }
}

/// The parent of the `/`-separated path `p`: `p` without its last
/// component and the separators before it (trailing separators are
/// ignored), the root `/` when only separators precede that component;
/// `None` for the root and for the empty path.
pub open spec fn path_parent(p: Seq<char>) -> Option<Seq<char>> {
    let end = trimmed_end(p);
    if end == 0 {
        None
    } else {
        match last_slash(p, end) {
            None => Some(Seq::empty()),
            Some(i) => Some(p.subrange(0, (if trimmed_end(p.subrange(0, i as int)) == 0 { 1 } else {
                trimmed_end(p.subrange(0, i as int)) as int
            }))),
        }
    }
}

/// The relative path `rel` below `base`, with one separator between them.
pub open spec fn path_join(base: Seq<char>, rel: Seq<char>) -> Seq<char> {
    if base.len() == 0 {
        rel
    } else if base.last() == '/' {
        base + rel
    } else {
        base + "/"@ + rel
    }
}

fn trim_end_index(p: &str, end: usize) -> (r: usize)
    requires
        end <= p@.len(),
    ensures
        r == trimmed_end(p@.subrange(0, end as int)),
        r <= end,
    decreases end,
{
    if end > 0 && p.get_char(end - 1) == '/' {
        assert(p@.subrange(0, end as int).drop_last() =~= p@.subrange(0, end as int - 1));
        trim_end_index(p, end - 1)
    } else {
        end
    }
}

fn last_slash_index(p: &str, end: usize) -> (r: Option<usize>)
    requires
        end <= p@.len(),
    ensures
        r matches Some(i) ==> last_slash(p@, end as nat) == Some(i as nat) && i < end,
        r is None ==> last_slash(p@, end as nat) is None,
    decreases end,
{
    if end == 0 {
        None
    } else if p.get_char(end - 1) == '/' {
        Some(end - 1)
    } else {
        last_slash_index(p, end - 1)
    }
}

/// The parent of the `/`-separated path `p`.
pub fn parent_of<'a>(p: &'a str) -> (r: Option<&'a str>)
    ensures
        r matches Some(s) ==> path_parent(p@) == Some(s@),
        r is None ==> path_parent(p@) is None,
{
    let n = p.unicode_len();
    assert(p@.subrange(0, n as int) =~= p@);
    let end = trim_end_index(p, n);
    if end == 0 {
        return None;
    }
    match last_slash_index(p, end) {
        None => Some(p.substring_char(0, 0)),
        Some(i) => {
            let e = trim_end_index(p, i);
            let keep = if e == 0 { 1 } else { e };
            Some(p.substring_char(0, keep))
        },
    }
}

/// The relative path `rel` below `base`.
pub fn join_path(base: &str, rel: &str) -> (r: String)
    ensures
        r@ == path_join(base@, rel@),
{
    let n = base.unicode_len();
    let mut r = String::from_str(base);
    if n > 0 && base.get_char(n - 1) != '/' {
        r.append("/");
    }
    r.append(rel);
    r
}

/// What `shlex::split` returns for a command line.
pub uninterp spec fn shell_words(s: Seq<char>) -> Option<Seq<Seq<char>>>;

/// Relies on `shlex::split`: the words of a POSIX-shell command line, or
/// `None` when the line is erroneous (an unterminated quote or escape).
#[verifier::external_body]
fn split_words(s: &str) -> (r: Option<Vec<String>>)
    ensures
        r matches Some(v) ==> shell_words(s@) == Some(v@.map_values(|w: String| w@)),
        r is None ==> shell_words(s@) is None,
{
    shlex::split(s)
}

/// The argument list of a cargo invocation, `None` when the line does not
/// split into words.
pub fn cargo_args(line: &str) -> (r: Option<Vec<String>>)
    ensures
        r matches Some(v) ==> shell_words(line@) == Some(v@.map_values(|w: String| w@)),
        r is None ==> shell_words(line@) is None,
{
    split_words(line)
}

/// The cargo invocations of the format-and-lint check, in order.
pub open spec fn check_commands() -> Seq<Seq<char>> {
    seq![
        "fmt --all --check"@,
        "check --all-features"@,
        "clippy --all-features --no-deps -- -D warnings"@,
    ]
}

/// Runs the build tool's tasks from the repository root.
#[derive(Debug)]
pub struct TaskRunner {
    pub root: String,
}

/// The release directory below the repository root `root`.
pub open spec fn release_dir_spec(root: Seq<char>) -> Seq<char> {
    path_join(root, "target/"@ + TARGET_TRIPLE@ + "/release"@)
}

impl TaskRunner {
    /// A runner rooted two levels above `manifest_dir`, the build tool's
    /// own manifest directory.
    pub fn new(manifest_dir: &str) -> (r: Result<TaskRunner, Error>)
        ensures
            r matches Ok(t) ==> path_parent(manifest_dir@) matches Some(p) && path_parent(p) == Some(t.root@),
            r matches Err(e) ==> e is CouldNotDetermineRepositoryRoot && (path_parent(manifest_dir@) matches Some(p)
                ==> path_parent(p) is None),
            r is Err <==> (path_parent(manifest_dir@) is None || (path_parent(manifest_dir@) matches Some(p)
                && path_parent(p) is None)),
    {
        match parent_of(manifest_dir) {
            Some(p) => match parent_of(p) {
                Some(root) => Ok(TaskRunner { root: String::from_str(root) }),
                None => Err(Error::CouldNotDetermineRepositoryRoot),
            },
            None => Err(Error::CouldNotDetermineRepositoryRoot),
        }
    }

    /// The cargo invocations of the check task, in order.
    pub fn run_check(&self) -> (r: Vec<&'static str>)
        ensures
            r@.map_values(|s: &str| s@) == check_commands(),
    {
        let mut v: Vec<&'static str> = Vec::new();
        v.push("fmt --all --check");
        v.push("check --all-features");
        v.push("clippy --all-features --no-deps -- -D warnings");
        assert(v@.map_values(|s: &str| s@) =~= check_commands());
        v
    }

    /// The plan of the build task for `args`.
    pub fn run_build(&self, args: &build_img::Args) -> (r: build_img::BuildPlan)
        ensures
            r@ == build_img::build_plan_spec(*args, self.root@),
    {
        build_img::build_plan(args, self.root.as_str())
    }

    /// The plan of the emulator task: build the image (with symbols when
    /// debugging), then boot it. The user program cannot be booted.
    pub fn run_qemu(&self, args: &qemu::Args) -> (r: Result<qemu::QemuPlan, Error>)
        ensures
            args.target == BinTarget::UserProgram <==> r is Err,
            r matches Err(e) ==> e is CannotRunUserProgramInQemu,
            r matches Ok(p) ==> p.build@ == build_img::build_plan_spec(
                build_img::Args { target: args.target, with_symbol: args.debug }, self.root@)
                && p.argv@.map_values(|a: String| a@) == qemu::qemu_argv(
                    path_join(release_dir_spec(self.root@), target_image(args.target)), *args),
    {
        if args.target == BinTarget::UserProgram {
            return Err(Error::CannotRunUserProgramInQemu);
        }
        let build = self.run_build(&build_img::Args::new(args.target, args.debug));
        let dir = self.release_dir();
        let kernel_path = join_path(dir.as_str(), args.target.image_name());
        let argv = qemu::qemu_args(kernel_path.as_str(), args);
        Ok(qemu::QemuPlan { build, argv })
    }

    /// The build that precedes pushing the kernel: the kernel image,
    /// without symbols.
    pub fn run_push_kernel(&self) -> (r: build_img::BuildPlan)
        ensures
            r@ == build_img::build_plan_spec(build_img::Args { target: BinTarget::Kernel, with_symbol: false }, self.root@),
    {
        self.run_build(&build_img::Args::new(BinTarget::Kernel, false))
    }

    /// The directory that release images are written to.
    pub fn release_dir(&self) -> (r: String)
        ensures
            r@ == release_dir_spec(self.root@),
    {
        let mut rel = String::from_str("target/");
        rel.append(TARGET_TRIPLE);
        rel.append("/release");
        join_path(self.root.as_str(), rel.as_str())
    }
}

} // verus!
