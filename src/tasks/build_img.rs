//! Building a binary and stripping it into a flat image.
use super::{join_path, path_join, target_image, target_name, BinTarget, TARGET_TRIPLE};
use vstd::prelude::*;

verus! {

/// What to build.
#[derive(Clone, Copy, Debug, PartialEq, Eq)]
pub struct Args {
    pub target: BinTarget,
    pub with_symbol: bool,
}

impl Args {
    pub fn new(target: BinTarget, with_symbol: bool) -> (r: Args)
        ensures
            r == (Args { target, with_symbol }),
    {
        Args { target, with_symbol }
    }
}

/// The commands of one build.
#[derive(Debug)]
pub struct BuildPlan {
    /// Arguments of `cargo` (one command line).
    pub cargo_args: String,
    /// Value of `RUSTFLAGS` for that invocation.
    pub rust_flags: String,
    /// The linked binary.
    pub elf: String,
    /// The flat image produced from it.
    pub image: String,
}

/// The text of a [`BuildPlan`].
pub struct BuildPlanView {
    pub cargo_args: Seq<char>,
    pub rust_flags: Seq<char>,
    pub elf: Seq<char>,
    pub image: Seq<char>,
}

impl View for BuildPlan {
    type V = BuildPlanView;

    open spec fn view(&self) -> BuildPlanView {
        BuildPlanView {
            cargo_args: self.cargo_args@,
            rust_flags: self.rust_flags@,
            elf: self.elf@,
            image: self.image@,
        }
    }
}

/// The cargo profile of a build.
pub open spec fn profile_name(with_symbol: bool) -> Seq<char> {
    if with_symbol { "release-with-symbols"@ } else { "release"@ }
}

/// The output directory of a build with profile `profile` below `root`.
pub open spec fn output_dir(root: Seq<char>, profile: Seq<char>) -> Seq<char> {
    path_join(root, "target/"@ + TARGET_TRIPLE@ + "/"@ + profile)
}

/// The build plan for `args` in the repository rooted at `root`.
pub open spec fn build_plan_spec(args: Args, root: Seq<char>) -> BuildPlanView {
    let name = target_name(args.target);
    let profile = profile_name(args.with_symbol);
    let dir = output_dir(root, profile);
    BuildPlanView {
        cargo_args: "rustc --package="@ + name + " --target="@ + TARGET_TRIPLE@ + " --profile="@ + profile,
        rust_flags: "-C target-cpu=cortex-a53 -C link-arg=--library-path="@ + root + "/crates/"@ + name
            + " -C link-arg=--script="@ + name + ".ld -D warnings"@,
        elf: path_join(dir, name),
        image: path_join(dir, target_image(args.target)),
    }
}

/// The build plan for `args` in the repository rooted at `project_root`:
/// compile with the board's CPU and linker script, then strip to an image
/// beside the binary.
pub fn build_plan(args: &Args, project_root: &str) -> (r: BuildPlan)
    ensures
        r@ == build_plan_spec(*args, project_root@),
{
    let name = args.target.as_str();
    let profile = if args.with_symbol { "release-with-symbols" } else { "release" };
    let mut rust_flags = String::from_str("-C target-cpu=cortex-a53 -C link-arg=--library-path=");
    rust_flags.append(project_root);
    rust_flags.append("/crates/");
    rust_flags.append(name);
    rust_flags.append(" -C link-arg=--script=");
    rust_flags.append(name);
    rust_flags.append(".ld -D warnings");
    let mut cargo_args = String::from_str("rustc --package=");
    cargo_args.append(name);
    cargo_args.append(" --target=");
    cargo_args.append(TARGET_TRIPLE);
    cargo_args.append(" --profile=");
    cargo_args.append(profile);
    let mut rel = String::from_str("target/");
    rel.append(TARGET_TRIPLE);
    rel.append("/");
    rel.append(profile);
    let dir = join_path(project_root, rel.as_str());
    let elf = join_path(dir.as_str(), name);
    let image = join_path(dir.as_str(), args.target.image_name());
    BuildPlan { cargo_args, rust_flags, elf, image }
}

} // verus!
