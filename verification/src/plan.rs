//! What a build is made of: the plan drawn from the configuration, the
//! compile jobs, and the command lines handed to the toolchain.

use crate::config::{Config, ConfigView};
use crate::text::{append_copies, copy_strings, joined, texts};
use vstd::prelude::*;

verus! {

/// What the library has to know of the platform it runs on.
#[derive(Debug, Clone, PartialEq, Eq)]
pub struct Platform {
    /// The separator between the components of a path.
    pub separator: String,
    /// The suffix of an executable's file name; empty where there is none.
    pub exe_suffix: String,
}

/// A `Platform`, as character sequences.
pub struct PlatformView {
    pub separator: Seq<char>,
    pub exe_suffix: Seq<char>,
}

impl View for Platform {
    type V = PlatformView;

    open spec fn view(&self) -> PlatformView {
        PlatformView { separator: self.separator@, exe_suffix: self.exe_suffix@ }
    }
}

/// Everything about one build that is fixed before the first source is
/// looked at.
#[derive(Debug, Clone, PartialEq, Eq)]
pub struct BuildPlan {
    /// The compiler, which also links.
    pub compiler: String,
    /// The flags of every compile invocation.
    pub compile_flags: Vec<String>,
    /// The flags of the link invocation.
    pub link_flags: Vec<String>,
    /// The name of the variant's directory under the build directory.
    pub build_subdir: String,
    /// The variant's output directory.
    pub output_dir: String,
    /// The path of the final binary.
    pub binary: String,
    /// The separator between the components of a path.
    pub separator: String,
}

/// A `BuildPlan`, as character sequences.
pub struct PlanView {
    pub compiler: Seq<char>,
    pub compile_flags: Seq<Seq<char>>,
    pub link_flags: Seq<Seq<char>>,
    pub build_subdir: Seq<char>,
    pub output_dir: Seq<char>,
    pub binary: Seq<char>,
    pub separator: Seq<char>,
}

impl View for BuildPlan {
    type V = PlanView;

    open spec fn view(&self) -> PlanView {
        PlanView {
            compiler: self.compiler@,
            compile_flags: texts(self.compile_flags@),
            link_flags: texts(self.link_flags@),
            build_subdir: self.build_subdir@,
            output_dir: self.output_dir@,
            binary: self.binary@,
            separator: self.separator@,
        }
    }
}

/// The name of a variant's directory: `release` or `debug`.
pub open spec fn variant_subdir(release: bool) -> Seq<char> {
    if release {
        "release"@
    } else {
        "debug"@
    }
}

/// The flags that a variant adds to the common ones.
pub open spec fn variant_flags(config: ConfigView, release: bool) -> Seq<Seq<char>> {
    if release {
        config.release_flags
    } else {
        config.debug_flags
    }
}

/// The flags of a variant's compile invocations: the common flags, then the
/// variant's own, then the include path.
pub open spec fn compile_flags_of(config: ConfigView, release: bool) -> Seq<Seq<char>> {
    config.flags + variant_flags(config, release) + seq!["-Iinclude"@]
}

/// The flags of a variant's link invocation: the common flags, then the
/// variant's own, then the linker flags.
pub open spec fn link_flags_of(config: ConfigView, release: bool) -> Seq<Seq<char>> {
    config.flags + variant_flags(config, release) + config.linker_flags
}

/// A variant's output directory.
pub open spec fn variant_dir(release: bool, platform: PlatformView) -> Seq<char> {
    "build"@ + platform.separator + variant_subdir(release)
}

/// The plan of a build of one variant under a configuration.
pub open spec fn plan_of(config: ConfigView, release: bool, platform: PlatformView) -> PlanView {
    PlanView {
        compiler: config.compiler,
        compile_flags: compile_flags_of(config, release),
        link_flags: link_flags_of(config, release),
        build_subdir: variant_subdir(release),
        output_dir: variant_dir(release, platform),
        binary: variant_dir(release, platform) + platform.separator + "app"@
            + platform.exe_suffix,
        separator: platform.separator,
    }
}

/// Draws the plan of a build: which compiler, which flags for compiling
/// and for linking, and where the variant's artifacts go.
pub fn build(config: &Config, release: bool, platform: &Platform) -> (plan: BuildPlan)
    ensures
        plan@ == plan_of(config@, release, platform@),
{
    let mut shared = copy_strings(&config.flags);
    if release {
        append_copies(&mut shared, &config.release_flags);
    } else {
        append_copies(&mut shared, &config.debug_flags);
    }
    let mut compile_flags = copy_strings(&shared);
    let ghost before = compile_flags@;
    compile_flags.push("-Iinclude".to_owned());
    assert(texts(compile_flags@) =~= texts(before) + seq!["-Iinclude"@]);
    let mut link_flags = shared;
    append_copies(&mut link_flags, &config.linker_flags);
    let build_subdir = if release {
        "release".to_owned()
    } else {
        "debug".to_owned()
    };
    let mut output_dir = joined("build", platform.separator.as_str());
    output_dir = joined(output_dir.as_str(), build_subdir.as_str());
    let mut binary = joined(output_dir.as_str(), platform.separator.as_str());
    binary = joined(binary.as_str(), "app");
    binary = joined(binary.as_str(), platform.exe_suffix.as_str());
    BuildPlan {
        compiler: config.compiler.clone(),
        compile_flags,
        link_flags,
        build_subdir,
        output_dir,
        binary,
        separator: platform.separator.clone(),
    }
}

} // verus!
