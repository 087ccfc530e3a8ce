//! The platforms that modules are compiled for ahead of time, and the names
//! of the artifacts that come out.
//!
//! One source module yields one artifact for each target, named
//! `<prefix>.<tag>.wasmu`, where the tag tells the targets apart.

use vstd::prelude::*;
use vstd::string::*;

verus! {

/// A processor architecture.
#[derive(Clone, Copy, Debug, PartialEq, Eq)]
pub enum Architecture {
    Arm64,
}

/// An operating system.
#[derive(Clone, Copy, Debug, PartialEq, Eq)]
pub enum OperatingSystem {
    MacOs,
    Android,
    Ios,
}

/// A processor feature that compiled code may rely on.
#[derive(Clone, Copy, Debug, PartialEq, Eq)]
pub enum CpuFeature {
    Sse2,
    Sse3,
    Ssse3,
    Sse41,
    Sse42,
    Popcnt,
    Avx,
    Bmi1,
    Bmi2,
    Avx2,
    Avx512Dq,
    Avx512Vl,
    Avx512F,
    Lzcnt,
}

/// A platform to compile for.
#[derive(Debug, PartialEq, Eq)]
pub struct TargetDescriptor {
    pub architecture: Architecture,
    pub operating_system: OperatingSystem,
    /// The features the code may rely on beyond the architecture's baseline.
    pub cpu_features: Vec<CpuFeature>,
}

/// The extension of every artifact.
pub open spec fn spec_extension() -> Seq<char> {
    "wasmu"@
}

/// The target triple of a platform, as compilers spell it.
pub open spec fn spec_triple(architecture: Architecture, operating_system: OperatingSystem) -> Seq<
    char,
> {
    match (architecture, operating_system) {
        (Architecture::Arm64, OperatingSystem::MacOs) => "aarch64-apple-darwin"@,
        (Architecture::Arm64, OperatingSystem::Android) => "aarch64-linux-android"@,
        (Architecture::Arm64, OperatingSystem::Ios) => "aarch64-apple-ios"@,
    }
}

/// The tag by which an artifact's name tells its platform.
pub open spec fn spec_tag(architecture: Architecture, operating_system: OperatingSystem) -> Seq<
    char,
> {
    match (architecture, operating_system) {
        (Architecture::Arm64, OperatingSystem::MacOs) => "arm64"@,
        (Architecture::Arm64, OperatingSystem::Android) => "android"@,
        (Architecture::Arm64, OperatingSystem::Ios) => "ios"@,
    }
}

/// The name of the artifact for a platform: `<prefix>.<tag>.wasmu`.
pub open spec fn spec_artifact_path(
    prefix: Seq<char>,
    architecture: Architecture,
    operating_system: OperatingSystem,
) -> Seq<char> {
    prefix + "."@ + spec_tag(architecture, operating_system) + "."@ + spec_extension()
}

/// The platforms of the fixed target list, in the order they are compiled.
pub open spec fn spec_fixed_platforms() -> Seq<(Architecture, OperatingSystem)> {
    seq![
        (Architecture::Arm64, OperatingSystem::MacOs),
        (Architecture::Arm64, OperatingSystem::Android),
        (Architecture::Arm64, OperatingSystem::Ios),
    ]
}

impl TargetDescriptor {
    /// The platform without its feature set.
    pub open spec fn platform(&self) -> (Architecture, OperatingSystem) {
        (self.architecture, self.operating_system)
    }

    /// A target for a platform's baseline: no feature beyond the architecture.
    pub fn baseline(architecture: Architecture, operating_system: OperatingSystem) -> (target:
        Self)
        ensures
            target.architecture == architecture,
            target.operating_system == operating_system,
            target.cpu_features@.len() == 0,
    {
        TargetDescriptor { architecture, operating_system, cpu_features: Vec::new() }
    }

    /// The target triple, as compilers spell it.
    pub fn triple(&self) -> (triple: &'static str)
        ensures
            triple@ == spec_triple(self.architecture, self.operating_system),
    {
        match (self.architecture, self.operating_system) {
            (Architecture::Arm64, OperatingSystem::MacOs) => "aarch64-apple-darwin",
            (Architecture::Arm64, OperatingSystem::Android) => "aarch64-linux-android",
            (Architecture::Arm64, OperatingSystem::Ios) => "aarch64-apple-ios",
        }
    }

    /// The tag of the target in artifact names.
    pub fn tag(&self) -> (tag: &'static str)
        ensures
            tag@ == spec_tag(self.architecture, self.operating_system),
    {
        match (self.architecture, self.operating_system) {
            (Architecture::Arm64, OperatingSystem::MacOs) => "arm64",
            (Architecture::Arm64, OperatingSystem::Android) => "android",
            (Architecture::Arm64, OperatingSystem::Ios) => "ios",
        }
    }

    /// The name of the target's artifact under `prefix`.
    pub fn artifact_path(&self, prefix: &str) -> (path: String)
        ensures
            path@ == spec_artifact_path(prefix@, self.architecture, self.operating_system),
    {
        let mut path = prefix.to_owned();
        path.append(".");
        path.append(self.tag());
        path.append(".");
        path.append("wasmu");
        path
    }
}

/// The fixed target list: ARM64 under macOS, Android and iOS, each at its
/// baseline.
pub fn fixed_targets() -> (targets: Vec<TargetDescriptor>)
    ensures
        targets@.len() == 3,
        forall|i: int|
            0 <= i < 3 ==> (#[trigger] targets@[i]).platform() == spec_fixed_platforms()[i],
        forall|i: int| 0 <= i < 3 ==> (#[trigger] targets@[i]).cpu_features@.len() == 0,
{
    let mut targets = Vec::new();
    targets.push(TargetDescriptor::baseline(Architecture::Arm64, OperatingSystem::MacOs));
    targets.push(TargetDescriptor::baseline(Architecture::Arm64, OperatingSystem::Android));
    targets.push(TargetDescriptor::baseline(Architecture::Arm64, OperatingSystem::Ios));
    targets
}

/// What a compile job is to produce under `prefix`: for each target of the
/// fixed list, in order, the target and the name of its artifact. The job
/// compiles them one after the other and stops at the first that fails.
pub fn artifact_plan(prefix: &str) -> (plan: Vec<(TargetDescriptor, String)>)
    ensures
        plan@.len() == 3,
        forall|i: int|
            0 <= i < 3 ==> (#[trigger] plan@[i]).0.platform() == spec_fixed_platforms()[i],
        forall|i: int| 0 <= i < 3 ==> (#[trigger] plan@[i]).0.cpu_features@.len() == 0,
        forall|i: int|
            0 <= i < 3 ==> (#[trigger] plan@[i]).1@ == spec_artifact_path(
                prefix@,
                spec_fixed_platforms()[i].0,
                spec_fixed_platforms()[i].1,
            ),
{
    let mut targets = fixed_targets();
    let mut plan: Vec<(TargetDescriptor, String)> = Vec::new();
    while targets.len() > 0
        invariant
            targets@.len() + plan@.len() == 3,
            forall|i: int|
                0 <= i < targets@.len() ==> (#[trigger] targets@[i]).platform()
                    == spec_fixed_platforms()[plan@.len() + i],
            forall|i: int|
                0 <= i < targets@.len() ==> (#[trigger] targets@[i]).cpu_features@.len() == 0,
            forall|i: int|
                0 <= i < plan@.len() ==> (#[trigger] plan@[i]).0.platform()
                    == spec_fixed_platforms()[i],
            forall|i: int|
                0 <= i < plan@.len() ==> (#[trigger] plan@[i]).0.cpu_features@.len() == 0,
            forall|i: int|
                0 <= i < plan@.len() ==> (#[trigger] plan@[i]).1@ == spec_artifact_path(
                    prefix@,
                    spec_fixed_platforms()[i].0,
                    spec_fixed_platforms()[i].1,
                ),
        decreases targets@.len(),
    {
        let target = targets.remove(0);
        let path = target.artifact_path(prefix);
        plan.push((target, path));
    }
    plan
}

/// The length of each tag. No two platforms have tags of one length.
pub proof fn lemma_tag_lengths()
    ensures
        spec_tag(Architecture::Arm64, OperatingSystem::MacOs).len() == 5,
        spec_tag(Architecture::Arm64, OperatingSystem::Android).len() == 7,
        spec_tag(Architecture::Arm64, OperatingSystem::Ios).len() == 3,
{
    reveal_strlit("arm64");
    reveal_strlit("android");
    reveal_strlit("ios");
}

/// An artifact's name encodes its platform: under one prefix, two platforms
/// with the same artifact name are the same platform.
pub proof fn lemma_artifact_path_names_platform(
    prefix: Seq<char>,
    first: (Architecture, OperatingSystem),
    second: (Architecture, OperatingSystem),
)
    requires
        spec_artifact_path(prefix, first.0, first.1) == spec_artifact_path(
            prefix,
            second.0,
            second.1,
        ),
    ensures
        first == second,
{
    lemma_tag_lengths();
    reveal_strlit(".");
    let a = spec_artifact_path(prefix, first.0, first.1);
    let b = spec_artifact_path(prefix, second.0, second.1);
    assert(a.len() == prefix.len() + 2 + spec_tag(first.0, first.1).len()
        + spec_extension().len());
    assert(b.len() == prefix.len() + 2 + spec_tag(second.0, second.1).len()
        + spec_extension().len());
}

/// An artifact's name starts with the prefix and ends with the extension,
/// and the tag stands between two dots.
pub proof fn lemma_artifact_path_shape(
    prefix: Seq<char>,
    architecture: Architecture,
    operating_system: OperatingSystem,
)
    ensures
        ({
            let path = spec_artifact_path(prefix, architecture, operating_system);
            let tag = spec_tag(architecture, operating_system);
            let dot = prefix.len() as int;
            let end = dot + 1 + tag.len();
            &&& path.len() == end + 6
            &&& path.subrange(0, dot) == prefix
            &&& path[dot] == '.'
            &&& path.subrange(dot + 1, end) == tag
            &&& path.subrange(end, path.len() as int) == ".wasmu"@
        }),
{
    reveal_strlit(".");
    reveal_strlit("wasmu");
    reveal_strlit(".wasmu");
    let path = spec_artifact_path(prefix, architecture, operating_system);
    let tag = spec_tag(architecture, operating_system);
    let dot = prefix.len() as int;
    let end = dot + 1 + tag.len();
    assert(path.subrange(0, dot) =~= prefix);
    assert(path.subrange(dot + 1, end) =~= tag);
    assert(path.subrange(end, path.len() as int) =~= ".wasmu"@);
}

/// The artifacts of the fixed target list have three different names.
pub proof fn lemma_fixed_artifacts_distinct(prefix: Seq<char>, i: int, j: int)
    requires
        0 <= i < 3,
        0 <= j < 3,
        i != j,
    ensures
        spec_artifact_path(prefix, spec_fixed_platforms()[i].0, spec_fixed_platforms()[i].1)
            != spec_artifact_path(
            prefix,
            spec_fixed_platforms()[j].0,
            spec_fixed_platforms()[j].1,
        ),
{
    let first = spec_fixed_platforms()[i];
    let second = spec_fixed_platforms()[j];
    if spec_artifact_path(prefix, first.0, first.1) == spec_artifact_path(
        prefix,
        second.0,
        second.1,
    ) {
        lemma_artifact_path_names_platform(prefix, first, second);
    }
}

} // verus!
