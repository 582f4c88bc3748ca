//! Build-target description and the engine variants a target can choose between.

use vstd::prelude::*;

verus! {

/// Operating system of the build target.
#[derive(Clone, Copy, Debug, PartialEq, Eq, Structural)]
pub enum TargetOs {
    Windows,
    Linux,
    MacOs,
}

/// Processor architecture of the build target.
#[derive(Clone, Copy, Debug, PartialEq, Eq, Structural)]
pub enum TargetArch {
    X86_64,
    Aarch64,
    Other,
}

/// The build target a runtime was compiled for.
#[derive(Clone, Copy, Debug, PartialEq, Eq, Structural)]
pub struct Platform {
    pub os: TargetOs,
    pub arch: TargetArch,
}

/// Name of the per-platform directory that the engine build writes its variants under.
pub open spec fn spec_platform_arch_dir(p: Platform) -> Seq<char> {
    match p.os {
        TargetOs::Windows => "windows-x64"@,
        TargetOs::Linux => if p.arch == TargetArch::Aarch64 {
            "linux-arm64"@
        } else {
            "linux-x64"@
        },
        TargetOs::MacOs => if p.arch == TargetArch::Aarch64 {
            "macos-arm64"@
        } else {
            "macos-x64"@
        },
    }
}

/// Directory name a build script writes variant output under. Consuming apps append
/// this to wherever they stage resources.
pub fn platform_arch_dir(platform: Platform) -> (dir: String)
    ensures
        dir@ == spec_platform_arch_dir(platform),
{
    match platform.os {
        TargetOs::Windows => String::from_str("windows-x64"),
        TargetOs::Linux => if platform.arch == TargetArch::Aarch64 {
            String::from_str("linux-arm64")
        } else {
            String::from_str("linux-x64")
        },
        TargetOs::MacOs => if platform.arch == TargetArch::Aarch64 {
            String::from_str("macos-arm64")
        } else {
            String::from_str("macos-x64")
        },
    }
}

/// File-name extension of a dynamic library on `os`.
pub open spec fn spec_dll_extension(os: TargetOs) -> Seq<char> {
    match os {
        TargetOs::Windows => "dll"@,
        TargetOs::Linux => "so"@,
        TargetOs::MacOs => "dylib"@,
    }
}

/// File-name extension of a dynamic library on `os`.
pub fn dll_extension(os: TargetOs) -> (ext: &'static str)
    ensures
        ext@ == spec_dll_extension(os),
{
    match os {
        TargetOs::Windows => "dll",
        TargetOs::Linux => "so",
        TargetOs::MacOs => "dylib",
    }
}

/// A build of a native engine library: the two processor builds (an SSE4.2 floor and
/// an AVX2/FMA fast path) and the Vulkan graphics build.
#[derive(Clone, Copy, Debug, PartialEq, Eq, Structural)]
pub enum EngineVariant {
    CpuAvx2,
    CpuBaseline,
    Vulkan,
}

/// The name a variant is built and reported under.
pub open spec fn spec_variant_name(v: EngineVariant) -> Seq<char> {
    match v {
        EngineVariant::CpuAvx2 => "cpu-avx2"@,
        EngineVariant::CpuBaseline => "cpu-baseline"@,
        EngineVariant::Vulkan => "vulkan"@,
    }
}

impl EngineVariant {
    /// The name this variant is built and reported under.
    pub fn name(self) -> (name: &'static str)
        ensures
            name@ == spec_variant_name(self),
    {
        match self {
            EngineVariant::CpuAvx2 => "cpu-avx2",
            EngineVariant::CpuBaseline => "cpu-baseline",
            EngineVariant::Vulkan => "vulkan",
        }
    }
}

/// The processor features the variant choice depends on, as detected at run time.
#[derive(Clone, Copy, Debug, PartialEq, Eq, Structural)]
pub struct CpuFeatures {
    pub avx2: bool,
    pub fma: bool,
}

/// The processor variants a target can pick between, in preference order, each with
/// whether this processor supports it. On x86-64 the AVX2 build needs both AVX2 and
/// FMA and the SSE4.2 floor is assumed present; other architectures have the baseline
/// build only. The Vulkan build is never a candidate here: whether to try graphics is
/// the caller's decision.
pub open spec fn spec_candidate_variants(arch: TargetArch, cpu: CpuFeatures) -> Seq<
    (EngineVariant, bool),
> {
    if arch == TargetArch::X86_64 {
        seq![(EngineVariant::CpuAvx2, cpu.avx2 && cpu.fma), (EngineVariant::CpuBaseline, true)]
    } else {
        seq![(EngineVariant::CpuBaseline, true)]
    }
}

/// Processor variants this target knows how to pick between, in preference order
/// (first supported and present wins), each paired with whether it is supported.
pub fn candidate_variants(arch: TargetArch, cpu: CpuFeatures) -> (variants: Vec<
    (EngineVariant, bool),
>)
    ensures
        variants@ == spec_candidate_variants(arch, cpu),
{
    let mut variants: Vec<(EngineVariant, bool)> = Vec::new();
    if arch == TargetArch::X86_64 {
        variants.push((EngineVariant::CpuAvx2, cpu.avx2 && cpu.fma));
    }
    variants.push((EngineVariant::CpuBaseline, true));
    variants
}

/// The baseline build is always the last candidate and always supported, so every
/// target has a processor variant to fall back on; no candidate is the graphics build.
pub proof fn lemma_baseline_is_last_resort(arch: TargetArch, cpu: CpuFeatures)
    ensures
        spec_candidate_variants(arch, cpu).len() >= 1,
        spec_candidate_variants(arch, cpu).last() == (EngineVariant::CpuBaseline, true),
        forall|i: int|
            0 <= i < spec_candidate_variants(arch, cpu).len() ==> (#[trigger] spec_candidate_variants(
                arch,
                cpu,
            )[i]).0 != EngineVariant::Vulkan,
{
}

/// The AVX2/FMA build is offered exactly on x86-64, first, and it counts as supported
/// exactly when the processor has both AVX2 and FMA: a processor lacking either one
/// never gets a supported AVX2 candidate. Every other candidate is the baseline, which
/// is always supported.
pub proof fn lemma_avx2_needs_avx2_and_fma(arch: TargetArch, cpu: CpuFeatures)
    ensures
        arch == TargetArch::X86_64 ==> spec_candidate_variants(arch, cpu).len() == 2
            && spec_candidate_variants(arch, cpu)[0].0 == EngineVariant::CpuAvx2,
        arch != TargetArch::X86_64 ==> spec_candidate_variants(arch, cpu).len() == 1,
        forall|i: int|
            0 <= i < spec_candidate_variants(arch, cpu).len() ==> {
                let c = #[trigger] spec_candidate_variants(arch, cpu)[i];
                &&& c.0 == EngineVariant::CpuAvx2 ==> (arch == TargetArch::X86_64 && i == 0 && (c.1
                    <==> (cpu.avx2 && cpu.fma)))
                &&& c.0 != EngineVariant::CpuAvx2 ==> (c.0 == EngineVariant::CpuBaseline && c.1)
            },
        !(cpu.avx2 && cpu.fma) ==> forall|i: int|
            0 <= i < spec_candidate_variants(arch, cpu).len() && (#[trigger] spec_candidate_variants(
                arch,
                cpu,
            )[i]).0 == EngineVariant::CpuAvx2 ==> !spec_candidate_variants(arch, cpu)[i].1,
{
}

} // verus!
