use voxbridge::engine::{
    check_gpu_variant_present, engines_dir_candidate, entry_point_name, expected_variant_error,
    library_file_name, native_call_outcome, null_handle_error, variant_candidates, variant_path,
    BaseProbe,
    EngineKind, EntryPoint, VariantCandidate, VariantSearch,
};
use voxbridge::platform::{CpuFeatures, EngineVariant, Platform, TargetArch, TargetOs};
use voxbridge::resolve_engines_dir;

const LINUX: Platform = Platform { os: TargetOs::Linux, arch: TargetArch::X86_64 };

#[test]
fn library_file_names() {
    assert_eq!(
        library_file_name(EngineKind::Transcription, EngineVariant::CpuAvx2, TargetOs::Linux),
        "voxbridge_engine_cpu-avx2.so"
    );
    assert_eq!(
        library_file_name(EngineKind::Completion, EngineVariant::Vulkan, TargetOs::Windows),
        "voxbridge_llm_vulkan.dll"
    );
    assert_eq!(
        library_file_name(EngineKind::Transcription, EngineVariant::CpuBaseline, TargetOs::MacOs),
        "voxbridge_engine_cpu-baseline.dylib"
    );
}

#[test]
fn variant_path_joins_dir_and_file() {
    let p = variant_path("/opt/engines", EngineKind::Transcription, EngineVariant::CpuBaseline, TargetOs::Linux);
    assert_eq!(p, "/opt/engines/voxbridge_engine_cpu-baseline.so");
    let p = variant_path("/opt/engines/", EngineKind::Completion, EngineVariant::Vulkan, TargetOs::Linux);
    assert_eq!(p, "/opt/engines/voxbridge_llm_vulkan.so");
}

#[test]
fn engines_dir_layout() {
    assert_eq!(engines_dir_candidate("/res", LINUX), "/res/engines-dist/linux-x64");
    let arm = Platform { os: TargetOs::Linux, arch: TargetArch::Aarch64 };
    assert_eq!(engines_dir_candidate("app", arm), "app/engines-dist/linux-arm64");
}

fn probe(base: &str, exists: bool) -> BaseProbe {
    BaseProbe { base: base.to_string(), engines_dir_exists: exists }
}

#[test]
fn resolve_picks_first_existing_base() {
    let probes = vec![probe("/a", false), probe("/b", true), probe("/c", true)];
    assert_eq!(resolve_engines_dir(&probes, LINUX), Some("/b/engines-dist/linux-x64".to_string()));
}

#[test]
fn resolve_without_existing_base_is_none() {
    assert_eq!(resolve_engines_dir(&vec![probe("/a", false), probe("/b", false)], LINUX), None);
    assert_eq!(resolve_engines_dir(&Vec::new(), LINUX), None);
}

fn candidate(variant: EngineVariant, supported: bool, present: bool) -> VariantCandidate {
    VariantCandidate { variant, supported, path: format!("/e/{}", variant.name()), present }
}

#[test]
fn fresh_search_reports_no_candidate() {
    let mut search = VariantSearch::new(vec![
        candidate(EngineVariant::CpuAvx2, false, true),
        candidate(EngineVariant::CpuBaseline, true, false),
    ]);
    assert_eq!(search.next_attempt(), None);
    assert_eq!(search.last_error(), "no candidate variants for this CPU/platform");
    assert_eq!(search.next_attempt(), None);
}

#[test]
fn search_offers_viable_candidates_in_order() {
    let mut search = VariantSearch::new(vec![
        candidate(EngineVariant::CpuAvx2, true, true),
        candidate(EngineVariant::Vulkan, false, true),
        candidate(EngineVariant::CpuBaseline, true, true),
    ]);
    assert_eq!(search.next_attempt(), Some(0));
    assert_eq!(search.candidate(0).path, "/e/cpu-avx2");
    search.record_failure(0, "undefined symbol");
    assert_eq!(search.last_error(), "variant 'cpu-avx2' failed to load: undefined symbol");
    assert_eq!(search.next_attempt(), Some(2));
    search.record_failure(2, "bad ELF");
    assert_eq!(search.last_error(), "variant 'cpu-baseline' failed to load: bad ELF");
    assert_eq!(search.next_attempt(), None);
    assert_eq!(search.last_error(), "variant 'cpu-baseline' failed to load: bad ELF");
}

#[test]
fn search_skips_absent_library() {
    let mut search = VariantSearch::new(vec![
        candidate(EngineVariant::CpuAvx2, true, false),
        candidate(EngineVariant::CpuBaseline, true, true),
    ]);
    assert_eq!(search.next_attempt(), Some(1));
    assert_eq!(search.next_attempt(), None);
}

#[test]
fn gpu_check() {
    assert_eq!(check_gpu_variant_present(EngineKind::Transcription, true), Ok(()));
    assert_eq!(
        check_gpu_variant_present(EngineKind::Transcription, false),
        Err("no vulkan engine variant present in engines-dist".to_string())
    );
    assert_eq!(
        check_gpu_variant_present(EngineKind::Completion, false),
        Err("no vulkan llm engine variant present in engines-dist".to_string())
    );
}

#[test]
fn entry_point_names() {
    assert_eq!(entry_point_name(EngineKind::Transcription, EntryPoint::VariantName), "voxbridge_engine_variant_name");
    assert_eq!(entry_point_name(EngineKind::Transcription, EntryPoint::Load), "voxbridge_engine_load");
    assert_eq!(entry_point_name(EngineKind::Transcription, EntryPoint::Run), "voxbridge_engine_transcribe");
    assert_eq!(entry_point_name(EngineKind::Transcription, EntryPoint::FreeString), "voxbridge_engine_free_string");
    assert_eq!(entry_point_name(EngineKind::Transcription, EntryPoint::Unload), "voxbridge_engine_unload");
    assert_eq!(entry_point_name(EngineKind::Transcription, EntryPoint::LastError), "voxbridge_engine_last_error");
    assert_eq!(entry_point_name(EngineKind::Completion, EntryPoint::Run), "voxbridge_llm_complete");
    assert_eq!(entry_point_name(EngineKind::Completion, EntryPoint::VariantName), "voxbridge_llm_variant_name");
}

#[test]
fn load_error_messages() {
    assert_eq!(
        expected_variant_error("symbol not found", EngineVariant::Vulkan),
        "symbol not found (expected variant 'vulkan')"
    );
    assert_eq!(
        null_handle_error(EngineKind::Transcription, "cpu-avx2"),
        "engine 'cpu-avx2' returned a null handle loading the model"
    );
    assert_eq!(
        null_handle_error(EngineKind::Completion, "vulkan"),
        "llm engine 'vulkan' returned a null handle loading the model"
    );
}

#[test]
fn native_success_is_trimmed() {
    assert_eq!(
        native_call_outcome(EngineKind::Transcription, 0, "  Hello, world.\n"),
        Ok("Hello, world.".to_string())
    );
    assert_eq!(native_call_outcome(EngineKind::Completion, 0, ""), Ok(String::new()));
}

#[test]
fn native_failure_names_status_and_error() {
    assert_eq!(
        native_call_outcome(EngineKind::Transcription, 3, "model busy"),
        Err("transcribe failed (status=3): model busy".to_string())
    );
    assert_eq!(
        native_call_outcome(EngineKind::Completion, -12, " out of memory "),
        Err("llm completion failed (status=-12):  out of memory ".to_string())
    );
    assert_eq!(
        native_call_outcome(EngineKind::Transcription, i32::MIN, "x"),
        Err(format!("transcribe failed (status={}): x", i32::MIN))
    );
}

#[test]
fn candidates_carry_support_and_paths() {
    let c = variant_candidates(EngineKind::Completion, "/e", LINUX, CpuFeatures { avx2: true, fma: false });
    assert_eq!(c.len(), 2);
    assert_eq!(c[0].variant, EngineVariant::CpuAvx2);
    assert!(!c[0].supported);
    assert_eq!(c[0].path, "/e/voxbridge_llm_cpu-avx2.so");
    assert_eq!(c[1].variant, EngineVariant::CpuBaseline);
    assert!(c[1].supported);
    assert_eq!(c[1].path, "/e/voxbridge_llm_cpu-baseline.so");
    assert!(c.iter().all(|x| !x.present));
}
