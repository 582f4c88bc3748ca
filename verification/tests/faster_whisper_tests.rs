use voxbridge::faster_whisper::{
    load_request, transcribe_request, transcription_text, RuntimeProbe, WorkerReply,
    WorkerResponse, WorkerSession,
};
use voxbridge::platform::TargetOs;
use voxbridge::{FasterWhisperConfig, FasterWhisperDevice, FasterWhisperRuntime};

#[test]
fn device_names() {
    assert_eq!(FasterWhisperDevice::Auto.as_str(), "auto");
    assert_eq!(FasterWhisperDevice::Cpu.as_str(), "cpu");
    assert_eq!(FasterWhisperDevice::Cuda.as_str(), "cuda");
}

#[test]
fn runtime_new_keeps_paths() {
    let rt = FasterWhisperRuntime::new("/usr/bin/python3".to_string(), "/w/worker.py".to_string());
    assert_eq!(rt.python, "/usr/bin/python3");
    assert_eq!(rt.worker, "/w/worker.py");
}

#[test]
fn runtime_layout_under_base() {
    let rt = FasterWhisperRuntime::under_base("/res", TargetOs::Linux);
    assert_eq!(rt.python, "/res/faster-whisper-runtime/.venv/bin/python");
    assert_eq!(rt.worker, "/res/faster-whisper-runtime/faster_whisper_worker.py");
    let rt = FasterWhisperRuntime::under_base("/res", TargetOs::Windows);
    assert_eq!(rt.python, "/res/faster-whisper-runtime/.venv/Scripts/python.exe");
    assert_eq!(
        FasterWhisperRuntime::bundled_worker("/src/voxbridge"),
        "/src/voxbridge/runtime/faster_whisper_worker.py"
    );
}

fn probe(name: &str, exists: (bool, bool), files: (bool, bool)) -> RuntimeProbe {
    RuntimeProbe {
        runtime: FasterWhisperRuntime::new(format!("{name}/python"), format!("{name}/worker.py")),
        python_exists: exists.0,
        worker_exists: exists.1,
        python_is_file: files.0,
        worker_is_file: files.1,
    }
}

#[test]
fn configured_runtime_takes_precedence() {
    let rt = FasterWhisperRuntime::discover(
        Some(probe("/env", (true, true), (true, true))),
        vec![probe("/base", (true, true), (true, true))],
    )
    .unwrap();
    assert_eq!(rt.python, "/env/python");
}

#[test]
fn configured_runtime_is_validated() {
    let e = FasterWhisperRuntime::discover(Some(probe("/env", (false, true), (false, true))), vec![]);
    assert_eq!(e.unwrap_err(), "Faster Whisper Python runtime was not found");
    let e = FasterWhisperRuntime::discover(Some(probe("/env", (true, false), (true, false))), vec![]);
    assert_eq!(e.unwrap_err(), "Faster Whisper worker was not found");
}

#[test]
fn first_installed_base_wins() {
    let rt = FasterWhisperRuntime::discover(
        None,
        vec![
            probe("/a", (true, false), (true, false)),
            probe("/b", (true, true), (true, true)),
            probe("/c", (true, true), (true, true)),
        ],
    )
    .unwrap();
    assert_eq!(rt.worker, "/b/worker.py");
}

#[test]
fn base_that_exists_but_is_not_a_file_fails() {
    let e = FasterWhisperRuntime::discover(
        None,
        vec![probe("/a", (true, true), (false, true)), probe("/b", (true, true), (true, true))],
    );
    assert_eq!(e.unwrap_err(), "Faster Whisper Python runtime was not found");
}

#[test]
fn no_runtime_is_not_installed() {
    let e = FasterWhisperRuntime::discover(None, vec![probe("/a", (false, false), (false, false))]);
    assert_eq!(e.unwrap_err(), "Faster Whisper runtime is not installed");
    let e = FasterWhisperRuntime::discover(None, vec![]);
    assert_eq!(e.unwrap_err(), "Faster Whisper runtime is not installed");
}

#[test]
fn load_request_carries_config() {
    let config = FasterWhisperConfig {
        model: "small.en".to_string(),
        device: FasterWhisperDevice::Cuda,
        compute_type: "float16".to_string(),
        model_cache_dir: "/cache/models".to_string(),
    };
    let r = load_request(&config);
    assert_eq!(r.id, 0);
    assert_eq!(r.command, "load");
    assert_eq!(r.model.as_deref(), Some("small.en"));
    assert_eq!(r.device.as_deref(), Some("cuda"));
    assert_eq!(r.compute_type.as_deref(), Some("float16"));
    assert_eq!(r.model_cache_dir.as_deref(), Some("/cache/models"));
    assert!(r.samples_f32_le_hex.is_none() && r.language.is_none() && r.prompt.is_none());
}

#[test]
fn transcribe_request_hex_encodes_samples() {
    let samples = [1.0f32, -0.5];
    let bytes: Vec<u8> = samples.iter().flat_map(|s| s.to_le_bytes()).collect();
    let r = transcribe_request(&bytes, Some("en"), None);
    assert_eq!(r.command, "transcribe");
    assert_eq!(r.samples_f32_le_hex.as_deref(), Some("0000803f000000bf"));
    assert_eq!(r.language.as_deref(), Some("en"));
    assert!(r.prompt.is_none() && r.model.is_none() && r.device.is_none());
}

fn response(id: u64, ok: bool, text: &str, error: &str) -> WorkerResponse {
    WorkerResponse {
        id,
        ok,
        text: text.to_string(),
        error: error.to_string(),
        device: "cuda".to_string(),
        compute_type: "float16".to_string(),
    }
}

#[test]
fn session_numbers_requests_from_one() {
    let mut session = WorkerSession::new();
    assert_eq!(session.last_id(), 0);
    let first = session.prepare(transcribe_request(&[], None, None));
    assert_eq!(first.id, 1);
    let second = session.prepare(transcribe_request(&[], None, None));
    assert_eq!(second.id, 2);
    assert_eq!(session.last_id(), 2);
}

#[test]
fn session_accepts_only_the_answer_to_the_last_request() {
    let mut session = WorkerSession::new();
    session.prepare(transcribe_request(&[], None, None));
    let ok = session.finish(WorkerReply::Parsed(response(1, true, " hi ", ""))).unwrap();
    assert_eq!(ok.text, " hi ");
    assert_eq!(ok.device, "cuda");
    let stale = session.finish(WorkerReply::Parsed(response(0, true, "old", "")));
    assert_eq!(stale.unwrap_err(), "Faster Whisper worker response was out of sequence");
}

#[test]
fn session_error_replies() {
    let mut session = WorkerSession::new();
    session.prepare(transcribe_request(&[], None, None));
    assert_eq!(
        session.finish(WorkerReply::Parsed(response(1, false, "", "model not found"))).unwrap_err(),
        "model not found"
    );
    assert_eq!(
        session.finish(WorkerReply::Closed).unwrap_err(),
        "Faster Whisper worker exited unexpectedly"
    );
    assert_eq!(
        session.finish(WorkerReply::Unparsable("expected value at line 1 column 1".to_string())).unwrap_err(),
        "Invalid Faster Whisper worker response: expected value at line 1 column 1"
    );
    assert_eq!(
        session.finish(WorkerReply::Failed("Broken pipe (os error 32)".to_string())).unwrap_err(),
        "Broken pipe (os error 32)"
    );
}

#[test]
fn transcription_text_is_trimmed() {
    assert_eq!(transcription_text(&response(1, true, "\n Hello there. ", "")), "Hello there.");
}
