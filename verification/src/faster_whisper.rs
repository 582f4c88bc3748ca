//! The optional Faster Whisper/CTranslate2 transcription backend: its configuration,
//! where its managed runtime is found, and the request/response protocol spoken with
//! the worker process. Running the worker is left to the caller.

use vstd::prelude::*;

use crate::path::{join_path, joined_path};
use crate::platform::TargetOs;
use crate::text::{hex_lower, hex_spec, trim_spec, trim_text};

verus! {

/// The device Faster Whisper should run on.
#[derive(Clone, Copy, Debug, PartialEq, Eq, Structural)]
pub enum FasterWhisperDevice {
    Auto,
    Cpu,
    Cuda,
}

/// The name the worker knows a device by.
pub open spec fn spec_device_name(device: FasterWhisperDevice) -> Seq<char> {
    match device {
        FasterWhisperDevice::Auto => "auto"@,
        FasterWhisperDevice::Cpu => "cpu"@,
        FasterWhisperDevice::Cuda => "cuda"@,
    }
}

impl FasterWhisperDevice {
    /// The name the worker knows this device by.
    pub fn as_str(self) -> (name: &'static str)
        ensures
            name@ == spec_device_name(self),
    {
        match self {
            FasterWhisperDevice::Auto => "auto",
            FasterWhisperDevice::Cpu => "cpu",
            FasterWhisperDevice::Cuda => "cuda",
        }
    }
}

/// What the worker is asked to load: a model, on a device, with a compute type, and a
/// cache directory for downloaded models (a UTF-8 path, as the worker protocol carries
/// it as text).
#[derive(Clone, Debug)]
pub struct FasterWhisperConfig {
    pub model: String,
    pub device: FasterWhisperDevice,
    pub compute_type: String,
    pub model_cache_dir: String,
}

/// A managed Faster Whisper runtime: its Python interpreter and worker script.
#[derive(Clone, Debug)]
pub struct FasterWhisperRuntime {
    pub python: String,
    pub worker: String,
}

/// A runtime whose files were looked up on disk: whether each path exists, and whether
/// it is a regular file.
#[derive(Debug)]
pub struct RuntimeProbe {
    pub runtime: FasterWhisperRuntime,
    pub python_exists: bool,
    pub worker_exists: bool,
    pub python_is_file: bool,
    pub worker_is_file: bool,
}

/// The error when no managed runtime is found.
pub open spec fn spec_not_installed_error() -> Seq<char> {
    "Faster Whisper runtime is not installed"@
}

/// The outcome of checking a runtime's files: the Python interpreter must be a file,
/// then the worker script must be.
pub open spec fn spec_validate(
    runtime: FasterWhisperRuntime,
    python_is_file: bool,
    worker_is_file: bool,
) -> Result<FasterWhisperRuntime, Seq<char>> {
    if !python_is_file {
        Err("Faster Whisper Python runtime was not found"@)
    } else if !worker_is_file {
        Err("Faster Whisper worker was not found"@)
    } else {
        Ok(runtime)
    }
}

/// The runtime a search over base directories finds: the first probe whose interpreter
/// and worker both exist, checked as `spec_validate` says.
pub open spec fn spec_discover_in(bases: Seq<RuntimeProbe>) -> Result<
    FasterWhisperRuntime,
    Seq<char>,
>
    decreases bases.len(),
{
    if bases.len() == 0 {
        Err(spec_not_installed_error())
    } else if bases[0].python_exists && bases[0].worker_exists {
        spec_validate(bases[0].runtime, bases[0].python_is_file, bases[0].worker_is_file)
    } else {
        spec_discover_in(bases.drop_first())
    }
}

/// The runtime discovery settles on: an explicitly configured runtime when there is
/// one, otherwise the first installed one among the bases.
pub open spec fn spec_discover(configured: Option<RuntimeProbe>, bases: Seq<RuntimeProbe>) -> Result<
    FasterWhisperRuntime,
    Seq<char>,
> {
    match configured {
        Some(p) => spec_validate(p.runtime, p.python_is_file, p.worker_is_file),
        None => spec_discover_in(bases),
    }
}

/// Validation accepts a runtime, unchanged, exactly when its interpreter and its worker
/// are both files; otherwise it names the missing interpreter first, then the worker.
pub proof fn lemma_validate_outcome(runtime: FasterWhisperRuntime, python_is_file: bool, worker_is_file: bool)
    ensures
        (spec_validate(runtime, python_is_file, worker_is_file) is Ok) <==> (python_is_file
            && worker_is_file),
        python_is_file && worker_is_file ==> spec_validate(runtime, python_is_file, worker_is_file)
            == Ok::<FasterWhisperRuntime, Seq<char>>(runtime),
        !python_is_file ==> spec_validate(runtime, python_is_file, worker_is_file) == Err::<
            FasterWhisperRuntime,
            Seq<char>,
        >("Faster Whisper Python runtime was not found"@),
        python_is_file && !worker_is_file ==> spec_validate(runtime, python_is_file, worker_is_file)
            == Err::<FasterWhisperRuntime, Seq<char>>("Faster Whisper worker was not found"@),
{
}

/// Without a configured runtime, discovery settles on the first base whose interpreter
/// and worker both exist (a base missing either is passed over) and validates it; with
/// no such base the runtime is not installed. A configured runtime is validated and
/// the bases are not looked at.
pub proof fn lemma_discover_first_installed(configured: Option<RuntimeProbe>, bases: Seq<RuntimeProbe>)
    ensures
        configured is None ==> forall|i: int|
            0 <= i < bases.len() && (#[trigger] bases[i]).python_exists && bases[i].worker_exists
                && (forall|j: int|
                0 <= j < i ==> !(bases[j].python_exists && bases[j].worker_exists)) ==> spec_discover(
                configured,
                bases,
            ) == spec_validate(bases[i].runtime, bases[i].python_is_file, bases[i].worker_is_file),
        configured is None && (forall|j: int|
            0 <= j < bases.len() ==> !((#[trigger] bases[j]).python_exists
                && bases[j].worker_exists)) ==> spec_discover(configured, bases) == Err::<
            FasterWhisperRuntime,
            Seq<char>,
        >("Faster Whisper runtime is not installed"@),
        configured matches Some(p) ==> spec_discover(configured, bases) == spec_validate(
            p.runtime,
            p.python_is_file,
            p.worker_is_file,
        ),
{
    lemma_discover_in_first(bases);
}

proof fn lemma_discover_in_first(bases: Seq<RuntimeProbe>)
    ensures
        forall|i: int|
            0 <= i < bases.len() && (#[trigger] bases[i]).python_exists && bases[i].worker_exists
                && (forall|j: int|
                0 <= j < i ==> !(bases[j].python_exists && bases[j].worker_exists))
                ==> spec_discover_in(bases) == spec_validate(
                bases[i].runtime,
                bases[i].python_is_file,
                bases[i].worker_is_file,
            ),
        (forall|j: int|
            0 <= j < bases.len() ==> !((#[trigger] bases[j]).python_exists
                && bases[j].worker_exists)) ==> spec_discover_in(bases) == Err::<
            FasterWhisperRuntime,
            Seq<char>,
        >("Faster Whisper runtime is not installed"@),
    decreases bases.len(),
{
    if bases.len() > 0 {
        let rest = bases.drop_first();
        lemma_discover_in_first(rest);
        assert forall|i: int|
            0 <= i < bases.len() && (#[trigger] bases[i]).python_exists && bases[i].worker_exists
                && (forall|j: int|
                0 <= j < i ==> !(bases[j].python_exists && bases[j].worker_exists)) implies spec_discover_in(
            bases,
        ) == spec_validate(bases[i].runtime, bases[i].python_is_file, bases[i].worker_is_file) by {
            if i > 0 {
                assert(!(bases[0].python_exists && bases[0].worker_exists));
                assert(rest[i - 1] == bases[i]);
                assert forall|j: int| 0 <= j < i - 1 implies !(rest[j].python_exists
                    && rest[j].worker_exists) by {
                    assert(rest[j] == bases[j + 1]);
                }
            }
        }
        if forall|j: int|
            0 <= j < bases.len() ==> !((#[trigger] bases[j]).python_exists && bases[j].worker_exists) {
            assert forall|j: int| 0 <= j < rest.len() implies !((#[trigger] rest[j]).python_exists
                && rest[j].worker_exists) by {
                assert(rest[j] == bases[j + 1]);
            }
        }
    }
}

/// Views a result whose error is a `String` as one whose error is its text.
pub open spec fn runtime_result_view(r: Result<FasterWhisperRuntime, String>) -> Result<
    FasterWhisperRuntime,
    Seq<char>,
> {
    match r {
        Ok(rt) => Ok(rt),
        Err(e) => Err(e@),
    }
}

/// Where the managed runtime sits under a base directory.
pub open spec fn spec_runtime_dir(base: Seq<char>) -> Seq<char> {
    joined_path(base, "faster-whisper-runtime"@)
}

/// The interpreter of a runtime's virtual environment, relative to the runtime.
pub open spec fn spec_venv_python(os: TargetOs) -> Seq<char> {
    match os {
        TargetOs::Windows => ".venv/Scripts/python.exe"@,
        _ => ".venv/bin/python"@,
    }
}

impl FasterWhisperRuntime {
    /// A runtime made of the given interpreter and worker script.
    pub fn new(python: String, worker: String) -> (runtime: Self)
        ensures
            runtime.python == python,
            runtime.worker == worker,
    {
        FasterWhisperRuntime { python, worker }
    }

    /// The runtime a base directory would hold on `os`: the virtual environment's
    /// interpreter and the worker script under `<base>/faster-whisper-runtime`.
    pub fn under_base(base: &str, os: TargetOs) -> (runtime: Self)
        ensures
            runtime.python@ == joined_path(spec_runtime_dir(base@), spec_venv_python(os)),
            runtime.worker@ == joined_path(spec_runtime_dir(base@), "faster_whisper_worker.py"@),
    {
        let dir = join_path(base, "faster-whisper-runtime");
        let python = match os {
            TargetOs::Windows => join_path(dir.as_str(), ".venv/Scripts/python.exe"),
            _ => join_path(dir.as_str(), ".venv/bin/python"),
        };
        let worker = join_path(dir.as_str(), "faster_whisper_worker.py");
        FasterWhisperRuntime { python, worker }
    }

    /// The worker script that ships with the sources, under `source_dir`; used when an
    /// interpreter is configured without a worker.
    pub fn bundled_worker(source_dir: &str) -> (worker: String)
        ensures
            worker@ == joined_path(source_dir@, "runtime/faster_whisper_worker.py"@),
    {
        join_path(source_dir, "runtime/faster_whisper_worker.py")
    }

    /// Checks a runtime's files: its interpreter, then its worker script, must be
    /// regular files.
    fn validate(runtime: Self, python_is_file: bool, worker_is_file: bool) -> (r: Result<
        Self,
        String,
    >)
        ensures
            runtime_result_view(r) == spec_validate(runtime, python_is_file, worker_is_file),
    {
        if !python_is_file {
            return Err(String::from_str("Faster Whisper Python runtime was not found"));
        }
        if !worker_is_file {
            return Err(String::from_str("Faster Whisper worker was not found"));
        }
        Ok(runtime)
    }

    /// Settles on a runtime: the configured one when the caller has one (checked as
    /// `validate` does), otherwise the first base whose interpreter and worker both
    /// exist (checked likewise), otherwise the not-installed error.
    pub fn discover(configured: Option<RuntimeProbe>, bases: Vec<RuntimeProbe>) -> (r: Result<
        Self,
        String,
    >)
        ensures
            runtime_result_view(r) == spec_discover(configured, bases@),
    {
        match configured {
            Some(p) => {
                return Self::validate(p.runtime, p.python_is_file, p.worker_is_file);
            },
            None => {},
        }
        let mut pool = bases;
        let ghost all = bases@;
        let mut i: usize = 0;
        assert(all.skip(0) == all);
        while i < pool.len()
            invariant
                pool@ == all,
                all == bases@,
                configured is None,
                i <= all.len(),
                spec_discover_in(all) == spec_discover_in(all.skip(i as int)),
            decreases all.len() - i,
        {
            assert(all.skip(i as int)[0] == all[i as int]);
            if pool[i].python_exists && pool[i].worker_exists {
                let p = pool.remove(i);
                assert(p == all[i as int]);
                return Self::validate(p.runtime, p.python_is_file, p.worker_is_file);
            }
            assert(all.skip(i as int).drop_first() == all.skip(i + 1));
            i = i + 1;
        }
        Err(String::from_str("Faster Whisper runtime is not installed"))
    }
}

/// One request line to the worker. Absent fields are left out of the line.
#[derive(Debug)]
pub struct WorkerRequest {
    pub id: u64,
    pub command: String,
    pub model: Option<String>,
    pub device: Option<String>,
    pub compute_type: Option<String>,
    pub model_cache_dir: Option<String>,
    pub samples_f32_le_hex: Option<String>,
    pub language: Option<String>,
    pub prompt: Option<String>,
}

/// One response line from the worker; text fields the worker leaves out are empty.
#[derive(Debug)]
pub struct WorkerResponse {
    pub id: u64,
    pub ok: bool,
    pub text: String,
    pub error: String,
    pub device: String,
    pub compute_type: String,
}

/// Views an optional `String` as optional text.
pub open spec fn opt_text(o: Option<String>) -> Option<Seq<char>> {
    match o {
        Some(s) => Some(s@),
        None => None,
    }
}

/// Views an optional `&str` as optional text.
pub open spec fn opt_str_text(o: Option<&str>) -> Option<Seq<char>> {
    match o {
        Some(s) => Some(s@),
        None => None,
    }
}

fn owned_option(o: Option<&str>) -> (r: Option<String>)
    ensures
        opt_text(r) == opt_str_text(o),
{
    match o {
        Some(s) => Some(s.to_owned()),
        None => None,
    }
}

/// The request that asks the worker to load the configured model. Its id is assigned
/// when the session sends it.
pub fn load_request(config: &FasterWhisperConfig) -> (request: WorkerRequest)
    ensures
        request.id == 0,
        request.command@ == "load"@,
        opt_text(request.model) == Some(config.model@),
        opt_text(request.device) == Some(spec_device_name(config.device)),
        opt_text(request.compute_type) == Some(config.compute_type@),
        opt_text(request.model_cache_dir) == Some(config.model_cache_dir@),
        request.samples_f32_le_hex is None,
        request.language is None,
        request.prompt is None,
{
    WorkerRequest {
        id: 0,
        command: String::from_str("load"),
        model: Some(config.model.clone()),
        device: Some(String::from_str(config.device.as_str())),
        compute_type: Some(config.compute_type.clone()),
        model_cache_dir: Some(config.model_cache_dir.clone()),
        samples_f32_le_hex: None,
        language: None,
        prompt: None,
    }
}

/// The request that asks the worker to transcribe audio, given as the little-endian
/// bytes of its 32-bit float samples, which travel as lower-case hexadecimal. Its id
/// is assigned when the session sends it.
pub fn transcribe_request(sample_bytes: &[u8], language: Option<&str>, prompt: Option<&str>) -> (request:
    WorkerRequest)
    ensures
        request.id == 0,
        request.command@ == "transcribe"@,
        request.model is None,
        request.device is None,
        request.compute_type is None,
        request.model_cache_dir is None,
        opt_text(request.samples_f32_le_hex) == Some(hex_spec(sample_bytes@)),
        opt_text(request.language) == opt_str_text(language),
        opt_text(request.prompt) == opt_str_text(prompt),
{
    WorkerRequest {
        id: 0,
        command: String::from_str("transcribe"),
        model: None,
        device: None,
        compute_type: None,
        model_cache_dir: None,
        samples_f32_le_hex: Some(hex_lower(sample_bytes)),
        language: owned_option(language),
        prompt: owned_option(prompt),
    }
}

/// What came back from the worker for one request.
#[derive(Debug)]
pub enum WorkerReply {
    /// Writing the request or reading the reply failed with this error.
    Failed(String),
    /// The worker's output ended before a reply line.
    Closed,
    /// The reply line was not a valid response; the parser's error.
    Unparsable(String),
    /// The reply line, parsed.
    Parsed(WorkerResponse),
}

/// The error for a worker whose output ended.
pub open spec fn spec_worker_exited_error() -> Seq<char> {
    "Faster Whisper worker exited unexpectedly"@
}

/// The error for a reply line that is not a response.
pub open spec fn spec_invalid_response_error(parse_error: Seq<char>) -> Seq<char> {
    "Invalid Faster Whisper worker response: "@ + parse_error
}

/// The error for a response that answers another request.
pub open spec fn spec_out_of_sequence_error() -> Seq<char> {
    "Faster Whisper worker response was out of sequence"@
}

/// The request/response exchange with one worker process. Requests are numbered 1, 2,
/// 3, ... in the order they are sent; a response is accepted only for the request
/// just sent.
#[derive(Debug)]
pub struct WorkerSession {
    last_id: u64,
}

impl WorkerSession {
    /// The id of the last request sent (0 before the first).
    pub closed spec fn last_id_spec(self) -> u64 {
        self.last_id
    }

    /// A session with a freshly started worker.
    pub fn new() -> (session: Self)
        ensures
            session.last_id_spec() == 0,
    {
        WorkerSession { last_id: 0 }
    }

    /// The id of the last request sent (0 before the first).
    pub fn last_id(&self) -> (id: u64)
        ensures
            id == self.last_id_spec(),
    {
        self.last_id
    }

    /// Numbers `request` as the next request of the session, ready to be sent.
    pub fn prepare(&mut self, request: WorkerRequest) -> (sent: WorkerRequest)
        requires
            old(self).last_id_spec() < u64::MAX,
        ensures
            final(self).last_id_spec() == old(self).last_id_spec() + 1,
            sent.id == final(self).last_id_spec(),
            sent.command == request.command,
            sent.model == request.model,
            sent.device == request.device,
            sent.compute_type == request.compute_type,
            sent.model_cache_dir == request.model_cache_dir,
            sent.samples_f32_le_hex == request.samples_f32_le_hex,
            sent.language == request.language,
            sent.prompt == request.prompt,
    {
        self.last_id = self.last_id + 1;
        let mut sent = request;
        sent.id = self.last_id;
        sent
    }

    /// The outcome of the request just sent, given what came back: a failure to write
    /// or read passes its error on; an ended output, an unparsable line, a response to
    /// another request, and a response that reports failure are errors; otherwise the
    /// response.
    pub fn finish(&self, reply: WorkerReply) -> (r: Result<WorkerResponse, String>)
        ensures
            match reply {
                WorkerReply::Failed(e) => r matches Err(m) && m@ == e@,
                WorkerReply::Closed => r matches Err(m) && m@ == spec_worker_exited_error(),
                WorkerReply::Unparsable(e) => r matches Err(m) && m@ == spec_invalid_response_error(
                    e@,
                ),
                WorkerReply::Parsed(resp) => if resp.id != self.last_id_spec() {
                    r matches Err(m) && m@ == spec_out_of_sequence_error()
                } else if !resp.ok {
                    r matches Err(m) && m@ == resp.error@
                } else {
                    r == Ok::<WorkerResponse, String>(resp)
                },
            },
    {
        match reply {
            WorkerReply::Failed(e) => Err(e),
            WorkerReply::Closed => Err(String::from_str("Faster Whisper worker exited unexpectedly")),
            WorkerReply::Unparsable(e) => {
                let mut message = String::from_str("Invalid Faster Whisper worker response: ");
                message.append(e.as_str());
                Err(message)
            },
            WorkerReply::Parsed(resp) => {
                if resp.id != self.last_id {
                    Err(String::from_str("Faster Whisper worker response was out of sequence"))
                } else if !resp.ok {
                    Err(resp.error)
                } else {
                    Ok(resp)
                }
            },
        }
    }
}

/// The text of a transcription response, without leading and trailing white space.
pub fn transcription_text(response: &WorkerResponse) -> (text: String)
    ensures
        text@ == trim_spec(response.text@),
{
    trim_text(response.text.as_str())
}

} // verus!
