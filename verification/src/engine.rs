//! Native engine selection: where the variant libraries of an engine live, which one a
//! machine tries in which order, what their entry points are called, and how their
//! failures and results are reported.

use vstd::prelude::*;

use crate::path::{join_path, joined_path};
use crate::platform::{
    candidate_variants, dll_extension, platform_arch_dir, spec_candidate_variants,
    spec_dll_extension, spec_platform_arch_dir, spec_variant_name, CpuFeatures, EngineVariant,
    Platform, TargetOs,
};
use crate::text::{decimal_spec, decimal_text, trim_spec, trim_text};

verus! {

/// The two native engine families: whisper.cpp transcription and llama.cpp completion.
#[derive(Clone, Copy, Debug, PartialEq, Eq, Structural)]
pub enum EngineKind {
    Transcription,
    Completion,
}

/// The prefix every library file and entry point of an engine family carries.
pub open spec fn spec_engine_prefix(kind: EngineKind) -> Seq<char> {
    match kind {
        EngineKind::Transcription => "voxbridge_engine_"@,
        EngineKind::Completion => "voxbridge_llm_"@,
    }
}

fn engine_prefix(kind: EngineKind) -> (prefix: &'static str)
    ensures
        prefix@ == spec_engine_prefix(kind),
{
    match kind {
        EngineKind::Transcription => "voxbridge_engine_",
        EngineKind::Completion => "voxbridge_llm_",
    }
}

/// File name of the library that holds `variant` of an engine family on `os`:
/// `<prefix><variant>.<extension>`.
pub open spec fn spec_library_file_name(kind: EngineKind, variant: EngineVariant, os: TargetOs) -> Seq<
    char,
> {
    spec_engine_prefix(kind) + spec_variant_name(variant) + "."@ + spec_dll_extension(os)
}

/// File name of the library that holds `variant` of an engine family on `os`.
pub fn library_file_name(kind: EngineKind, variant: EngineVariant, os: TargetOs) -> (name: String)
    ensures
        name@ == spec_library_file_name(kind, variant, os),
{
    let mut name = String::from_str(engine_prefix(kind));
    name.append(variant.name());
    name.append(".");
    name.append(dll_extension(os));
    name
}

/// Path of the library that holds `variant` of an engine family, inside `engines_dir`.
pub open spec fn spec_variant_path(
    engines_dir: Seq<char>,
    kind: EngineKind,
    variant: EngineVariant,
    os: TargetOs,
) -> Seq<char> {
    joined_path(engines_dir, spec_library_file_name(kind, variant, os))
}

/// Path of the library that holds `variant` of an engine family, inside `engines_dir`.
pub fn variant_path(engines_dir: &str, kind: EngineKind, variant: EngineVariant, os: TargetOs) -> (path:
    String)
    ensures
        path@ == spec_variant_path(engines_dir@, kind, variant, os),
{
    let name = library_file_name(kind, variant, os);
    join_path(engines_dir, name.as_str())
}

/// The engine directory that a candidate base would hold for `platform`:
/// `<base>/engines-dist/<platform dir>`, the layout the engine build writes.
pub open spec fn spec_engines_dir_candidate(base: Seq<char>, platform: Platform) -> Seq<char> {
    joined_path(joined_path(base, "engines-dist"@), spec_platform_arch_dir(platform))
}

/// The engine directory that `base` would hold for `platform`.
pub fn engines_dir_candidate(base: &str, platform: Platform) -> (dir: String)
    ensures
        dir@ == spec_engines_dir_candidate(base@, platform),
{
    let dist = join_path(base, "engines-dist");
    let arch_dir = platform_arch_dir(platform);
    join_path(dist.as_str(), arch_dir.as_str())
}

/// A candidate base directory, with whether its engine directory exists.
#[derive(Debug)]
pub struct BaseProbe {
    pub base: String,
    pub engines_dir_exists: bool,
}

/// The engine directory of the first probe whose engine directory exists.
pub open spec fn spec_resolve_engines_dir(probes: Seq<BaseProbe>, platform: Platform) -> Option<
    Seq<char>,
>
    decreases probes.len(),
{
    if probes.len() == 0 {
        None
    } else if probes[0].engines_dir_exists {
        Some(spec_engines_dir_candidate(probes[0].base@, platform))
    } else {
        spec_resolve_engines_dir(probes.drop_first(), platform)
    }
}

/// Resolves the directory holding this platform's engine libraries: the engine
/// directory of the first candidate base (in the caller's order) where it exists, or
/// `None` when no base has one.
pub fn resolve_engines_dir(probes: &Vec<BaseProbe>, platform: Platform) -> (dir: Option<String>)
    ensures
        match dir {
            Some(d) => spec_resolve_engines_dir(probes@, platform) == Some(d@),
            None => spec_resolve_engines_dir(probes@, platform) is None,
        },
{
    let mut i: usize = 0;
    assert(probes@.skip(0) == probes@);
    while i < probes.len()
        invariant
            i <= probes.len(),
            spec_resolve_engines_dir(probes@, platform) == spec_resolve_engines_dir(
                probes@.skip(i as int),
                platform,
            ),
        decreases probes.len() - i,
    {
        assert(probes@.skip(i as int)[0] == probes@[i as int]);
        if probes[i].engines_dir_exists {
            return Some(engines_dir_candidate(probes[i].base.as_str(), platform));
        }
        assert(probes@.skip(i as int).drop_first() == probes@.skip(i + 1));
        i = i + 1;
    }
    None
}

/// Every library file name carries its own family's prefix, then the variant name, a
/// dot and the extension: transcription libraries are `voxbridge_engine_*`, completion
/// libraries `voxbridge_llm_*`, for every variant (the Vulkan one included), so the
/// two families never share a file name.
pub proof fn lemma_library_file_name_family(kind: EngineKind, variant: EngineVariant, os: TargetOs)
    ensures
        kind == EngineKind::Transcription ==> spec_library_file_name(kind, variant, os)
            == "voxbridge_engine_"@ + spec_variant_name(variant) + "."@ + spec_dll_extension(os),
        kind == EngineKind::Completion ==> spec_library_file_name(kind, variant, os)
            == "voxbridge_llm_"@ + spec_variant_name(variant) + "."@ + spec_dll_extension(os),
        forall|v2: EngineVariant, os2: TargetOs|
            spec_library_file_name(EngineKind::Transcription, variant, os)
                != #[trigger] spec_library_file_name(EngineKind::Completion, v2, os2),
{
    reveal_strlit("voxbridge_engine_");
    reveal_strlit("voxbridge_llm_");
    assert forall|v2: EngineVariant, os2: TargetOs|
        spec_library_file_name(EngineKind::Transcription, variant, os)
            != #[trigger] spec_library_file_name(EngineKind::Completion, v2, os2) by {
        let a = spec_library_file_name(EngineKind::Transcription, variant, os);
        let b = spec_library_file_name(EngineKind::Completion, v2, os2);
        assert(a[10] == 'e');
        assert(b[10] == 'l');
    }
}

/// The engine directory is the candidate of the first probe whose directory exists:
/// whenever probe `i` exists and no earlier one does, that is the answer; when no
/// probe exists there is none.
pub proof fn lemma_resolve_first_existing(probes: Seq<BaseProbe>, platform: Platform)
    ensures
        forall|i: int|
            0 <= i < probes.len() && (#[trigger] probes[i]).engines_dir_exists && (forall|j: int|
                0 <= j < i ==> !probes[j].engines_dir_exists) ==> spec_resolve_engines_dir(
                probes,
                platform,
            ) == Some(spec_engines_dir_candidate(probes[i].base@, platform)),
        (forall|j: int| 0 <= j < probes.len() ==> !(#[trigger] probes[j]).engines_dir_exists)
            ==> spec_resolve_engines_dir(probes, platform) is None,
    decreases probes.len(),
{
    if probes.len() > 0 {
        let rest = probes.drop_first();
        lemma_resolve_first_existing(rest, platform);
        assert forall|i: int|
            0 <= i < probes.len() && (#[trigger] probes[i]).engines_dir_exists && (forall|j: int|
                0 <= j < i ==> !probes[j].engines_dir_exists) implies spec_resolve_engines_dir(
            probes,
            platform,
        ) == Some(spec_engines_dir_candidate(probes[i].base@, platform)) by {
            if i > 0 {
                assert(!probes[0].engines_dir_exists);
                assert(rest[i - 1] == probes[i]);
                assert forall|j: int| 0 <= j < i - 1 implies !rest[j].engines_dir_exists by {
                    assert(rest[j] == probes[j + 1]);
                }
            }
        }
        if forall|j: int| 0 <= j < probes.len() ==> !(#[trigger] probes[j]).engines_dir_exists {
            assert forall|j: int| 0 <= j < rest.len() implies !(#[trigger] rest[j]).engines_dir_exists by {
                assert(rest[j] == probes[j + 1]);
            }
        }
    }
}

/// A processor variant of an engine family, with whether this processor supports it
/// and whether its library is present on disk.
#[derive(Debug)]
pub struct VariantCandidate {
    pub variant: EngineVariant,
    pub supported: bool,
    pub path: String,
    pub present: bool,
}

/// The processor variants of an engine family for this target and processor, in
/// preference order, each with its support and its library path inside `engines_dir`.
/// Presence on disk is not known yet: every candidate starts out absent, for the
/// caller to fill in.
pub fn variant_candidates(
    kind: EngineKind,
    engines_dir: &str,
    platform: Platform,
    cpu: CpuFeatures,
) -> (candidates: Vec<VariantCandidate>)
    ensures
        candidates@.len() == spec_candidate_variants(platform.arch, cpu).len(),
        forall|i: int|
            0 <= i < candidates@.len() ==> {
                &&& (#[trigger] candidates@[i]).variant == spec_candidate_variants(
                    platform.arch,
                    cpu,
                )[i].0
                &&& candidates@[i].supported == spec_candidate_variants(platform.arch, cpu)[i].1
                &&& candidates@[i].path@ == spec_variant_path(
                    engines_dir@,
                    kind,
                    candidates@[i].variant,
                    platform.os,
                )
                &&& !candidates@[i].present
            },
{
    let options = candidate_variants(platform.arch, cpu);
    let mut candidates: Vec<VariantCandidate> = Vec::new();
    let mut i: usize = 0;
    while i < options.len()
        invariant
            i <= options@.len(),
            options@ == spec_candidate_variants(platform.arch, cpu),
            candidates@.len() == i,
            forall|k: int|
                0 <= k < i ==> {
                    &&& (#[trigger] candidates@[k]).variant == options@[k].0
                    &&& candidates@[k].supported == options@[k].1
                    &&& candidates@[k].path@ == spec_variant_path(
                        engines_dir@,
                        kind,
                        candidates@[k].variant,
                        platform.os,
                    )
                    &&& !candidates@[k].present
                },
        decreases options@.len() - i,
    {
        let (variant, supported) = options[i];
        let path = variant_path(engines_dir, kind, variant, platform.os);
        candidates.push(VariantCandidate { variant, supported, path, present: false });
        i = i + 1;
    }
    candidates
}

/// Whether a candidate is worth trying to load: supported and present.
pub open spec fn is_viable(c: VariantCandidate) -> bool {
    c.supported && c.present
}

/// The indices of the candidates from `from` on that a search tries, in order: the
/// viable ones.
pub open spec fn attempts_from(candidates: Seq<VariantCandidate>, from: int) -> Seq<int>
    decreases candidates.len() - from,
{
    if from < 0 || from >= candidates.len() {
        Seq::empty()
    } else if is_viable(candidates[from]) {
        seq![from] + attempts_from(candidates, from + 1)
    } else {
        attempts_from(candidates, from + 1)
    }
}

/// The error a search reports when it has nothing left to try and nothing was tried.
pub open spec fn spec_no_candidate_error() -> Seq<char> {
    "no candidate variants for this CPU/platform"@
}

/// The error recorded when the library of `variant` fails to load with `error`.
pub open spec fn spec_load_failure_error(variant: EngineVariant, error: Seq<char>) -> Seq<char> {
    "variant '"@ + spec_variant_name(variant) + "' failed to load: "@ + error
}

/// The search for the best processor variant of an engine: it offers the viable
/// candidates one at a time in preference order, and remembers the error of the last
/// one that failed to load. The caller loads each offered candidate and stops at the
/// first that loads.
pub struct VariantSearch {
    candidates: Vec<VariantCandidate>,
    next: usize,
    last_error: String,
}

impl VariantSearch {
    #[verifier::type_invariant]
    spec fn cursor_in_range(self) -> bool {
        self.next <= self.candidates@.len()
    }

    /// The candidates, in preference order.
    pub closed spec fn candidates_spec(self) -> Seq<VariantCandidate> {
        self.candidates@
    }

    /// The index from which the search goes on.
    pub closed spec fn cursor(self) -> int {
        self.next as int
    }

    /// The error the search reports if nothing more loads.
    pub closed spec fn error_spec(self) -> Seq<char> {
        self.last_error@
    }

    /// The indices the search has yet to offer, in order.
    pub open spec fn pending(self) -> Seq<int> {
        attempts_from(self.candidates_spec(), self.cursor())
    }

    /// A search over `candidates` (in preference order) that has tried nothing yet.
    pub fn new(candidates: Vec<VariantCandidate>) -> (search: Self)
        ensures
            search.candidates_spec() == candidates@,
            search.cursor() == 0,
            search.error_spec() == spec_no_candidate_error(),
    {
        VariantSearch {
            candidates,
            next: 0,
            last_error: String::from_str("no candidate variants for this CPU/platform"),
        }
    }

    /// The candidate at `index`.
    pub fn candidate(&self, index: usize) -> (c: &VariantCandidate)
        requires
            index < self.candidates_spec().len(),
        ensures
            *c == self.candidates_spec()[index as int],
    {
        &self.candidates[index]
    }

    /// The error the search reports if nothing more loads.
    pub fn last_error(&self) -> (error: &str)
        ensures
            error@ == self.error_spec(),
    {
        self.last_error.as_str()
    }

    /// Offers the next candidate to load: the first viable one from the cursor on,
    /// moving the cursor past it; or `None` when no viable candidate is left.
    pub fn next_attempt(&mut self) -> (index: Option<usize>)
        ensures
            final(self).candidates_spec() == old(self).candidates_spec(),
            final(self).error_spec() == old(self).error_spec(),
            match index {
                Some(i) => {
                    &&& old(self).cursor() <= i < old(self).candidates_spec().len()
                    &&& is_viable(old(self).candidates_spec()[i as int])
                    &&& forall|k: int|
                        old(self).cursor() <= k < i ==> !is_viable(
                            #[trigger] old(self).candidates_spec()[k],
                        )
                    &&& final(self).cursor() == i + 1
                    &&& old(self).pending() == seq![i as int] + final(self).pending()
                },
                None => {
                    &&& forall|k: int|
                        old(self).cursor() <= k < old(self).candidates_spec().len() ==> !is_viable(
                            #[trigger] old(self).candidates_spec()[k],
                        )
                    &&& final(self).cursor() == old(self).candidates_spec().len()
                    &&& old(self).pending() == Seq::<int>::empty()
                },
            },
    {
        proof {
            use_type_invariant(&*self);
        }
        let ghost cands = self.candidates@;
        let ghost start = self.next as int;
        let ghost error = self.last_error@;
        let mut i = self.next;
        while i < self.candidates.len()
            invariant
                self.candidates@ == cands,
                self.last_error@ == error,
                self.next == start,
                cands == old(self).candidates_spec(),
                error == old(self).error_spec(),
                start == old(self).cursor(),
                start <= i <= cands.len(),
                forall|k: int| start <= k < i ==> !is_viable(#[trigger] cands[k]),
                attempts_from(cands, start) == attempts_from(cands, i as int),
            decreases cands.len() - i,
        {
            let c = &self.candidates[i];
            if c.supported && c.present {
                self.next = i + 1;
                return Some(i);
            }
            i = i + 1;
        }
        self.next = i;
        None
    }

    /// Records that the candidate at `index` failed to load with `error`; this becomes
    /// the error the search reports if nothing more loads.
    pub fn record_failure(&mut self, index: usize, error: &str)
        requires
            index < old(self).candidates_spec().len(),
        ensures
            final(self).candidates_spec() == old(self).candidates_spec(),
            final(self).cursor() == old(self).cursor(),
            final(self).error_spec() == spec_load_failure_error(
                old(self).candidates_spec()[index as int].variant,
                error@,
            ),
    {
        proof {
            use_type_invariant(&*self);
        }
        let mut message = String::from_str("variant '");
        message.append(self.candidates[index].variant.name());
        message.append("' failed to load: ");
        message.append(error);
        self.last_error = message;
    }
}

/// A fresh search offers exactly the viable candidates, in preference order, and
/// reports the no-candidate error until one fails to load.
pub proof fn lemma_fresh_search_offers_viable_in_order(candidates: Seq<VariantCandidate>)
    ensures
        forall|j: int|
            0 <= j < attempts_from(candidates, 0).len() ==> {
                &&& 0 <= #[trigger] attempts_from(candidates, 0)[j] < candidates.len()
                &&& is_viable(candidates[attempts_from(candidates, 0)[j]])
            },
        forall|j: int, k: int|
            0 <= j < k < attempts_from(candidates, 0).len() ==> #[trigger] attempts_from(
                candidates,
                0,
            )[j] < #[trigger] attempts_from(candidates, 0)[k],
        forall|i: int|
            0 <= i < candidates.len() && is_viable(#[trigger] candidates[i]) ==> attempts_from(
                candidates,
                0,
            ).contains(i),
{
    lemma_attempts_shape(candidates, 0);
}

proof fn lemma_attempts_shape(candidates: Seq<VariantCandidate>, from: int)
    requires
        0 <= from,
    ensures
        forall|j: int|
            0 <= j < attempts_from(candidates, from).len() ==> {
                &&& from <= #[trigger] attempts_from(candidates, from)[j] < candidates.len()
                &&& is_viable(candidates[attempts_from(candidates, from)[j]])
            },
        forall|j: int, k: int|
            0 <= j < k < attempts_from(candidates, from).len() ==> #[trigger] attempts_from(
                candidates,
                from,
            )[j] < #[trigger] attempts_from(candidates, from)[k],
        forall|i: int|
            from <= i < candidates.len() && is_viable(#[trigger] candidates[i]) ==> attempts_from(
                candidates,
                from,
            ).contains(i),
    decreases candidates.len() - from,
{
    if from < candidates.len() {
        lemma_attempts_shape(candidates, from + 1);
        let rest = attempts_from(candidates, from + 1);
        if is_viable(candidates[from]) {
            let all = seq![from] + rest;
            assert(attempts_from(candidates, from) == all);
            assert forall|i: int|
                from <= i < candidates.len() && is_viable(#[trigger] candidates[i]) implies all.contains(
                i,
            ) by {
                if i == from {
                    assert(all[0] == from);
                } else {
                    let j = choose|j: int| 0 <= j < rest.len() && rest[j] == i;
                    assert(all[j + 1] == i);
                }
            }
        }
    }
}

/// The error for a graphics load when the Vulkan library of an engine family is absent.
pub open spec fn spec_missing_gpu_variant_error(kind: EngineKind) -> Seq<char> {
    match kind {
        EngineKind::Transcription => "no vulkan engine variant present in engines-dist"@,
        EngineKind::Completion => "no vulkan llm engine variant present in engines-dist"@,
    }
}

/// Whether a graphics load may go ahead: it may when the Vulkan library of the engine
/// family is present, and otherwise fails with the missing-variant error. Whether the
/// graphics build should be tried at all is the caller's decision.
pub fn check_gpu_variant_present(kind: EngineKind, present: bool) -> (r: Result<(), String>)
    ensures
        match r {
            Ok(()) => present,
            Err(message) => !present && message@ == spec_missing_gpu_variant_error(kind),
        },
{
    if present {
        Ok(())
    } else {
        match kind {
            EngineKind::Transcription => Err(
                String::from_str("no vulkan engine variant present in engines-dist"),
            ),
            EngineKind::Completion => Err(
                String::from_str("no vulkan llm engine variant present in engines-dist"),
            ),
        }
    }
}

/// An entry point that every engine library exports.
#[derive(Clone, Copy, Debug, PartialEq, Eq, Structural)]
pub enum EntryPoint {
    /// Reports the variant the library was built as.
    VariantName,
    /// Loads a model and returns its handle.
    Load,
    /// Runs the engine's work on a model: transcription or completion.
    Run,
    /// Frees a string the library returned.
    FreeString,
    /// Frees a model handle.
    Unload,
    /// The last error of a model handle.
    LastError,
}

/// The exported name of an entry point of an engine family.
pub open spec fn spec_entry_point_name(kind: EngineKind, entry: EntryPoint) -> Seq<char> {
    let suffix = match entry {
        EntryPoint::VariantName => "variant_name"@,
        EntryPoint::Load => "load"@,
        EntryPoint::Run => match kind {
            EngineKind::Transcription => "transcribe"@,
            EngineKind::Completion => "complete"@,
        },
        EntryPoint::FreeString => "free_string"@,
        EntryPoint::Unload => "unload"@,
        EntryPoint::LastError => "last_error"@,
    };
    spec_engine_prefix(kind) + suffix
}

/// The exported name of an entry point of an engine family.
pub fn entry_point_name(kind: EngineKind, entry: EntryPoint) -> (name: String)
    ensures
        name@ == spec_entry_point_name(kind, entry),
{
    let mut name = String::from_str(engine_prefix(kind));
    let suffix = match entry {
        EntryPoint::VariantName => "variant_name",
        EntryPoint::Load => "load",
        EntryPoint::Run => match kind {
            EngineKind::Transcription => "transcribe",
            EngineKind::Completion => "complete",
        },
        EntryPoint::FreeString => "free_string",
        EntryPoint::Unload => "unload",
        EntryPoint::LastError => "last_error",
    };
    name.append(suffix);
    name
}

/// The error for a library of `variant` whose entry points could not all be resolved.
pub open spec fn spec_expected_variant_error(error: Seq<char>, variant: EngineVariant) -> Seq<char> {
    error + " (expected variant '"@ + spec_variant_name(variant) + "')"@
}

/// The error for a library of `variant` whose entry points could not all be resolved:
/// the resolver's error, followed by the variant that was expected.
pub fn expected_variant_error(error: &str, variant: EngineVariant) -> (message: String)
    ensures
        message@ == spec_expected_variant_error(error@, variant),
{
    let mut message = String::from_str(error);
    message.append(" (expected variant '");
    message.append(variant.name());
    message.append("')");
    message
}

/// The error for a model load on which the engine returned no handle.
pub open spec fn spec_null_handle_error(kind: EngineKind, engine_variant: Seq<char>) -> Seq<char> {
    let lead = match kind {
        EngineKind::Transcription => "engine '"@,
        EngineKind::Completion => "llm engine '"@,
    };
    lead + engine_variant + "' returned a null handle loading the model"@
}

/// The error for a model load on which the engine (reporting itself as
/// `engine_variant`) returned no handle.
pub fn null_handle_error(kind: EngineKind, engine_variant: &str) -> (message: String)
    ensures
        message@ == spec_null_handle_error(kind, engine_variant@),
{
    let mut message = match kind {
        EngineKind::Transcription => String::from_str("engine '"),
        EngineKind::Completion => String::from_str("llm engine '"),
    };
    message.append(engine_variant);
    message.append("' returned a null handle loading the model");
    message
}

/// The error for a native run that returned a non-zero `status`, with the engine's
/// last error `detail`.
pub open spec fn spec_native_failure(kind: EngineKind, status: i32, detail: Seq<char>) -> Seq<char> {
    let lead = match kind {
        EngineKind::Transcription => "transcribe failed (status="@,
        EngineKind::Completion => "llm completion failed (status="@,
    };
    lead + decimal_spec(status as int) + "): "@ + detail
}

/// The outcome of a native run (transcription or completion) that returned `status`.
/// `detail` is what the engine handed back: its output text when the status is zero,
/// its last error otherwise. A zero status gives the output without leading and
/// trailing white space; any other status is a failure naming the status and error.
pub fn native_call_outcome(kind: EngineKind, status: i32, detail: &str) -> (r: Result<String, String>)
    ensures
        match r {
            Ok(text) => status == 0 && text@ == trim_spec(detail@),
            Err(message) => status != 0 && message@ == spec_native_failure(kind, status, detail@),
        },
{
    if status != 0 {
        let mut message = match kind {
            EngineKind::Transcription => String::from_str("transcribe failed (status="),
            EngineKind::Completion => String::from_str("llm completion failed (status="),
        };
        let code = decimal_text(status);
        message.append(code.as_str());
        message.append("): ");
        message.append(detail);
        Err(message)
    } else {
        Ok(trim_text(detail))
    }
}

} // verus!
