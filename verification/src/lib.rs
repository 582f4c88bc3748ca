//! VoxBridge: a focused local speech-recognition and text-refinement runtime adapter.
//!
//! This crate holds the runtime's decision logic: which native engine variant a
//! machine should load and where it lives, how the native entry points are named,
//! how native results and failures are reported, the Faster Whisper worker protocol,
//! and the Ollama chat request and reply handling. Loading native libraries,
//! spawning processes, probing the file system and talking to the network are left
//! to the caller, which hands the observed outcomes back to these functions.

pub mod platform;
pub mod text;
pub mod path;
pub mod engine;
pub mod faster_whisper;
pub mod ollama;

pub use engine::resolve_engines_dir;
pub use faster_whisper::{FasterWhisperConfig, FasterWhisperDevice, FasterWhisperRuntime};
pub use platform::platform_arch_dir;
