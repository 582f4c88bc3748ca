# VoxBridge

The decision logic of a local speech-recognition and text-refinement runtime,
verified with Verus.

- `src/platform.rs` – build targets, the per-platform engine directory name, library
  extensions, and the processor variants a machine can choose between.
- `src/engine.rs` – engine library file names and paths, engine-directory
  resolution, the in-order search over viable variants, entry-point names, and how
  native results and failures are reported.
- `src/faster_whisper.rs` – Faster Whisper configuration, runtime discovery, and the
  numbered request/response protocol with the worker process.
- `src/ollama.rs` – Ollama endpoints, the chat request, and reply handling.
- `src/text.rs`, `src/path.rs` – trimming, C-string sanitizing, decimal and
  hexadecimal rendering, and path joining.
- `app/` – the unverified side: native library loading, the worker process, HTTP,
  and platform and processor detection, each feeding its observations to the library.
