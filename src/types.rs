//! Plain data shared by the session logic and its callers.
use vstd::prelude::*;

verus! {

/// What the application is doing, for status display.
#[derive(Debug, Clone, Copy, PartialEq, Eq, Structural)]
pub enum AppState {
    Ready,
    Recording,
    Processing,
}

/// The two recognizer families.
#[derive(Debug, Clone, Copy, PartialEq, Eq, Structural)]
pub enum ASREngine {
    /// Windowed-batch engine: long windows, voice gating, final pass.
    Whisper,
    /// Streaming engine: short windows, running transcript.
    Parakeet,
}

impl ASREngine {
    /// The engine's display name.
    pub open spec fn spec_label(self) -> Seq<char> {
        match self {
            ASREngine::Whisper => seq!['W', 'h', 'i', 's', 'p', 'e', 'r'],
            ASREngine::Parakeet => seq!['P', 'a', 'r', 'a', 'k', 'e', 'e', 't'],
        }
    }

    /// The engine's display name, as carried in transcript chunks.
    pub fn label(&self) -> (r: String)
        ensures
            r@ == self.spec_label(),
    {
        match self {
            ASREngine::Whisper => {
                let r = "Whisper".to_owned();
                proof {
                    reveal_strlit("Whisper");
                }
                r
            },
            ASREngine::Parakeet => {
                let r = "Parakeet".to_owned();
                proof {
                    reveal_strlit("Parakeet");
                }
                r
            },
        }
    }
}

/// Hardware a model was loaded on.
#[derive(Debug, Clone, Copy, PartialEq, Eq, Structural)]
pub enum GpuBackend {
    Cuda,
    Vulkan,
    DirectML,
    Cpu,
}

impl GpuBackend {
    /// The backend's display name.
    pub open spec fn spec_label(self) -> Seq<char> {
        match self {
            GpuBackend::Cuda => seq!['C', 'U', 'D', 'A'],
            GpuBackend::Vulkan => seq!['V', 'u', 'l', 'k', 'a', 'n'],
            GpuBackend::DirectML => seq!['D', 'i', 'r', 'e', 'c', 't', 'M', 'L'],
            GpuBackend::Cpu => seq!['C', 'P', 'U'],
        }
    }

    /// The backend's display name ("CUDA", "Vulkan", "DirectML", "CPU").
    pub fn label(&self) -> (r: String)
        ensures
            r@ == self.spec_label(),
    {
        match self {
            GpuBackend::Cuda => {
                proof {
                    reveal_strlit("CUDA");
                }
                "CUDA".to_owned()
            },
            GpuBackend::Vulkan => {
                proof {
                    reveal_strlit("Vulkan");
                }
                "Vulkan".to_owned()
            },
            GpuBackend::DirectML => {
                proof {
                    reveal_strlit("DirectML");
                }
                "DirectML".to_owned()
            },
            GpuBackend::Cpu => {
                proof {
                    reveal_strlit("CPU");
                }
                "CPU".to_owned()
            },
        }
    }
}

/// Hotkey binding: up to two keys held together.
#[derive(Debug, Clone)]
pub struct HotkeyBinding {
    pub keys: Vec<String>,
}

impl Default for HotkeyBinding {
    /// Left Control with the left Meta key.
    fn default() -> (r: HotkeyBinding)
        ensures
            r.keys@.len() == 2,
            r.keys@[0]@ == "ControlLeft"@,
            r.keys@[1]@ == "MetaLeft"@,
    {
        let mut keys: Vec<String> = Vec::new();
        keys.push("ControlLeft".to_owned());
        keys.push("MetaLeft".to_owned());
        HotkeyBinding { keys }
    }
}

/// Text decoded from one window, for live display.
#[derive(Debug, Clone)]
pub struct TranscriptionChunk {
    pub text: String,
    pub processing_time_ms: u32,
    /// Display name of the engine that produced it.
    pub method: String,
}

/// Load status of the streaming engine.
#[derive(Debug, Clone)]
pub struct ParakeetStatus {
    pub loaded: bool,
    pub model_id: Option<String>,
    pub model_type: Option<String>,
    pub backend: String,
}

/// Download progress of a model, for display.
#[derive(Debug, Clone)]
pub struct DownloadProgressPayload {
    pub model_id: String,
    pub total_bytes: u64,
    pub downloaded_bytes: u64,
    pub status: String,
    /// File being downloaded, counted from 1.
    pub current_file: u32,
    pub total_files: u32,
}

/// Presence of a model on disk.
#[derive(Debug, Clone)]
pub struct ModelStatus {
    pub id: String,
    pub downloaded: bool,
    pub verified: bool,
    pub size_on_disk: u64,
}

} // verus!
