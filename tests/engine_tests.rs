use taurscribe::engine::{acceleration_order, after_attempt, LoadStep};
use taurscribe::session::SessionError;
use taurscribe::types::{ASREngine, GpuBackend, HotkeyBinding};

#[test]
fn tier_orders() {
    assert_eq!(
        acceleration_order(ASREngine::Parakeet, false, true, false),
        vec![GpuBackend::Cuda, GpuBackend::DirectML, GpuBackend::Cpu]
    );
    assert_eq!(
        acceleration_order(ASREngine::Parakeet, false, false, true),
        vec![GpuBackend::Cuda, GpuBackend::Cpu]
    );
    assert_eq!(acceleration_order(ASREngine::Parakeet, true, false, true), vec![GpuBackend::Cpu]);
    assert_eq!(
        acceleration_order(ASREngine::Whisper, false, false, true),
        vec![GpuBackend::Cuda, GpuBackend::Cpu]
    );
    assert_eq!(
        acceleration_order(ASREngine::Whisper, true, false, false),
        vec![GpuBackend::Vulkan, GpuBackend::Cpu]
    );
}

#[test]
fn fallback_steps() {
    let tiers = vec![GpuBackend::Cuda, GpuBackend::DirectML, GpuBackend::Cpu];
    assert_eq!(after_attempt(&tiers, 0, Ok(())), Ok(LoadStep::Loaded(GpuBackend::Cuda)));
    assert_eq!(after_attempt(&tiers, 0, Err("no cuda".to_string())), Ok(LoadStep::TryNext(1)));
    assert_eq!(after_attempt(&tiers, 2, Ok(())), Ok(LoadStep::Loaded(GpuBackend::Cpu)));
    assert_eq!(
        after_attempt(&tiers, 2, Err("missing file".to_string())),
        Err(SessionError::AccelerationFallbackExhausted("missing file".to_string()))
    );
}

#[test]
fn labels() {
    assert_eq!(GpuBackend::Cuda.label(), "CUDA");
    assert_eq!(GpuBackend::Vulkan.label(), "Vulkan");
    assert_eq!(GpuBackend::DirectML.label(), "DirectML");
    assert_eq!(GpuBackend::Cpu.label(), "CPU");
    assert_eq!(ASREngine::Whisper.label(), "Whisper");
    assert_eq!(ASREngine::Parakeet.label(), "Parakeet");
}

#[test]
fn default_hotkey() {
    let h = HotkeyBinding::default();
    assert_eq!(h.keys, vec!["ControlLeft".to_string(), "MetaLeft".to_string()]);
}

use taurscribe::engine::{join_segments, split_pieces, RollingContext};

#[test]
fn rolling_context_accumulates() {
    let mut c = RollingContext::new();
    assert_eq!(c.prompt(), None);
    assert_eq!(c.record("  hi "), "hi");
    assert_eq!(c.prompt(), Some("hi".to_string()));
    assert_eq!(c.record(" \n"), "");
    assert_eq!(c.record("there"), "there");
    assert_eq!(c.prompt(), Some("hi there".to_string()));
    c.clear();
    assert_eq!(c.prompt(), None);
}

#[test]
fn segment_texts_joined() {
    let segs = vec![" a ".to_string(), "b".to_string()];
    assert_eq!(join_segments(&segs, true), "a  b");
    assert_eq!(join_segments(&segs, false), "a b");
    assert_eq!(join_segments(&vec![], true), "");
}

#[test]
fn fixed_pieces() {
    let a: Vec<i16> = vec![1, 2, 3, 4, 5];
    assert_eq!(split_pieces(&a, 2, true), vec![vec![1, 2], vec![3, 4], vec![5, 0]]);
    assert_eq!(split_pieces(&a, 2, false), vec![vec![1, 2], vec![3, 4], vec![5]]);
    assert_eq!(split_pieces(&a, 5, true), vec![vec![1, 2, 3, 4, 5]]);
    assert!(split_pieces(&[], 3, true).is_empty());
}
