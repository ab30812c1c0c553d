use taurscribe::models::{parakeet_entry, parakeet_kinds, whisper_model_id, ParakeetKind};

fn names(v: &[&str]) -> Vec<String> {
    v.iter().map(|s| s.to_string()).collect()
}

#[test]
fn whisper_files() {
    assert_eq!(whisper_model_id("ggml-tiny.en.bin"), Some("tiny.en".to_string()));
    assert_eq!(whisper_model_id("ggml-ggml-x.bin.bin"), Some("x".to_string()));
    assert_eq!(whisper_model_id("ggml-silero-v5.bin"), None);
    assert_eq!(whisper_model_id("tiny.bin"), None);
    assert_eq!(whisper_model_id("ggml-tiny.gguf"), None);
    assert_eq!(whisper_model_id("ggml-.bin"), Some(String::new()));
}

#[test]
fn streaming_families() {
    let nemo = names(&["encoder.onnx", "decoder_joint.onnx", "tokenizer.model"]);
    assert_eq!(parakeet_kinds(&nemo, false), vec![ParakeetKind::Nemotron]);
    let eou = names(&["encoder.onnx", "decoder_joint.onnx", "tokenizer.json"]);
    assert_eq!(parakeet_kinds(&eou, false), vec![ParakeetKind::Eou]);
    let tdt = names(&["encoder.onnx", "decoder.onnx", "joint.onnx", "vocab.txt"]);
    assert_eq!(parakeet_kinds(&tdt, false), vec![ParakeetKind::Tdt]);
    let both = names(&["model.onnx", "tokenizer.json", "encoder.onnx", "decoder_joint.onnx"]);
    assert_eq!(parakeet_kinds(&both, false), vec![ParakeetKind::Eou, ParakeetKind::Ctc]);
    assert_eq!(parakeet_kinds(&both, true), vec![ParakeetKind::Ctc, ParakeetKind::Eou]);
    assert!(parakeet_kinds(&names(&["readme.md"]), false).is_empty());
}

#[test]
fn streaming_entries() {
    assert_eq!(
        parakeet_entry(ParakeetKind::Nemotron, "nemo-en", false),
        ("nemotron:nemo-en".to_string(), "Nemotron (Streaming) - nemo-en".to_string())
    );
    assert_eq!(
        parakeet_entry(ParakeetKind::Nemotron, "nemo-en", true),
        ("nemotron:parakeet/nemo-en".to_string(), "Nemotron - nemo-en".to_string())
    );
    assert_eq!(
        parakeet_entry(ParakeetKind::Ctc, "ctc-en", true),
        ("ctc:parakeet/ctc-en".to_string(), "Parakeet CTC - ctc-en".to_string())
    );
    assert_eq!(ParakeetKind::Tdt.label(), "TDT");
}
