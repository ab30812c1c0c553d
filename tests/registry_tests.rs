use taurscribe::registry::{get_model_config, same_text};

#[test]
fn single_file_whisper_models() {
    let c = get_model_config("whisper-tiny").unwrap();
    assert_eq!(c.repo, "ggerganov/whisper.cpp");
    assert_eq!(c.branch, "main");
    assert_eq!(c.files.len(), 1);
    assert_eq!(c.files[0].filename, "ggml-tiny.bin");
    assert_eq!(c.files[0].remote_path, "ggml-tiny.bin");
    assert_eq!(c.files[0].sha1, "bd577a113a864445d4c299885e0cb97d4ba92b5f");
    assert!(c.subdirectory.is_none());
    let c = get_model_config("whisper-large-v3-turbo-q8_0").unwrap();
    assert_eq!(c.files[0].filename, "ggml-large-v3-turbo-q8_0.bin");
}

#[test]
fn multi_file_models() {
    let c = get_model_config("parakeet-nemotron").unwrap();
    assert_eq!(c.repo, "altunenes/parakeet-rs");
    assert_eq!(c.files.len(), 4);
    assert_eq!(c.files[2].remote_path, "nemotron-speech-streaming-en-0.6b/encoder.onnx.data");
    assert_eq!(c.subdirectory, Some("parakeet-nemotron"));
    let c = get_model_config("qwen2.5-0.5b-safetensors").unwrap();
    assert_eq!(c.files.len(), 7);
    assert_eq!(c.subdirectory, Some("Qwen2.5-0.5B-GPU"));
    let c = get_model_config("whisper-tiny-coreml").unwrap();
    assert_eq!(c.files[0].remote_path, "ggml-tiny-encoder.mlmodelc.zip");
    assert_eq!(c.files[0].sha1, "");
}

#[test]
fn unknown_models() {
    assert!(get_model_config("").is_none());
    assert!(get_model_config("whisper-tiny ").is_none());
    assert!(get_model_config("Whisper-tiny").is_none());
}

#[test]
fn text_comparison() {
    assert!(same_text("abc", "abc"));
    assert!(!same_text("abc", "abd"));
    assert!(!same_text("ab", "abc"));
    assert!(same_text("", ""));
}

use taurscribe::registry::{contains_text, format_model_name};

#[test]
fn model_display_names() {
    assert_eq!(format_model_name("tiny.en-q5_1"), "Tiny English (Q5_1)");
    assert_eq!(format_model_name("large-v3-turbo-q8_0"), "Large V3 Turbo Multilingual (Q8_0)");
    assert_eq!(format_model_name("large-v3"), "Large V3 Multilingual");
    assert_eq!(format_model_name("large-v1"), "Large Multilingual");
    assert_eq!(format_model_name("medium.en-q5_0"), "Medium English (Q5_0)");
    assert_eq!(format_model_name("custom"), " Multilingual");
}

#[test]
fn substring_search() {
    assert!(contains_text("tiny.en", ".en"));
    assert!(contains_text("abc", ""));
    assert!(!contains_text("ab", "abc"));
    assert!(!contains_text("tiny", "tinyx"));
    assert!(contains_text("aab", "ab"));
}
