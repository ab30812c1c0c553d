use taurscribe::session::CaptureRouter;
use taurscribe::transcriber::Transcriber;
use taurscribe::types::ASREngine;
use taurscribe::vad::VADManager;

#[test]
fn window_lengths_per_engine() {
    assert_eq!(Transcriber::new(ASREngine::Whisper, 16000).window_len(), 96000);
    assert_eq!(Transcriber::new(ASREngine::Parakeet, 16000).window_len(), 17920);
    assert_eq!(Transcriber::new(ASREngine::Parakeet, 44100).window_len(), 49392);
}

#[test]
fn backlog_drops_oldest_window() {
    let vad = VADManager::new().unwrap();
    let mut t = Transcriber::new(ASREngine::Whisper, 100);
    let samples: Vec<i16> = (0..1500).map(|i| if i % 2 == 0 { 3000 } else { -3000 + (i as i16 % 7) }).collect();
    let ws = t.push(&samples, &vad);
    assert_eq!(ws.len(), 1);
    assert_eq!(ws[0], samples[600..1200].to_vec());
    // 300 samples wait; 300 more fill a window
    let ws = t.push(&samples[..300], &vad);
    assert_eq!(ws.len(), 1);
    assert_eq!(ws[0][..300], samples[1200..1500]);
}

#[test]
fn streaming_windows_are_not_gated() {
    let vad = VADManager::new().unwrap();
    let mut t = Transcriber::new(ASREngine::Parakeet, 100);
    let samples: Vec<i16> = (0..400).map(|i| i as i16).collect();
    let ws = t.push(&samples, &vad);
    assert_eq!(ws, vec![samples[112..224].to_vec(), samples[224..336].to_vec()]);
    let last = t.finish();
    assert_eq!(last, vec![samples[336..400].to_vec()]);
}

#[test]
fn silent_windows_skip_the_batch_engine() {
    let vad = VADManager::new().unwrap();
    let mut t = Transcriber::new(ASREngine::Whisper, 100);
    assert!(t.push(&vec![0i16; 600], &vad).is_empty());
    assert_eq!(t.push(&vec![2000i16; 600], &vad).len(), 1);
}

#[test]
fn short_remnant_is_dropped() {
    let vad = VADManager::new().unwrap();
    let mut t = Transcriber::new(ASREngine::Whisper, 16000);
    t.push(&vec![100i16; 1600], &vad);
    assert!(t.finish().is_empty());
    t.push(&vec![100i16; 1601], &vad);
    assert_eq!(t.finish().len(), 1);
}

#[test]
fn emission_rules() {
    let mut w = Transcriber::new(ASREngine::Whisper, 16000);
    assert!(w.accept("   ".to_string(), 5).is_none());
    let c = w.accept(" hi ".to_string(), 7).unwrap();
    assert_eq!(c.text, " hi ");
    assert_eq!(c.processing_time_ms, 7);
    assert_eq!(c.method, "Whisper");
    assert_eq!(w.session_text(), "");

    let mut p = Transcriber::new(ASREngine::Parakeet, 16000);
    assert!(p.accept(String::new(), 1).is_none());
    assert_eq!(p.accept(" ".to_string(), 1).unwrap().method, "Parakeet");
}

#[test]
fn streaming_text_is_emitted_chunks_cleaned() {
    let mut p = Transcriber::new(ASREngine::Parakeet, 16000);
    let mut emitted = String::new();
    for text in ["hello ", "", "world", " .", " again  !"] {
        if let Some(c) = p.accept(text.to_string(), 3) {
            emitted.push_str(&c.text);
        }
    }
    assert_eq!(emitted, "hello world . again  !");
    assert_eq!(p.session_text(), "Hello world. again !");
}

#[test]
fn session_without_denoise_persists_every_sample() {
    let vad = VADManager::new().unwrap();
    let rate: u32 = 16000;
    let mut router = CaptureRouter::new(1, rate, false);
    let mut worker = Transcriber::new(ASREngine::Whisper, rate);
    let mut decoded = 0usize;
    decoded += worker.push(&router.lead_in(), &vad).len();
    let mut written = 0usize;
    let mut delivered = 0usize;
    for b in 0..15 {
        let block: Vec<i16> = (0..1600).map(|i| ((i * 13 + b) % 2000) as i16 - 1000).collect();
        delivered += block.len();
        let r = router.route(&block);
        assert_eq!(r.persist, block);
        written += r.persist.len();
        decoded += worker.push(&r.transcribe, &vad).len();
    }
    let tail = router.close();
    assert_eq!(tail.len(), 16000);
    assert!(tail.iter().all(|&x| x == 0));
    decoded += worker.push(&tail, &vad).len();
    let last = worker.finish();
    assert_eq!(written, delivered);
    assert_eq!(written, 24000);
    assert_eq!(decoded, 0);
    assert_eq!(last.len(), 1);
    assert_eq!(last[0].len(), 8000 + 24000 + 16000);
}
