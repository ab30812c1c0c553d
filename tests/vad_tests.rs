use taurscribe::vad::{merge_segments, SpeechSegment, VADManager, DEFAULT_THRESHOLD};

fn seg(start: usize, end: usize) -> SpeechSegment {
    SpeechSegment { start, end }
}

#[test]
fn zero_block_is_silence() {
    let vad = VADManager::new().unwrap();
    assert_eq!(vad.threshold, DEFAULT_THRESHOLD);
    assert_eq!(vad.is_speech(&vec![0i16; 512]), 0);
    assert_eq!(vad.is_speech(&[]), 0);
}

#[test]
fn loud_block_is_certain_speech() {
    let vad = VADManager::new().unwrap();
    assert_eq!(vad.is_speech(&vec![5000i16; 512]), 1000);
    // exactly five times the threshold
    assert_eq!(vad.is_speech(&vec![820i16; 100]), 1000);
    assert_eq!(vad.is_speech(&vec![-820i16; 100]), 1000);
}

#[test]
fn middle_block_is_linear() {
    let vad = VADManager::new().unwrap();
    // rms = 3t: (3t - t) / 4t = one half
    assert_eq!(vad.is_speech(&vec![492i16; 64]), 500);
    assert!(!vad.is_speech_block(&vec![492i16; 64]));
    // rms = 2t: one quarter
    assert_eq!(vad.is_speech(&vec![328i16; 64]), 250);
    // just below the threshold
    assert_eq!(vad.is_speech(&vec![163i16; 64]), 0);
    // at the threshold
    assert_eq!(vad.is_speech(&vec![164i16; 64]), 0);
    assert!(vad.is_speech_block(&vec![600i16; 64]));
}

#[test]
fn custom_threshold() {
    let vad = VADManager::with_threshold(100);
    assert_eq!(vad.is_speech(&vec![300i16; 10]), 500);
    assert_eq!(vad.is_speech(&vec![99i16; 10]), 0);
}

fn two_bursts() -> Vec<i16> {
    let mut a = vec![0i16; 48000];
    for i in 16000..32000 {
        a[i] = 5000;
    }
    for i in 36800..48000 {
        a[i] = 5000;
    }
    a
}

#[test]
fn padded_segments_merge_into_one() {
    let vad = VADManager::new().unwrap();
    let segs = vad.get_speech_timestamps(&two_bursts(), 500);
    assert_eq!(segs, vec![seg(8192, 48000)]);
    let start_s = segs[0].start as f64 / 16000.0;
    let end_s = segs[0].end as f64 / 16000.0;
    assert!((start_s - 0.5).abs() < 0.05);
    assert!((end_s - 3.0).abs() < 1e-9);
}

#[test]
fn silence_has_no_segments() {
    let vad = VADManager::new().unwrap();
    assert!(vad.get_speech_timestamps(&vec![0i16; 32000], 500).is_empty());
    assert!(vad.get_speech_timestamps(&[], 500).is_empty());
}

#[test]
fn short_noise_is_not_a_segment() {
    let vad = VADManager::new().unwrap();
    let mut a = vec![0i16; 32000];
    // four frames of noise: below the five-frame minimum
    for i in 0..2048 {
        a[8192 + i] = 4000;
    }
    assert!(vad.get_speech_timestamps(&a, 0).is_empty());
}

#[test]
fn separate_bursts_stay_separate() {
    let vad = VADManager::new().unwrap();
    let mut a = vec![0i16; 64000];
    for i in 0..8192 {
        a[i] = 3000;
    }
    for i in 40960..49152 {
        a[i] = 3000;
    }
    let segs = vad.get_speech_timestamps(&a, 0);
    // first run ends at the first silent frame, second starts at its frame
    assert_eq!(segs, vec![seg(0, 8192), seg(40960, 49152)]);
}

#[test]
fn merge_joins_overlapping_and_touching() {
    let s = vec![seg(0, 10), seg(5, 20), seg(21, 30), seg(30, 40)];
    let m = merge_segments(&s);
    assert_eq!(m, vec![seg(0, 20), seg(21, 40)]);
    assert_eq!(merge_segments(&m), m);
    assert!(merge_segments(&vec![]).is_empty());
    assert_eq!(merge_segments(&vec![seg(3, 8), seg(4, 6)]), vec![seg(3, 8)]);
}
