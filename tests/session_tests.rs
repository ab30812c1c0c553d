use taurscribe::session::{
    downmix, final_pass_audio, silence_marker, splice_speech, whisper_final_text, AudioState,
    CaptureRouter, DeviceChoice, SessionError, StartPlan, StopPlan,
};
use taurscribe::types::{ASREngine, AppState};
use taurscribe::vad::{SpeechSegment, VADManager};

#[test]
fn one_session_at_a_time() {
    let mut s = AudioState::new();
    assert!(!s.is_recording());
    let plan = s.start(true, 48000, 2).unwrap();
    assert_eq!(
        plan,
        StartPlan { engine: ASREngine::Whisper, create_denoiser: true, lead_in_samples: 24000 }
    );
    assert!(s.is_recording());
    assert_eq!(s.start(false, 48000, 2), Err(SessionError::AlreadyRecording));
    assert_eq!(
        s.stop(),
        Ok(StopPlan { engine: ASREngine::Whisper, tail_silence_samples: 48000 })
    );
    assert_eq!(s.stop(), Err(SessionError::NotRecording));
}

#[test]
fn switching_mid_session_is_refused() {
    let mut s = AudioState::new();
    assert_eq!(s.loaded_model(ASREngine::Whisper), Err(SessionError::EngineNotInitialized));
    assert_eq!(s.switch_model(ASREngine::Whisper, "base.en".to_string()), Ok(()));
    s.start(false, 16000, 1).unwrap();
    assert_eq!(s.check_switch(), Err(SessionError::EngineBusy));
    assert_eq!(
        s.switch_model(ASREngine::Whisper, "large-v3".to_string()),
        Err(SessionError::EngineBusy)
    );
    assert_eq!(s.set_active_engine(ASREngine::Parakeet), Err(SessionError::EngineBusy));
    assert_eq!(s.loaded_model(ASREngine::Whisper), Ok("base.en".to_string()));
    assert_eq!(s.get_active_engine(), ASREngine::Whisper);
    s.stop().unwrap();
    assert_eq!(s.check_switch(), Ok(()));
    assert_eq!(s.set_active_engine(ASREngine::Parakeet), Ok(()));
    assert_eq!(s.start(false, 16000, 1).unwrap().engine, ASREngine::Parakeet);
}

#[test]
fn status_follows_session() {
    let mut s = AudioState::new();
    s.start(false, 16000, 1).unwrap();
    s.stop().unwrap();
    s.set_status(AppState::Ready);
    assert!(!s.is_recording());
}

#[test]
fn device_resolution() {
    let mut s = AudioState::new();
    let names = vec!["Mic A".to_string(), "Mic B".to_string()];
    assert_eq!(s.resolve_device(&names), Ok(DeviceChoice::Default));
    s.set_input_device(Some("Mic B".to_string()));
    assert_eq!(s.resolve_device(&names), Ok(DeviceChoice::Named("Mic B".to_string())));
    s.set_input_device(Some("Gone".to_string()));
    assert_eq!(
        s.resolve_device(&names),
        Err(SessionError::DeviceNotFound("Gone".to_string()))
    );
    s.set_input_device(None);
    assert_eq!(s.resolve_device(&vec![]), Ok(DeviceChoice::Default));
}

#[test]
fn downmix_averages_toward_zero() {
    assert_eq!(downmix(&[100, 200, -3, -4, 7], 2), vec![150, -3, 3]);
    assert_eq!(downmix(&[1, 2, 3], 1), vec![1, 2, 3]);
    assert_eq!(downmix(&[-32768, -32768, 32767, 32767], 2), vec![-32768, 32767]);
    assert!(downmix(&[], 2).is_empty());
}

#[test]
fn router_downmixes_and_denoises() {
    let mut plain = CaptureRouter::new(2, 48000, false);
    let r = plain.route(&[10, 20, 30, 40]);
    assert_eq!(r.persist, vec![10, 20, 30, 40]);
    assert_eq!(r.transcribe, vec![15, 35]);
    assert_eq!(plain.lead_in().len(), 24000);

    let mut den = CaptureRouter::new(1, 48000, true);
    let r = den.route(&vec![1000i16; 500]);
    assert_eq!(r.persist.len(), 500);
    assert_eq!(r.transcribe.len(), 480);
    let r = den.route(&vec![1000i16; 460]);
    assert_eq!(r.transcribe.len(), 480);
}

#[test]
fn splice_keeps_speech_only() {
    let a: Vec<i16> = (0..10).collect();
    let segs = vec![SpeechSegment { start: 1, end: 3 }, SpeechSegment { start: 6, end: 20 }];
    assert_eq!(splice_speech(&a, &segs), vec![1, 2, 6, 7, 8, 9]);
    let far = vec![SpeechSegment { start: 15, end: 20 }];
    assert!(splice_speech(&a, &far).is_empty());
}

#[test]
fn final_pass_of_silence_is_none() {
    let vad = VADManager::new().unwrap();
    assert!(final_pass_audio(&vad, &vec![0i16; 48000]).is_none());
    assert_eq!(silence_marker(), "[silence]");
    let mut a = vec![0i16; 48000];
    for i in 16000..32000 {
        a[i] = 4000;
    }
    let joined = final_pass_audio(&vad, &a).unwrap();
    // 1.0 s of speech, padded to start 15 frames early, ending at the frame
    // where the silence outlasted the padding
    assert_eq!(joined.len(), 39936 - 8192);
}

#[test]
fn final_text_from_engine_result() {
    assert_eq!(whisper_final_text(Ok(" so , it works ".to_string())), "So, it works");
    assert_eq!(
        whisper_final_text(Err("boom".to_string())),
        "Recording saved, but transcription failed: boom"
    );
}
