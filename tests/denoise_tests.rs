use taurscribe::denoise::Denoiser;

fn signal(n: usize) -> Vec<i16> {
    (0..n).map(|i| (((i * 37) % 200) as i16 - 100) * 50).collect()
}

#[test]
fn split_input_matches_one_call() {
    let x = signal(960);
    let mut a = Denoiser::new();
    let mut out_a = a.process(&x[..100]);
    out_a.extend(a.process(&x[100..]));
    let mut b = Denoiser::new();
    let out_b = b.process(&x);
    assert_eq!(out_a.len(), 960);
    assert_eq!(out_a, out_b);
}

#[test]
fn partial_frames_are_held_back() {
    let mut d = Denoiser::new();
    assert!(d.process(&signal(300)).is_empty());
    assert_eq!(d.process(&signal(300)).len(), 480);
    assert_eq!(d.process(&[]).len(), 0);
    assert_eq!(d.flush().len(), 120);
    assert!(d.flush().is_empty());
}

#[test]
fn whole_frames_pass_through_at_once() {
    let mut d = Denoiser::new();
    assert_eq!(d.process(&signal(1440)).len(), 1440);
    assert!(d.flush().is_empty());
}

#[test]
fn frames_are_filtered() {
    let x = signal(1440);
    let mut d = Denoiser::new();
    let out = d.process(&x);
    assert_eq!(out.len(), x.len());
    assert_ne!(out, x);
}
