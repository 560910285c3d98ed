use tiny_dfr::display::{fallback_pixels, looks_like_touchbar};
use tiny_dfr::pixel_shift::{PixelShift, PIXEL_SHIFT_PERIOD_MS};
use tiny_dfr::text::{contains_str, is_digitizer_name};

#[test]
fn touchbar_aspect_check() {
    assert!(looks_like_touchbar(60, 2170));
    assert!(looks_like_touchbar(60, 2008));
    assert!(!looks_like_touchbar(1920, 1080));
    assert!(!looks_like_touchbar(0, 2170));
    assert!(!looks_like_touchbar(80, 2170));
}

#[test]
fn fallback_image_expands_bits() {
    let px = fallback_pixels(&vec![0b0000_0001, 0xff]);
    assert_eq!(px.len(), 64);
    assert_eq!(&px[0..4], &[0, 0, 0, 0]);
    assert!(px[4..32].iter().all(|b| *b == 0xff));
    assert!(px[32..64].iter().all(|b| *b == 0));
}

#[test]
fn pixel_shift_walks_and_waits() {
    let mut s = PixelShift::new(0);
    assert_eq!(s.get(), (-2, 0));
    assert_eq!(s.update(1_000), (false, PIXEL_SHIFT_PERIOD_MS - 1_000));
    assert_eq!(s.update(PIXEL_SHIFT_PERIOD_MS), (true, PIXEL_SHIFT_PERIOD_MS));
    assert_eq!(s.get(), (-1, 0));
    for k in 2..=5u64 {
        s.update(k * PIXEL_SHIFT_PERIOD_MS);
    }
    assert_eq!(s.step, 5);
    assert_eq!(s.get(), (1, 0));
    for k in 6..=8u64 {
        s.update(k * PIXEL_SHIFT_PERIOD_MS);
    }
    assert_eq!(s.step, 0);
}

#[test]
fn digitizer_and_substrings() {
    assert!(is_digitizer_name("Apple Inc. Touch Bar Display Touchpad"));
    assert!(!is_digitizer_name("Apple Internal Keyboard"));
    assert!(contains_str("abc", ""));
    assert!(contains_str("abc", "abc"));
    assert!(!contains_str("ab", "abc"));
    assert!(contains_str("xxabyab", "aby"));
}
