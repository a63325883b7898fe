use quantum_loops::bitmap::Bitmap;
use quantum_loops::level::default_color;
use quantum_loops::sound::SoundAction;
use quantum_loops::sound::can_play;
use quantum_loops::sound::enabled_sounds_mask;
use quantum_loops::sound::play_action;
use quantum_loops::sound::play_unique_action;

#[test]
fn bitmap_single_bits_round_trip() {
    let mut m = Bitmap::empty();
    assert!(!m.get(0));
    assert!(!m.get(31));
    m.on(0);
    assert!(m.get(0));
    assert!(!m.get(1));
    m.on(31);
    assert!(m.get(31));
    m.off(0);
    assert!(!m.get(0));
    assert!(m.get(31));
}

#[test]
fn bitmap_set_chooses_between_on_and_off() {
    let mut m = Bitmap::new(0);
    m.set(3, true);
    assert!(m.get(3));
    m.set(3, false);
    assert!(!m.get(3));
}

#[test]
fn bitmap_with_variants_leave_the_original_untouched() {
    let m = Bitmap::empty();
    let n = m.with_on(2).with_set(4, true).with_off(2);
    assert!(!m.get(2));
    assert!(!n.get(2));
    assert!(n.get(4));
    let p = n.with_set(4, false);
    assert!(!p.get(4));
}

#[test]
fn bitmap_full_has_every_bit_and_default_none() {
    let f = Bitmap::full();
    assert!(f.get(0));
    assert!(f.get(15));
    assert!(f.get(31));
    let d = Bitmap::default();
    assert!(!d.get(0));
    assert!(!d.get(31));
}

#[test]
fn bitmap_intersects_exactly_on_shared_bits() {
    let a = Bitmap::empty().with_on(1);
    let b = Bitmap::empty().with_on(1).with_on(5);
    let c = Bitmap::empty().with_on(6);
    assert!(a.intersects(b));
    assert!(b.intersects(a));
    assert!(!a.intersects(c));
    assert!(!Bitmap::empty().intersects(Bitmap::full()));
}

#[test]
fn gated_off_sound_is_stopped() {
    assert_eq!(play_action(false, true), SoundAction::Stop);
    assert_eq!(play_action(false, false), SoundAction::Stop);
    assert_eq!(play_unique_action(false, true), SoundAction::Stop);
    assert_eq!(play_unique_action(false, false), SoundAction::Stop);
}

#[test]
fn playable_sound_starts_when_loaded_or_idle() {
    assert_eq!(play_action(true, true), SoundAction::Start);
    assert_eq!(play_action(true, false), SoundAction::Ignore);
    assert_eq!(play_unique_action(true, false), SoundAction::Start);
    assert_eq!(play_unique_action(true, true), SoundAction::Ignore);
}

#[test]
fn can_play_is_mask_intersection() {
    let layers = Bitmap::empty().with_on(1);
    assert!(can_play(Bitmap::full(), layers));
    assert!(!can_play(Bitmap::empty(), layers));
    assert!(can_play(enabled_sounds_mask(false, true), layers));
    assert!(!can_play(enabled_sounds_mask(true, false), layers));
}

#[test]
fn enabled_sounds_mask_uses_bit_zero_and_one() {
    let none = enabled_sounds_mask(false, false);
    assert!(!none.get(0));
    assert!(!none.get(1));
    let sounds = enabled_sounds_mask(true, false);
    assert!(sounds.get(0));
    assert!(!sounds.get(1));
    let music = enabled_sounds_mask(false, true);
    assert!(!music.get(0));
    assert!(music.get(1));
    let both = enabled_sounds_mask(true, true);
    assert!(both.get(0));
    assert!(both.get(1));
}

#[test]
fn default_ring_color_is_black() {
    assert_eq!(default_color(), "black");
}
