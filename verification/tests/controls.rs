use neaponoise::audio::{write_frame, Params};
use neaponoise::controls::{Settings, TickAction, Transport, VOLUME_MAX, VOLUME_MIN};
use neaponoise::noise::Flavor;

#[test]
fn default_settings() {
    let s = Settings::default();
    assert_eq!(s.volume, 30);
    assert!(!s.stereo);
}

#[test]
fn stored_volume_is_clamped() {
    let s = Settings { volume: 250, stereo: true }.clamped();
    assert_eq!(s, Settings { volume: 99, stereo: true });
    let s = Settings { volume: 42, stereo: false }.clamped();
    assert_eq!(s, Settings { volume: 42, stereo: false });
    assert_eq!(VOLUME_MIN, 0);
    assert_eq!(VOLUME_MAX, 99);
}

#[test]
fn nudges_stay_in_range() {
    let mut s = Settings { volume: 30, stereo: false };
    s.nudge_volume(1);
    assert_eq!(s.volume, 31);
    s.nudge_volume(-3);
    assert_eq!(s.volume, 28);
    s.nudge_volume(-100);
    assert_eq!(s.volume, 0);
    s.nudge_volume(500);
    assert_eq!(s.volume, 99);
    s.nudge_volume(1);
    assert_eq!(s.volume, 99);
}

#[test]
fn nudge_up_then_down_returns() {
    let mut s = Settings { volume: 50, stereo: true };
    s.nudge_volume(7);
    s.nudge_volume(-7);
    assert_eq!(s.volume, 50);
    assert!(s.stereo);
}

#[test]
fn nudge_reads_huge_volumes_as_negative() {
    let mut s = Settings { volume: 3_000_000_000, stereo: false };
    s.nudge_volume(1);
    assert_eq!(s.volume, 0);
}

#[test]
fn zero_nudge_keeps_volume() {
    let mut s = Settings { volume: 120, stereo: false };
    s.nudge_volume(0);
    assert_eq!(s.volume, 120);
}

#[test]
fn stop_fades_out_before_dropping_the_stream() {
    let mut t = Transport::new();
    assert!(!t.playing() && !t.streaming() && !t.stopping());
    t.start(Ok(()));
    assert!(t.playing() && t.streaming() && !t.stopping());
    assert_eq!(t.tick(true), TickAction::Idle);
    t.stop();
    assert!(!t.playing() && t.streaming() && t.stopping());
    assert_eq!(t.tick(false), TickAction::Repaint);
    assert!(t.streaming());
    assert_eq!(t.tick(true), TickAction::DropStream);
    assert!(!t.streaming() && !t.stopping());
    assert_eq!(t.tick(true), TickAction::Idle);
}

#[test]
fn failed_start_reports_the_error() {
    let mut t = Transport::new();
    t.start(Err("no audio output device found".to_owned()));
    assert!(!t.playing() && !t.streaming());
    assert_eq!(t.error(), Some("no audio output device found".to_owned()));
    t.stop();
    assert!(!t.stopping());
    t.start(Ok(()));
    assert_eq!(t.error(), None);
    assert!(t.playing());
}

#[test]
fn restart_during_fade_out_cancels_it() {
    let mut t = Transport::new();
    t.start(Ok(()));
    t.stop();
    t.start(Ok(()));
    assert!(t.playing() && !t.stopping());
    assert_eq!(t.tick(true), TickAction::Idle);
}

#[test]
fn params_read_back_on_one_thread() {
    let p = Params::new(0.3f32.to_bits(), false, Flavor::Strawberry);
    assert_eq!(p.flavor(), Flavor::Strawberry);
    assert!(!p.stereo());
    assert!(p.is_silent());
    assert_eq!(f32::from_bits(p.gain_bits()), 0.3);
    p.set_flavor(Flavor::Vanilla);
    p.set_stereo(true);
    p.set_gain_bits(0.0f32.to_bits());
    p.set_silent(false);
    assert_eq!(p.flavor(), Flavor::Vanilla);
    assert!(p.stereo());
    assert!(!p.is_silent());
    assert_eq!(f32::from_bits(p.gain_bits()), 0.0);
}

#[test]
fn frames_interleave_left_and_right() {
    let mut stereo = [0i16; 2];
    write_frame(&mut stereo, 1, 2);
    assert_eq!(stereo, [1, 2]);
    let mut surround = [0.0f32; 5];
    write_frame(&mut surround, 0.5, -0.5);
    assert_eq!(surround, [0.5, -0.5, 0.5, -0.5, 0.5]);
    let mut mono = [0u16; 1];
    write_frame(&mut mono, 7, 9);
    assert_eq!(mono, [7]);
}
