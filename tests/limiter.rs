use playback_core::limiter::{Limiter, LimiterTiming};
use playback_core::subscribers::prune_subscribers;
use playback_core::normalisation::{
    processes_samples, read_ahead_bytes, resolve_normalisation_type, NormalisationBits,
    NormalisationMethod, NormalisationType,
};

fn timing() -> LimiterTiming {
    // 5 ms attack and 100 ms release at 44.1 kHz
    LimiterTiming { attack_samples: 220, release_samples: 4410 }
}

#[test]
fn dynamic_limiter_attack_and_release() {
    let t = timing();
    let mut l = Limiter::new();
    let mut last = 0.0f64;
    for _ in 0..220 {
        l.step(t, true);
        let (n, d) = l.strength_ratio(t);
        let s = n as f64 / d as f64;
        assert!(s > last);
        last = s;
    }
    assert_eq!(l.strength_ratio(t), (220, 220));
    // the rest of a second of loud input keeps the strength at 1
    for _ in 220..44_100 {
        l.step(t, true);
        assert_eq!(l.strength_ratio(t), (220, 220));
    }
    last = 1.0;
    let mut steps = 0;
    while l.active {
        l.step(t, false);
        steps += 1;
        let (n, d) = l.strength_ratio(t);
        let s = n as f64 / d as f64;
        assert!(s <= last);
        last = s;
    }
    assert_eq!(steps, 4411);
    assert_eq!(l, Limiter::new());
}

#[test]
fn interrupted_attack_seeds_release() {
    let t = timing();
    let mut l = Limiter::new();
    for _ in 0..110 {
        l.step(t, true);
    }
    l.step(t, false);
    // (220 - 110) * 4410 / 220 = 2205, plus the sample itself
    assert_eq!(l, Limiter { active: true, attack_counter: 0, release_counter: 2206 });
    let mut steps = 1;
    while l.active {
        l.step(t, false);
        steps += 1;
    }
    assert_eq!(steps, 4410 - 2205 + 1);
}

#[test]
fn peak_during_release_seeds_attack() {
    let t = timing();
    let mut l = Limiter { active: true, attack_counter: 0, release_counter: 441 };
    l.step(t, true);
    // (4410 - 441) * 220 / 4410 = 198, plus the sample itself
    assert_eq!(l, Limiter { active: true, attack_counter: 199, release_counter: 0 });
}

#[test]
fn quiet_input_leaves_rest_alone() {
    let t = timing();
    let mut l = Limiter::new();
    l.step(t, false);
    assert_eq!(l, Limiter::new());
    assert_eq!(l.strength_ratio(t), (0, 1));
    l.step(t, true);
    l.reset();
    assert_eq!(l, Limiter::new());
}

#[test]
fn normalisation_off_touches_nothing() {
    assert!(!processes_samples(false, NormalisationMethod::Dynamic, false));
    assert!(!processes_samples(false, NormalisationMethod::Basic, false));
    assert!(!processes_samples(true, NormalisationMethod::Basic, true));
    assert!(processes_samples(true, NormalisationMethod::Dynamic, true));
}

#[test]
fn auto_type_resolution() {
    assert_eq!(resolve_normalisation_type(NormalisationType::Auto, true), NormalisationType::Album);
    assert_eq!(resolve_normalisation_type(NormalisationType::Auto, false), NormalisationType::Track);
    assert_eq!(resolve_normalisation_type(NormalisationType::Track, true), NormalisationType::Track);
}

#[test]
fn ogg_header_figures() {
    let mut bytes = vec![0u8; 160];
    let figures: [f32; 4] = [-6.5, 0.95, -7.25, 0.99];
    for (k, f) in figures.iter().enumerate() {
        bytes[144 + 4 * k..148 + 4 * k].copy_from_slice(&f.to_le_bytes());
    }
    let n = NormalisationBits::parse_from_ogg(&bytes).unwrap();
    assert_eq!(f32::from_bits(n.track_gain_db), -6.5);
    assert_eq!(f32::from_bits(n.track_peak), 0.95);
    assert_eq!(f32::from_bits(n.album_gain_db), -7.25);
    assert_eq!(f32::from_bits(n.album_peak), 0.99);
    assert_eq!(n.select(NormalisationType::Album), (n.album_gain_db, n.album_peak));
    assert_eq!(n.select(NormalisationType::Track), (n.track_gain_db, n.track_peak));
    assert!(NormalisationBits::parse_from_ogg(&vec![0u8; 159]).is_none());
    let d = NormalisationBits::default_bits();
    assert_eq!(f32::from_bits(d.track_peak), 1.0);
    assert_eq!(f32::from_bits(d.album_gain_db), 0.0);
}

#[test]
fn read_ahead_takes_the_larger() {
    assert_eq!(read_ahead_bytes(2, 100, 1000, 20480), 20480);
    assert_eq!(read_ahead_bytes(10, 800, 5000, 20480), 163840);
    assert_eq!(read_ahead_bytes(0, 0, 0, 20480), 0);
}

#[test]
fn failed_subscribers_are_dropped_in_order() {
    let mut subs = vec!['a', 'b', 'c', 'd'];
    prune_subscribers(&mut subs, &vec![true, false, false, true]);
    assert_eq!(subs, vec!['a', 'd']);
    let mut none: Vec<u8> = vec![];
    prune_subscribers(&mut none, &vec![]);
    assert!(none.is_empty());
}
