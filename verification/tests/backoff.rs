use crossfire_oneshot::adaptive::{
    attempt, initial_number, penalty, reward, AdaptiveSpin, HIT_SCORE, INIT_SCORE, MAX_SCORE,
    PROBE_INTERVAL,
};
use crossfire_oneshot::backoff::{
    claim_detection, detect_backoff_cfg, spin_rounds, Backoff, BackoffConfig, SharedConfig, Snooze,
    DEFAULT_CONFIG_OTHER, DEFAULT_CONFIG_X86_64, DEFAULT_LIMIT_OTHER, DEFAULT_LIMIT_X86_64,
    MAX_LIMIT, SPIN_LIMIT,
};
use crossfire_oneshot::cell::{SharedFlag, SharedNumber};
use std::mem::size_of;

#[test]
fn test_adaptive_spin() {
    let spin = AdaptiveSpin::new();
    for _ in 0..INIT_SCORE {
        assert!(spin.should_spin());
        spin.miss();
    }
    // Stopped, but probes every PROBE_INTERVAL attempts
    let probes = (0..PROBE_INTERVAL * 4).filter(|_| spin.should_spin()).count();
    assert_eq!(probes, 4);
    spin.miss();
    assert!(!spin.should_spin());
    // A hit rate above 1 / (HIT_SCORE + 1) keeps spinning, and raises the score to the cap
    spin.hit();
    for _ in 0..MAX_SCORE {
        for _ in 0..HIT_SCORE - 1 {
            assert!(spin.should_spin());
            spin.miss();
        }
        spin.hit();
    }
    // The score is capped, so a switch to request/response stops spinning in bounded time
    for _ in 0..MAX_SCORE {
        assert!(spin.should_spin());
        spin.miss();
    }
    assert!(!spin.should_spin());
}

#[test]
fn test_backoff() {
    let backoff = Backoff::from(BackoffConfig { spin_limit: 1, limit: 0 });
    assert!(backoff.is_completed());
    println!("Option<backoff> size {}", size_of::<Option<Backoff>>());
    println!("backoff size {}", size_of::<Backoff>());
    println!("BackoffConfig size {}", size_of::<BackoffConfig>());
    assert_eq!(size_of::<BackoffConfig>(), size_of::<u32>());
    let config = BackoffConfig { spin_limit: 6, limit: 7 };
    let config_i = config.to_u32();
    let _config = BackoffConfig::from_u32(config_i);
    assert_eq!(config.spin_limit, _config.spin_limit);
    assert_eq!(config.limit, _config.limit);

    let mut backoff = Backoff::from(BackoffConfig { spin_limit: 2, limit: 4 });
    assert_eq!(backoff.step(), 0);
    backoff.spin();
    assert_eq!(backoff.step(), 1);
    backoff.snooze();
    assert_eq!(backoff.step(), 2);
    backoff.snooze();
    backoff.snooze();
    backoff.snooze();
    backoff.snooze();
    assert_eq!(backoff.step(), 4);
    backoff.spin();
    assert_eq!(backoff.step(), 5);
}

#[test]
fn configurations_are_packed() {
    assert_eq!(BackoffConfig { spin_limit: 6, limit: 7 }.to_u32(), 0x0007_0006);
    let c = BackoffConfig::from_u32(0x1234_abcd);
    assert_eq!((c.spin_limit, c.limit), (0xabcd, 0x1234));
    assert_eq!(c.to_u32(), 0x1234_abcd);
    let largest = BackoffConfig { spin_limit: u16::MAX, limit: u16::MAX };
    assert_eq!(largest.to_u32(), u32::MAX);
}

#[test]
fn default_configurations() {
    let x86 = BackoffConfig { spin_limit: SPIN_LIMIT, limit: DEFAULT_LIMIT_X86_64 };
    assert_eq!(x86.to_u32(), DEFAULT_CONFIG_X86_64);
    let other = BackoffConfig { spin_limit: SPIN_LIMIT, limit: DEFAULT_LIMIT_OTHER };
    assert_eq!(other.to_u32(), DEFAULT_CONFIG_OTHER);
    assert_eq!((SPIN_LIMIT, MAX_LIMIT), (6, 10));
}

#[test]
fn limits_are_adjusted() {
    let c = BackoffConfig { spin_limit: 6, limit: 10 };
    let lower = c.async_limit(4);
    assert_eq!((lower.spin_limit, lower.limit), (4, 4));
    let higher = c.async_limit(12);
    assert_eq!((higher.spin_limit, higher.limit), (12, 10));
    let equal = c.async_limit(10);
    assert_eq!((equal.spin_limit, equal.limit), (10, 10));
    let limited = c.limit(3);
    assert_eq!((limited.spin_limit, limited.limit), (6, 3));
    let spins_less = c.spin(2);
    assert_eq!((spins_less.spin_limit, spins_less.limit), (2, 10));
    let spins_no_more = c.spin(9);
    assert_eq!((spins_no_more.spin_limit, spins_no_more.limit), (6, 10));
}

#[test]
fn one_processor_does_not_spin() {
    let config = SharedConfig::new(DEFAULT_CONFIG_OTHER);
    let claim = claim_detection(&config).expect("first");
    assert!(detect_backoff_cfg(claim, &config, 1, DEFAULT_LIMIT_OTHER).is_some());
    let c = BackoffConfig::detect(&config);
    assert_eq!((c.spin_limit, c.limit), (0, DEFAULT_LIMIT_OTHER));
    let mut backoff = Backoff::new(&config);
    assert_eq!(backoff.snooze(), Snooze::Yield);
    // Every further call changes nothing.
    assert!(claim_detection(&config).is_none());
    assert_eq!(BackoffConfig::read(&config).0.to_u32(), c.to_u32());
}

#[test]
fn several_processors_keep_the_default() {
    let config = SharedConfig::new(DEFAULT_CONFIG_X86_64);
    let claim = claim_detection(&config).expect("first");
    assert!(detect_backoff_cfg(claim, &config, 2, DEFAULT_LIMIT_X86_64).is_none());
    let c = BackoffConfig::detect(&config);
    assert_eq!((c.spin_limit, c.limit), (SPIN_LIMIT, DEFAULT_LIMIT_X86_64));
    let mut backoff = Backoff::begin(&config).0;
    assert_eq!(backoff.step(), 0);
    assert_eq!(backoff.snooze(), Snooze::Spun);
}

#[test]
fn snoozes_spin_then_yield_then_complete() {
    let mut backoff = Backoff::from(BackoffConfig { spin_limit: 2, limit: 4 });
    let mut seen = Vec::new();
    for _ in 0..6 {
        seen.push(backoff.snooze());
    }
    assert_eq!(
        seen,
        vec![
            Snooze::Spun,
            Snooze::Spun,
            Snooze::Yield,
            Snooze::Yield,
            Snooze::Completed,
            Snooze::Completed
        ]
    );
    assert!(backoff.is_completed());
    backoff.reset();
    assert_eq!(backoff.step(), 0);
    assert!(!backoff.is_completed());
}

#[test]
fn yields_come_to_the_limit() {
    let mut backoff = Backoff::from(BackoffConfig { spin_limit: 6, limit: 2 });
    assert!(!backoff.yield_now());
    assert!(!backoff.yield_now());
    assert!(backoff.yield_now());
    assert_eq!(backoff.step(), 2);
    backoff.set_step(1);
    assert!(!backoff.is_completed());
    assert!(!backoff.yield_now());
    assert!(backoff.yield_now());
}

#[test]
fn spins_count_up_to_the_largest_step() {
    let mut backoff = Backoff::from(BackoffConfig { spin_limit: 0, limit: 2 });
    assert!(!backoff.spin());
    assert!(!backoff.spin());
    assert!(backoff.spin());
    backoff.set_step(MAX_LIMIT);
    assert!(backoff.spin());
    assert_eq!(backoff.step(), 10);
    backoff.set_step(40);
    assert!(backoff.spin());
    assert_eq!(backoff.step(), 40);
    let mut patient = Backoff::from(BackoffConfig { spin_limit: 0, limit: 20 });
    patient.set_step(9);
    assert!(!patient.spin());
    assert!(patient.spin());
}

#[test]
fn spins_double() {
    assert_eq!(spin_rounds(0), 1);
    assert_eq!(spin_rounds(1), 2);
    assert_eq!(spin_rounds(6), 64);
    assert_eq!(spin_rounds(30), 0x4000_0000);
    assert_eq!(spin_rounds(31), 0);
}

#[test]
fn attempts_spin_while_the_score_lasts() {
    assert_eq!(initial_number(), 64 << 16);
    assert_eq!(attempt(1 << 16), (true, None));
    assert_eq!(attempt(0), (false, Some(1)));
    assert_eq!(attempt(30), (false, Some(31)));
    assert_eq!(attempt(31), (true, Some(32)));
    assert_eq!(attempt(0xffff), (true, Some(0)));
}

#[test]
fn hits_and_misses_change_the_score() {
    assert_eq!(reward(0), Some(32 << 16));
    assert_eq!(reward(7), Some(32 << 16));
    assert_eq!(reward(230 << 16), Some(256 << 16));
    assert_eq!(reward(224 << 16), Some(256 << 16));
    assert_eq!(reward(256 << 16), None);
    assert_eq!(penalty(0), None);
    assert_eq!(penalty(5), None);
    assert_eq!(penalty(1 << 16), Some(0));
    assert_eq!(penalty(256 << 16), Some(255 << 16));
}

#[test]
fn a_hit_makes_up_for_the_misses_of_a_round() {
    let spin = AdaptiveSpin::new();
    for _ in 0..INIT_SCORE - 1 {
        spin.miss();
    }
    for _ in 0..100 {
        spin.hit();
        for _ in 0..HIT_SCORE {
            assert!(spin.should_spin());
            spin.miss();
        }
        assert!(spin.should_spin());
    }
    // One miss more in each round stops the spinning.
    spin.hit();
    for _ in 0..HIT_SCORE + 1 {
        spin.miss();
    }
    assert!(!spin.should_spin());
}

#[test]
fn stopped_spinning_is_probed() {
    let spin = AdaptiveSpin::new();
    for _ in 0..INIT_SCORE {
        spin.miss();
    }
    for n in 1..=3 * PROBE_INTERVAL {
        assert_eq!(spin.should_spin(), n % PROBE_INTERVAL == 0);
    }
    spin.hit();
    assert!(spin.decide().0);
}

#[test]
fn shared_numbers_hold_what_was_written() {
    let n = SharedNumber::new(7);
    let (v, visit) = n.read();
    assert_eq!(v, 7);
    n.write(visit, 8);
    assert_eq!(n.read().0, 8);
    n.publish(9);
    assert_eq!(n.read().0, 9);
    let flag = SharedFlag::new();
    assert!(flag.raise().is_some());
    assert!(flag.raise().is_none());
}
