use methcla_client::Time;

/// Seconds-and-fraction for an f64 time value, as a caller at the float
/// boundary would compute it.
fn time_from_f64(t: f64) -> Time {
    let seconds = t.floor() as u32;
    let fraction = ((t - t.floor()) * 4294967296.0) as u32;
    Time { seconds, fraction }
}

#[test]
fn timetag_round_trip_is_lossless() {
    let cases = [
        Time { seconds: 0, fraction: 0 },
        Time { seconds: 1, fraction: 1 },
        Time { seconds: 0xFFFF_FFFF, fraction: 0xFFFF_FFFF },
        Time { seconds: 123, fraction: 0x8000_0000 },
        Time { seconds: 123, fraction: 0x0001_0000 },
    ];
    for t in cases {
        assert_eq!(Time::from_timetag(t.to_timetag()), t);
    }
}

#[test]
fn timetag_packs_seconds_high_and_fraction_low() {
    let t = Time { seconds: 2, fraction: 3 };
    assert_eq!(t.to_timetag(), (2u64 << 32) | 3);
}

#[test]
fn sub_millisecond_fractions_stay_distinguishable() {
    // Two fractions about 15 microseconds apart, differing only above the
    // low 16 bits; a 16-bit truncation would collapse both to the same tag.
    let a = Time { seconds: 5, fraction: 0x8000_0000 };
    let b = Time { seconds: 5, fraction: 0x8001_0000 };
    assert_ne!(a.to_timetag(), b.to_timetag());
    assert_ne!(
        Time::from_timetag(a.to_timetag()).fraction,
        Time::from_timetag(b.to_timetag()).fraction
    );
}

#[test]
fn float_times_keep_full_fraction_precision() {
    // About 15 microseconds apart, with fractions that agree on their low 16
    // bits: keeping only those bits would collapse the two tags.
    let a = time_from_f64(1.25);
    let b = time_from_f64(1.2500152587890625);
    assert_eq!(a.seconds, 1);
    assert_eq!(b.seconds, 1);
    assert_eq!(a.fraction & 0xFFFF, b.fraction & 0xFFFF);
    assert_ne!(a.to_timetag(), b.to_timetag());
}
