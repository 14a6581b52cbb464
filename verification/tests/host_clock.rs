use roslibrust::host::confirm_host_time;
use roslibrust::{ConversionError, Duration, Time};
use std::time::{SystemTime, UNIX_EPOCH};

#[test]
fn host_time_splits_into_seconds_and_nanoseconds() {
    let host = UNIX_EPOCH + std::time::Duration::new(1_700_000_000, 123_456_789);
    assert_eq!(
        Time::try_from(host),
        Ok(Time {
            secs: 1_700_000_000,
            nsecs: 123_456_789
        })
    );
}

#[test]
fn host_time_before_the_epoch_is_refused() {
    let host = UNIX_EPOCH - std::time::Duration::new(1, 0);
    assert_eq!(Time::try_from(host), Err(ConversionError::BeforeEpoch));
    let host = UNIX_EPOCH - std::time::Duration::new(0, 1);
    assert_eq!(Time::try_from(host), Err(ConversionError::BeforeEpoch));
}

#[test]
fn host_time_reaches_the_last_second_of_32_bits() {
    let host = UNIX_EPOCH + std::time::Duration::new(2_147_483_647, 999_999_999);
    assert_eq!(
        Time::try_from(host),
        Ok(Time {
            secs: i32::MAX,
            nsecs: 999_999_999
        })
    );
    let host = UNIX_EPOCH + std::time::Duration::new(2_147_483_648, 0);
    assert_eq!(Time::try_from(host), Err(ConversionError::SecondsOverflow));
}

#[test]
fn bus_time_lands_at_its_nanoseconds() {
    let host = SystemTime::try_from(Time {
        secs: 12,
        nsecs: 500_000_000,
    })
    .unwrap();
    assert_eq!(
        host.duration_since(UNIX_EPOCH).unwrap(),
        std::time::Duration::new(12, 500_000_000)
    );
    assert_ne!(host, UNIX_EPOCH);
}

#[test]
fn bus_time_carries_surplus_nanoseconds_into_seconds() {
    let host = SystemTime::try_from(Time {
        secs: 1,
        nsecs: 2_000_000_001,
    })
    .unwrap();
    assert_eq!(
        host.duration_since(UNIX_EPOCH).unwrap(),
        std::time::Duration::new(3, 1)
    );
    // the way back normalises, so this value does not come back unchanged
    assert_eq!(Time::try_from(host), Ok(Time { secs: 3, nsecs: 1 }));
}

#[test]
fn largest_bus_time_converts() {
    let host = SystemTime::try_from(Time {
        secs: i32::MAX,
        nsecs: i32::MAX,
    })
    .unwrap();
    assert_eq!(
        host.duration_since(UNIX_EPOCH).unwrap(),
        std::time::Duration::new(2_147_483_649, 147_483_647)
    );
    assert_eq!(Time::try_from(host), Err(ConversionError::SecondsOverflow));
}

#[test]
fn negative_bus_time_is_refused_seconds_first() {
    assert_eq!(
        SystemTime::try_from(Time {
            secs: i32::MIN,
            nsecs: i32::MIN
        }),
        Err(ConversionError::NegativeSeconds)
    );
    assert_eq!(
        SystemTime::try_from(Time { secs: -1, nsecs: 0 }),
        Err(ConversionError::NegativeSeconds)
    );
    assert_eq!(
        SystemTime::try_from(Time { secs: 1, nsecs: -1 }),
        Err(ConversionError::NegativeNanoseconds)
    );
}

#[test]
fn bus_time_survives_the_host() {
    for v in [
        Time { secs: 0, nsecs: 0 },
        Time { secs: 0, nsecs: 1 },
        Time {
            secs: 1,
            nsecs: 999_999_999,
        },
        Time {
            secs: i32::MAX,
            nsecs: 999_999_999,
        },
    ] {
        let host = SystemTime::try_from(v).unwrap();
        assert_eq!(Time::try_from(host), Ok(v));
    }
}

#[test]
fn host_time_survives_the_bus() {
    for host in [
        UNIX_EPOCH,
        UNIX_EPOCH + std::time::Duration::new(0, 999_999_999),
        UNIX_EPOCH + std::time::Duration::new(1_234_567_890, 42),
        UNIX_EPOCH + std::time::Duration::new(2_147_483_647, 0),
    ] {
        let v = Time::try_from(host).unwrap();
        assert_eq!(SystemTime::try_from(v), Ok(host));
    }
}

#[test]
fn host_duration_splits_into_seconds_and_nanoseconds() {
    assert_eq!(
        Duration::try_from(std::time::Duration::new(5, 250)),
        Ok(Duration { sec: 5, nsec: 250 })
    );
    assert_eq!(
        Duration::try_from(std::time::Duration::from_millis(1_500)),
        Ok(Duration {
            sec: 1,
            nsec: 500_000_000
        })
    );
    assert_eq!(
        Duration::try_from(std::time::Duration::new(2_147_483_647, 999_999_999)),
        Ok(Duration {
            sec: i32::MAX,
            nsec: 999_999_999
        })
    );
}

#[test]
fn host_duration_too_long_is_refused() {
    assert_eq!(
        Duration::try_from(std::time::Duration::new(2_147_483_648, 0)),
        Err(ConversionError::SecondsOverflow)
    );
    assert_eq!(
        Duration::try_from(std::time::Duration::MAX),
        Err(ConversionError::SecondsOverflow)
    );
}

#[test]
fn bus_duration_becomes_a_host_duration_of_its_length() {
    assert_eq!(
        std::time::Duration::try_from(Duration { sec: 3, nsec: 7 }),
        Ok(std::time::Duration::new(3, 7))
    );
    assert_eq!(
        std::time::Duration::try_from(Duration {
            sec: 0,
            nsec: 1_500_000_000
        }),
        Ok(std::time::Duration::new(1, 500_000_000))
    );
    assert_eq!(
        std::time::Duration::try_from(Duration {
            sec: i32::MAX,
            nsec: i32::MAX
        }),
        Ok(std::time::Duration::new(2_147_483_649, 147_483_647))
    );
}

#[test]
fn negative_bus_duration_is_refused_seconds_first() {
    assert_eq!(
        std::time::Duration::try_from(Duration { sec: -1, nsec: -1 }),
        Err(ConversionError::NegativeSeconds)
    );
    assert_eq!(
        std::time::Duration::try_from(Duration { sec: 0, nsec: -1 }),
        Err(ConversionError::NegativeNanoseconds)
    );
}

#[test]
fn durations_survive_the_round_trip() {
    for v in [
        Duration { sec: 0, nsec: 0 },
        Duration {
            sec: 7,
            nsec: 999_999_999,
        },
        Duration {
            sec: i32::MAX,
            nsec: 0,
        },
    ] {
        let host = std::time::Duration::try_from(v).unwrap();
        assert_eq!(Duration::try_from(host), Ok(v));
    }
    for host in [
        std::time::Duration::ZERO,
        std::time::Duration::new(86_400, 1),
        std::time::Duration::from_micros(2_500_000),
    ] {
        let v = Duration::try_from(host).unwrap();
        assert_eq!(std::time::Duration::try_from(v), Ok(host));
    }
}

#[test]
fn a_host_answer_is_taken_only_where_it_stands_exactly() {
    let host = UNIX_EPOCH + std::time::Duration::new(3, 1);
    assert_eq!(confirm_host_time(Some(host), 3, 1), Ok(host));
    // a billion nanoseconds and more count as whole seconds
    assert_eq!(confirm_host_time(Some(host), 1, 2_000_000_001), Ok(host));
    assert_eq!(confirm_host_time(Some(host), 0, 3_000_000_001), Ok(host));
    // an answer that is off by one nanosecond, or by one second, is refused
    assert_eq!(
        confirm_host_time(Some(host), 3, 2),
        Err(ConversionError::HostRange)
    );
    assert_eq!(
        confirm_host_time(Some(host), 3, 0),
        Err(ConversionError::HostRange)
    );
    assert_eq!(
        confirm_host_time(Some(host), 2, 1),
        Err(ConversionError::HostRange)
    );
    assert_eq!(
        confirm_host_time(Some(host), 4, 1),
        Err(ConversionError::HostRange)
    );
}

#[test]
fn no_host_answer_is_out_of_range() {
    assert_eq!(
        confirm_host_time(None, 0, 0),
        Err(ConversionError::HostRange)
    );
    let before = UNIX_EPOCH - std::time::Duration::new(0, 1);
    assert_eq!(
        confirm_host_time(Some(before), 0, 1),
        Err(ConversionError::HostRange)
    );
    assert_eq!(
        confirm_host_time(Some(UNIX_EPOCH), u64::MAX, u32::MAX),
        Err(ConversionError::HostRange)
    );
    assert_eq!(confirm_host_time(Some(UNIX_EPOCH), 0, 0), Ok(UNIX_EPOCH));
}
