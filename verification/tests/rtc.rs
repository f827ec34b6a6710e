use core_s3::bus::RegisterStep;
use core_s3::rtc::{
    bcd_to_bin, bin_to_bcd, Alarm, Bm8563, Date, DateTime, Time, TimerClock, TimerConfig,
};

#[test]
fn bcd_round_trips() {
    assert_eq!(bcd_to_bin(0x59), 59);
    assert_eq!(bin_to_bcd(42), 0x42);
}

#[test]
fn bcd_round_trips_for_every_two_digit_number() {
    for v in 0u8..100 {
        assert_eq!(bcd_to_bin(bin_to_bcd(v)), v);
    }
    assert_eq!(bcd_to_bin(0xFF), 165);
    assert_eq!(bin_to_bcd(255), 149);
}

#[test]
fn set_datetime_then_read_gives_it_back() {
    let rtc = Bm8563::new(());
    assert_eq!(rtc.address(), 0x51);
    let dt = DateTime {
        date: Date { year: 2024, month: 12, day: 31, weekday: 2 },
        time: Time { hour: 23, minute: 59, second: 58 },
    };
    let frame = rtc.set_datetime(dt);
    assert_eq!(frame, [0x02, 0x58, 0x59, 0x23, 0x31, 0x02, 0x12, 0x24]);
    let mut regs = [0u8; 7];
    regs.copy_from_slice(&frame[1..]);
    assert_eq!(rtc.datetime(regs), dt);
    assert!(!rtc.clock_integrity_lost(regs));
    regs[0] |= 0x80;
    assert!(rtc.clock_integrity_lost(regs));
    assert_eq!(rtc.datetime(regs), dt);
}

#[test]
fn alarm_and_timer_frames() {
    let rtc = Bm8563::new(());
    let alarm = Alarm { minute: Some(30), hour: Some(7), day: None, weekday: None };
    assert_eq!(rtc.set_alarm(alarm), [0x09, 0x30, 0x07, 0x80, 0x80]);
    assert_eq!(
        rtc.set_timer(TimerConfig { clock: TimerClock::Hz1, count: 10 }),
        vec![RegisterStep::Write { register: 0x0F, value: 10 }, RegisterStep::Write { register: 0x0E, value: 0x82 }]
    );
    assert_eq!(rtc.init(), vec![RegisterStep::Write { register: 0x00, value: 0x00 }]);
}
