use nrf_rustboard::battery::Battery;

fn percent_at(sample: i16) -> u8 {
    let mut b = Battery::new();
    b.approximate(sample)
}

#[test]
fn new_gauge_is_empty() {
    let b = Battery::new();
    assert_eq!(b.percent(), 0);
    assert_eq!(b.milli_volts(), 0);
}

#[test]
fn sample_to_milli_volts() {
    let mut b = Battery::new();
    b.approximate(0);
    assert_eq!(b.milli_volts(), 0);
    b.approximate(4092);
    assert_eq!(b.milli_volts(), 40800);
    b.approximate(380);
    assert_eq!(b.milli_volts(), 3788);
    b.approximate(1);
    assert_eq!(b.milli_volts(), 9);
    b.approximate(i16::MAX);
    assert_eq!(b.milli_volts(), 326_709);
}

#[test]
fn level_steps() {
    // 351 -> 3499 mV, 352 -> 3509 mV, 358 -> 3569 mV, 359 -> 3579 mV
    assert_eq!(percent_at(351), 0);
    assert_eq!(percent_at(352), 20);
    assert_eq!(percent_at(358), 20);
    assert_eq!(percent_at(359), 30);
    // 366 -> 3649 mV, 373 -> 3719 mV, 380 -> 3788 mV, 387 -> 3858 mV
    assert_eq!(percent_at(366), 40);
    assert_eq!(percent_at(373), 50);
    assert_eq!(percent_at(380), 60);
    assert_eq!(percent_at(387), 70);
    // 394 -> 3928 mV, 401 -> 3998 mV, 417 -> 4157 mV, 418 -> 4167 mV
    assert_eq!(percent_at(394), 80);
    assert_eq!(percent_at(401), 90);
    assert_eq!(percent_at(417), 90);
    assert_eq!(percent_at(418), 100);
    assert_eq!(percent_at(i16::MAX), 100);
    assert_eq!(percent_at(0), 0);
}

#[test]
fn gauge_keeps_the_last_level() {
    let mut b = Battery::new();
    assert_eq!(b.approximate(380), 60);
    assert_eq!(b.percent(), 60);
    b.volts_to_percent();
    assert_eq!(b.percent(), 60);
    assert_eq!(b.milli_volts(), 3788);
}
