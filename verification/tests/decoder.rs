use aircontrol::report::{
    decode_report, join_bytes, temperature_from_raw, CO2_ADDRESS, HUMIDITY_ADDRESS, PRODUCT_ID,
    TEMPERATURE_ADDRESS, VENDOR_ID,
};
use aircontrol::Reading;

fn report(tag: u8, value: u16) -> [u8; 8] {
    [tag, (value >> 8) as u8, (value & 0xff) as u8, 0, 0, 0, 0, 0]
}

#[test]
fn identity_constants_match_the_device() {
    assert_eq!(VENDOR_ID, 0x04d9);
    assert_eq!(PRODUCT_ID, 0xa052);
    assert_eq!(CO2_ADDRESS, 0x50);
    assert_eq!(TEMPERATURE_ADDRESS, 0x42);
    assert_eq!(HUMIDITY_ADDRESS, 0x41);
}

#[test]
fn co2_report_is_taken_as_is() {
    let raw = [0x50, 0x01, 0x2C, 0, 0, 0, 0, 0];
    assert_eq!(decode_report(&raw), Reading::Co2(300));
}

#[test]
fn temperature_report_is_converted_and_rounded() {
    let raw = [0x42, 0x13, 0x11, 0, 0, 0, 0, 0];
    assert_eq!(decode_report(&raw), Reading::Temperature(3191));
    assert_eq!(decode_report(&report(0x42, 4881)), Reading::Temperature(3191));
}

#[test]
fn humidity_report_is_hundredths_of_a_percent() {
    assert_eq!(decode_report(&report(0x41, 5000)), Reading::Humidity(5000));
    let raw = [0x41, 0x13, 0x88, 0, 0, 0, 0, 0];
    assert_eq!(decode_report(&raw), Reading::Humidity(5000));
}

#[test]
fn unknown_tag_decodes_to_ignored() {
    assert_eq!(decode_report(&report(0x99, 1234)), Reading::Ignored);
    assert_eq!(decode_report(&report(0x00, 0)), Reading::Ignored);
    assert_eq!(decode_report(&report(0xff, 0xffff)), Reading::Ignored);
}

#[test]
fn trailing_bytes_do_not_matter() {
    let a = [0x50, 0x02, 0x00, 0, 0, 0, 0, 0];
    let b = [0x50, 0x02, 0x00, 9, 8, 7, 6, 5];
    assert_eq!(decode_report(&a), decode_report(&b));
    assert_eq!(decode_report(&a), Reading::Co2(512));
}

#[test]
fn bytes_join_high_byte_first() {
    assert_eq!(join_bytes(0x01, 0x2C), 300);
    assert_eq!(join_bytes(0x2C, 0x01), 0x2C01);
    assert_eq!(join_bytes(0, 0), 0);
    assert_eq!(join_bytes(0xff, 0xff), 0xffff);
    assert_eq!(join_bytes(0x13, 0x11), 4881);
}

#[test]
fn temperature_edges() {
    assert_eq!(temperature_from_raw(0), -27315);
    assert_eq!(temperature_from_raw(65535), 382279);
    // 273.15 degrees below is 4370.4 sixteenths
    assert_eq!(temperature_from_raw(4370), -2);
    assert_eq!(temperature_from_raw(4371), 4);
}

#[test]
fn temperature_halfway_goes_up() {
    // 4882 / 16 - 273.15 = 31.975
    assert_eq!(temperature_from_raw(4882), 3198);
    // 2 / 16 - 273.15 = -273.025
    assert_eq!(temperature_from_raw(2), -27302);
    // 4883 / 16 - 273.15 = 32.0375
    assert_eq!(temperature_from_raw(4883), 3204);
}

#[test]
fn temperature_is_within_half_a_hundredth_everywhere() {
    let mut raw: u32 = 0;
    while raw <= 65535 {
        let centi = temperature_from_raw(raw as u16);
        let exact = (raw as f64) / 16.0 - 273.15;
        let shown = (centi as f64) / 100.0;
        assert!((shown - exact).abs() <= 0.005 + 1e-9, "raw {}", raw);
        raw += 1;
    }
}

#[test]
fn temperature_agrees_with_single_precision_text() {
    // up to 512 degrees single precision still tells the hundredths apart
    let mut raw: u32 = 0;
    while raw <= 12565 {
        let text = format!("{:.2}", raw as f32 / 16.0 - 273.15);
        let centi = temperature_from_raw(raw as u16);
        let sign = if centi < 0 { "-" } else { "" };
        let ours = format!("{}{}.{:02}", sign, centi.abs() / 100, centi.abs() % 100);
        assert_eq!(ours, text, "raw {}", raw);
        raw += 1;
    }
}

#[test]
fn temperature_never_decreases() {
    let mut raw: u16 = 0;
    while raw < 65535 {
        assert!(temperature_from_raw(raw) <= temperature_from_raw(raw + 1));
        raw += 1;
    }
}
