use ultrafine_brightness::codec::{
    decode_report, encode_report, percent_to_value, CodecError, REPORT_LEN,
};
use ultrafine_brightness::codec::compute_read_value;
use ultrafine_brightness::profile::{lg_ultrafine, DeviceProfile};

#[test]
fn encode_report_layout() {
    // 40500 == 0x9e34: low byte first, then high byte, then four zero bytes.
    let report = encode_report(40500);
    assert_eq!(report, vec![0x34u8, 0x9e, 0, 0, 0, 0]);
    assert_eq!(report.len(), REPORT_LEN);
}

#[test]
fn encode_report_padding_is_zero() {
    for v in [0u16, 1, 255, 256, 54000, u16::MAX] {
        let report = encode_report(v);
        assert_eq!(report.len(), 6);
        assert_eq!(&report[2..6], &[0, 0, 0, 0]);
    }
}

#[test]
fn decode_report_reads_first_two_bytes() {
    // An incoming report is padded by the device; bytes past the second are
    // ignored.
    let bytes = vec![0x78u8, 0x69, 0xab, 0xcd, 0xef, 0x01, 0x02, 0x03];
    assert_eq!(decode_report(&bytes), Ok(27000));
}

#[test]
fn decode_report_rejects_short_buffers() {
    assert_eq!(decode_report(&vec![]), Err(CodecError::MalformedReport));
    assert_eq!(decode_report(&vec![0x78u8]), Err(CodecError::MalformedReport));
}

#[test]
fn report_round_trip() {
    for v in [0u16, 1, 50, 255, 256, 27000, 40500, 53999, 54000, u16::MAX] {
        assert_eq!(decode_report(&encode_report(v)), Ok(v));
    }
}

#[test]
fn percent_to_value_endpoints() {
    let profile = lg_ultrafine();
    assert_eq!(percent_to_value(&profile, 0), 0);
    assert_eq!(percent_to_value(&profile, 100), 54000);
}

#[test]
fn percent_to_value_scales_linearly() {
    let profile = lg_ultrafine();
    assert_eq!(percent_to_value(&profile, 50), 27000);
    assert_eq!(percent_to_value(&profile, 75), 40500);
    assert_eq!(percent_to_value(&profile, 1), 540);
}

#[test]
fn percent_to_value_rounds_to_nearest() {
    // With a maximum of 999, one percent is 9.99 native units: the scaled
    // value rounds to 10 rather than truncating to 9.
    let profile = DeviceProfile {
        vendor_id: 0,
        product_id: 0,
        min_brightness: 0,
        max_brightness: 999,
    };
    assert_eq!(percent_to_value(&profile, 1), 10);
}

#[test]
fn percent_to_value_is_monotonic() {
    let profile = lg_ultrafine();
    let mut last = percent_to_value(&profile, 0);
    for p in 1u8..=100 {
        let v = percent_to_value(&profile, p);
        assert!(v >= last);
        last = v;
    }
}

#[test]
fn compute_read_value_clamps_into_range() {
    let profile = lg_ultrafine();
    // 60000 == 0xea60 lies above the profile's maximum of 54000.
    let bytes = vec![0x60u8, 0xea];
    assert_eq!(compute_read_value(&profile, &bytes), Ok(54000));
    // A value inside the interval passes through unchanged.
    let bytes = vec![0x78u8, 0x69];
    assert_eq!(compute_read_value(&profile, &bytes), Ok(27000));
    // Too few bytes is a malformed report.
    assert_eq!(
        compute_read_value(&profile, &vec![0x78u8]),
        Err(CodecError::MalformedReport)
    );
}
