use macropad_host::codec::{
    decode_encoder_event, encode_date, encode_numeric, encode_string, percent, rounded_ratio,
    EncoderEvent,
};
use macropad_host::data_type::DataType;
use macropad_host::lifecycle::{after_start, after_stop, counter_is_running, Lifecycle};

#[test]
fn tags_match_firmware_numbering() {
    assert_eq!(DataType::Time.tag(), 0xAA);
    assert_eq!(DataType::Volume.tag(), 0xAB);
    assert_eq!(DataType::MediaArtist.tag(), 0xAD);
    assert_eq!(DataType::MediaTitle.tag(), 0xAE);
    assert_eq!(DataType::Date.tag(), 0xAF);
    assert_eq!(DataType::CPUUsage.tag(), 0xB0);
    assert_eq!(DataType::RAMUsage.tag(), 0xB1);
    assert_eq!(DataType::NetworkRX.tag(), 0xB2);
    assert_eq!(DataType::NetworkTX.tag(), 0xB3);
    assert_eq!(DataType::Space.tag(), 0xB4);
    assert_eq!(DataType::EncoderMode.tag(), 0xB5);
    assert_eq!(DataType::RelayFromDevice.tag(), 0xCC);
    assert_eq!(DataType::RelayToDevice.tag(), 0xCD);
}

#[test]
fn from_tag_reads_back_every_kind() {
    let all = [
        DataType::Time,
        DataType::Volume,
        DataType::Layout,
        DataType::MediaArtist,
        DataType::MediaTitle,
        DataType::Date,
        DataType::CPUUsage,
        DataType::RAMUsage,
        DataType::NetworkRX,
        DataType::NetworkTX,
        DataType::Space,
        DataType::EncoderMode,
        DataType::RelayFromDevice,
        DataType::RelayToDevice,
    ];
    for d in all {
        assert_eq!(DataType::from_tag(d.tag()), Some(d));
    }
    assert_eq!(DataType::from_tag(0), None);
    assert_eq!(DataType::from_tag(0xA9), None);
    assert_eq!(DataType::from_tag(0xB6), None);
    assert_eq!(DataType::from_tag(0xCB), None);
    assert_eq!(DataType::from_tag(0xCE), None);
}

#[test]
fn date_packet_layout() {
    assert_eq!(encode_date(15, 7), vec![0xAF, 15, 7]);
    assert_eq!(encode_date(31, 12), vec![0xAF, 31, 12]);
}

#[test]
fn numeric_packet_clamps_to_one_byte() {
    assert_eq!(encode_numeric(DataType::CPUUsage, 50), vec![0xB0, 50]);
    assert_eq!(encode_numeric(DataType::Volume, 0), vec![0xAB, 0]);
    assert_eq!(encode_numeric(DataType::Space, 255), vec![0xB4, 255]);
    assert_eq!(encode_numeric(DataType::NetworkRX, 256), vec![0xB2, 255]);
    assert_eq!(encode_numeric(DataType::NetworkTX, 300), vec![0xB3, 255]);
    assert_eq!(encode_numeric(DataType::RAMUsage, u64::MAX), vec![0xB1, 255]);
}

#[test]
fn rounding_to_nearest() {
    assert_eq!(rounded_ratio(504, 10), 50);
    assert_eq!(rounded_ratio(505, 10), 51);
    assert_eq!(rounded_ratio(495, 10), 50);
    assert_eq!(rounded_ratio(0, 7), 0);
    assert_eq!(percent(4096, 8192), 50);
    assert_eq!(percent(1, 3), 33);
    assert_eq!(percent(2, 3), 67);
    assert_eq!(percent(8192, 8192), 100);
    assert_eq!(percent(5, 0), 0);
}

#[test]
fn string_packet_short() {
    assert_eq!(
        encode_string(DataType::MediaArtist, "abc"),
        vec![0xAD, 3, b'a', b'b', b'c']
    );
    assert_eq!(encode_string(DataType::MediaTitle, ""), vec![0xAE, 0]);
}

#[test]
fn string_packet_truncates_to_thirty_bytes() {
    let s = "0123456789abcdefghijklmnopqrstuvwxyz";
    let p = encode_string(DataType::MediaTitle, s);
    assert_eq!(p.len(), 32);
    assert_eq!(p[0], 0xAE);
    assert_eq!(p[1], 30);
    assert_eq!(&p[2..], &s.as_bytes()[..30]);

    let exact = "012345678901234567890123456789";
    let q = encode_string(DataType::MediaArtist, exact);
    assert_eq!(q[1], 30);
    assert_eq!(&q[2..], exact.as_bytes());
}

#[test]
fn string_packet_counts_utf8_bytes() {
    assert_eq!(
        encode_string(DataType::MediaArtist, "é"),
        vec![0xAD, 2, 0xC3, 0xA9]
    );
    let mixed = format!("é{}", "a".repeat(29));
    assert_eq!(mixed.chars().count(), 30);
    let m = encode_string(DataType::MediaTitle, &mixed);
    assert_eq!(m.len(), 32);
    assert_eq!(m[1], 30);
    assert_eq!(&m[2..], &mixed.as_bytes()[..30]);
    let s = "é".repeat(16);
    let p = encode_string(DataType::MediaArtist, &s);
    assert_eq!(p[1], 30);
    assert_eq!(&p[2..], &s.as_bytes()[..30]);
}

#[test]
fn encoder_event_decoding() {
    assert_eq!(
        decode_encoder_event(&vec![0xB5, 3, 1]),
        Some(EncoderEvent { index: 3, mode: 1 })
    );
    assert_eq!(
        decode_encoder_event(&vec![0xB5, 0, 2, 9]),
        Some(EncoderEvent { index: 0, mode: 2 })
    );
    assert_eq!(decode_encoder_event(&vec![0xAD, 3, 1]), None);
    assert_eq!(decode_encoder_event(&vec![0xB5, 3]), None);
    assert_eq!(decode_encoder_event(&vec![]), None);
}

#[test]
fn counter_transitions() {
    assert_eq!(after_start(0), Some(1));
    assert_eq!(after_start(1), None);
    assert_eq!(after_start(u64::MAX), None);
    assert_eq!(after_stop(1), Some(2));
    assert_eq!(after_stop(2), None);
    assert_eq!(after_stop(u64::MAX), Some(0));
    assert!(!counter_is_running(0));
    assert!(counter_is_running(1));
    assert!(!counter_is_running(2));
    assert!(counter_is_running(u64::MAX));
}

#[test]
fn lifecycle_start_stop_restart() {
    let l = Lifecycle::new();
    assert!(!l.is_running());
    let first = l.start().expect("a stopped lifecycle starts");
    assert!(l.is_running());
    assert!(first.is_current());
    assert!(l.start().is_none());
    l.stop();
    assert!(!l.is_running());
    assert!(!first.is_current());
    l.stop();
    assert!(!l.is_running());
    let second = l.start().expect("a stopped lifecycle restarts");
    assert!(second.is_current());
    assert!(!first.is_current());
}
