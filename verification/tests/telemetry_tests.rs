//! Telemetry decoder tests: the exact nibble/byte-to-label tables and the
//! record framing.

use driver::telemetry::decode_telemetry;
use driver::telemetry::to_state;

#[test]
fn to_state_bulk_setup_unknown() {
    // High byte 0x41: top nibble 0x4 names the bulk state, low nibble 0x1
    // the setup-receive control phase; low byte 0x11 is not a one-hot mask.
    assert_eq!(
        to_state(0, 0x11, 0x41),
        format!(
            "{:5}  ->  {{ {} : {} : {} }}",
            0, "ST_BULK", "CTL_SETUP_RX  ", "- UNKNOWN - "
        )
    );
}

#[test]
fn to_state_exact_text() {
    assert_eq!(
        to_state(0, 0x11, 0x41),
        "    0  ->  { ST_BULK : CTL_SETUP_RX   : - UNKNOWN -  }"
    );
}

#[test]
fn to_state_all_overall_labels() {
    let cases: [(u8, &str); 5] = [
        (0x10, "ST_IDLE"),
        (0x20, "ST_CTRL"),
        (0x40, "ST_BULK"),
        (0x80, "ST_DUMP"),
        (0x30, "- XXX -"),
    ];
    for (hi, label) in cases {
        assert_eq!(
            to_state(7, 0x01, hi),
            format!(
                "{:5}  ->  {{ {} : {} : {} }}",
                7, label, "CTL_DONE      ", "BLK_IDLE    "
            )
        );
    }
}

#[test]
fn to_state_all_ctrl_labels() {
    let cases: [(u8, &str); 13] = [
        (0x00, "CTL_DONE      "),
        (0x01, "CTL_SETUP_RX  "),
        (0x02, "CTL_SETUP_ACK "),
        (0x03, "CTL_DATA_TOK  "),
        (0x04, "CTL_DATO_RX   "),
        (0x05, "CTL_DATO_ACK  "),
        (0x06, "CTL_DATI_TX   "),
        (0x07, "CTL_DATI_ACK  "),
        (0x08, "CTL_STATUS_TOK"),
        (0x09, "CTL_STATUS_RX "),
        (0x0a, "CTL_STATUS_TX "),
        (0x0b, "CTL_STATUS_ACK"),
        (0x0c, "- UNKNOWN -   "),
    ];
    for (nibble, label) in cases {
        assert_eq!(
            to_state(0, 0x80, 0x10 | nibble),
            format!(
                "{:5}  ->  {{ {} : {} : {} }}",
                0, "ST_IDLE", label, "BLK_DONE    "
            )
        );
    }
}

#[test]
fn to_state_all_bulk_labels() {
    let cases: [(u8, &str); 9] = [
        (0x01, "BLK_IDLE    "),
        (0x02, "BLK_DATI_TX "),
        (0x04, "BLK_DATI_ZDP"),
        (0x08, "BLK_DATI_ACK"),
        (0x10, "BLK_DATO_RX "),
        (0x20, "BLK_DATO_ACK"),
        (0x40, "BLK_DATO_ERR"),
        (0x80, "BLK_DONE    "),
        (0x03, "- UNKNOWN - "),
    ];
    for (lo, label) in cases {
        assert_eq!(
            to_state(0, lo, 0x20),
            format!(
                "{:5}  ->  {{ {} : {} : {} }}",
                0, "ST_CTRL", "CTL_DONE      ", label
            )
        );
    }
}

#[test]
fn to_state_wide_index_is_not_truncated() {
    assert_eq!(
        to_state(123456, 0x01, 0x10),
        format!(
            "{:5}  ->  {{ {} : {} : {} }}",
            123456, "ST_IDLE", "CTL_DONE      ", "BLK_IDLE    "
        )
    );
}

#[test]
fn decode_telemetry_numbers_records_from_zero() {
    let data = vec![0x11, 0x41, 0x01, 0x10];
    let lines = decode_telemetry(&data);
    assert_eq!(lines.len(), 2);
    assert_eq!(
        lines[0],
        "    0  ->  { ST_BULK : CTL_SETUP_RX   : - UNKNOWN -  }"
    );
    assert_eq!(
        lines[1],
        "    1  ->  { ST_IDLE : CTL_DONE       : BLK_IDLE     }"
    );
}

#[test]
fn decode_telemetry_ignores_trailing_odd_byte() {
    let data = vec![0x11, 0x41, 0xff];
    assert_eq!(decode_telemetry(&data).len(), 1);
}

#[test]
fn decode_telemetry_empty_is_empty() {
    let data: Vec<u8> = Vec::new();
    assert!(decode_telemetry(&data).is_empty());
}
