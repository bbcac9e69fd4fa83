//! Protocol constant, register codec and resolver tests.

use driver::aub::BulkEndpoint;
use driver::aub::DataWidth;
use driver::aub::GulpConfig;
use driver::aub::RequestType;
use driver::aub::GULP_INFO_SIZE;
use driver::aub::GULP_TIMEOUT_MS;
use driver::aub::GULP_VENDOR_ID;
use driver::aub::PACKET_SIZE_FS;
use driver::aub::PACKET_SIZE_HS;
use driver::aub::REG;
use driver::aub::RSR_BIT;
use driver::aub::TSR_BIT;
use driver::axis_usb::find_interfaces;
use driver::axis_usb::matches_device_id;
use driver::axis_usb::PRODUCT_ID;
use driver::axis_usb::VENDOR_ID;
use driver::registers::decode_register_value;
use driver::registers::encode_register_value;
use driver::registers::settle_register_read;
use driver::tart::build_wrdat;
use driver::tart::write_template;
use driver::usb::ConfigDesc;
use driver::usb::InterfaceDesc;
use driver::usb::UsbError;

#[test]
fn device_identity() {
    assert_eq!(VENDOR_ID, 0xF4CE);
    assert_eq!(PRODUCT_ID, 0x0003);
    assert_eq!(GULP_VENDOR_ID, 0xFACE);
    assert!(matches_device_id(0xF4CE, 0x0003));
    assert!(!matches_device_id(0xF4CE, 0x0004));
    assert!(!matches_device_id(0xFACE, 0x0003));
}

#[test]
fn transfer_sizing_constants() {
    assert_eq!(GULP_INFO_SIZE, 64);
    assert_eq!(GULP_TIMEOUT_MS, 10);
    assert_eq!(PACKET_SIZE_HS, 512);
    assert_eq!(PACKET_SIZE_FS, 64);
}

#[test]
fn request_type_values() {
    assert_eq!(RequestType::IN.value(), 0xC0);
    assert_eq!(RequestType::OUT.value(), 0x40);
}

#[test]
fn bulk_endpoint_values() {
    assert_eq!(BulkEndpoint::IN.value(), 0x81);
    assert_eq!(BulkEndpoint::OUT.value(), 0x01);
}

#[test]
fn register_addresses() {
    assert_eq!(REG::TSR.addr(), 0);
    assert_eq!(REG::TLR.addr(), 1);
    assert_eq!(REG::RSR.addr(), 2);
}

#[test]
fn status_bit_masks() {
    assert_eq!(TSR_BIT::RDY.mask(), 1);
    assert_eq!(TSR_BIT::LST.mask(), 2);
    assert_eq!(RSR_BIT::RDY.mask(), 1);
    assert_eq!(RSR_BIT::LST.mask(), 2);
}

#[test]
fn data_width_sizing() {
    assert_eq!(DataWidth::Unset.nbytes(), 0);
    assert_eq!(DataWidth::Byte.nbytes(), 1);
    assert_eq!(DataWidth::Half.nbytes(), 2);
    assert_eq!(DataWidth::Word.nbytes(), 4);
    assert_eq!(DataWidth::Unset.code(), 0);
    assert_eq!(DataWidth::Byte.code(), 1);
    assert_eq!(DataWidth::Half.code(), 2);
    assert_eq!(DataWidth::Word.code(), 3);
}

#[test]
fn gulp_config_holds_channels() {
    let cfg = GulpConfig {
        channels: [3, 7],
        usb_mode: 1,
    };
    assert_eq!(cfg.channels[0], 3);
    assert_eq!(cfg.channels[1], 7);
    assert_eq!(cfg.usb_mode, 1);
}

#[test]
fn register_encoding_is_little_endian() {
    assert_eq!(encode_register_value(0xA5, DataWidth::Byte), vec![0xA5]);
    assert_eq!(
        encode_register_value(0x1234, DataWidth::Half),
        vec![0x34, 0x12]
    );
    assert_eq!(
        encode_register_value(0xA1B2C3D4, DataWidth::Word),
        vec![0xD4, 0xC3, 0xB2, 0xA1]
    );
    assert!(encode_register_value(0x55, DataWidth::Unset).is_empty());
}

#[test]
fn register_codec_round_trips() {
    for v in [0u32, 1, 0x7F, 0xFF] {
        let bytes = encode_register_value(v, DataWidth::Byte);
        assert_eq!(decode_register_value(&bytes), v);
    }
    for v in [0u32, 0x100, 0xABCD, 0xFFFF] {
        let bytes = encode_register_value(v, DataWidth::Half);
        assert_eq!(decode_register_value(&bytes), v);
    }
    for v in [0u32, 0x10000, 0xDEADBEEF, 0xFFFFFFFF] {
        let bytes = encode_register_value(v, DataWidth::Word);
        assert_eq!(decode_register_value(&bytes), v);
    }
}

#[test]
fn write_template_bytes() {
    let t = write_template();
    assert_eq!(t.len(), 24);
    assert_eq!(
        t,
        vec![
            0xff, 0x5a, 0xc3, 0x2d, 0x03, 0xb0, 0x00, 0x10, 0x03, 0xb0, 0x00, 0x10, 0xff, 0x5a,
            0xc3, 0x2d, 0xff, 0x80, 0x08, 0x3c, 0xa5, 0xc3, 0x5a, 0x99,
        ]
    );
}

#[test]
fn build_wrdat_replicates_truncated_template() {
    let data = build_wrdat(3, 4);
    assert_eq!(data, vec![0xff, 0x5a, 0xc3, 0xff, 0x5a, 0xc3, 0xff, 0x5a, 0xc3, 0xff, 0x5a, 0xc3]);
    assert!(build_wrdat(5, 0).is_empty());
    assert!(build_wrdat(0, 5).is_empty());
    assert_eq!(build_wrdat(24, 2).len(), 48);
}

#[test]
fn settle_register_read_checks_answer_length() {
    assert_eq!(
        settle_register_read(&vec![0x34, 0x12], DataWidth::Half),
        Ok(0x1234)
    );
    assert_eq!(
        settle_register_read(&vec![0x34], DataWidth::Half),
        Err(UsbError::Protocol)
    );
    assert_eq!(
        settle_register_read(&vec![0x34, 0x12, 0x00], DataWidth::Half),
        Err(UsbError::Protocol)
    );
    assert_eq!(settle_register_read(&vec![0x7F], DataWidth::Byte), Ok(0x7F));
}

#[test]
fn find_interfaces_of_no_configurations_is_empty() {
    let configs: Vec<ConfigDesc> = Vec::new();
    assert!(find_interfaces(&configs).is_empty());
}

#[test]
fn find_interfaces_lists_descriptor_numbers() {
    let configs = vec![ConfigDesc {
        number: 1,
        interfaces: vec![
            InterfaceDesc {
                number: 0,
                setting: 0,
                endpoints: Vec::new(),
            },
            InterfaceDesc {
                number: 0,
                setting: 1,
                endpoints: Vec::new(),
            },
            InterfaceDesc {
                number: 2,
                setting: 0,
                endpoints: Vec::new(),
            },
        ],
    }];
    assert_eq!(find_interfaces(&configs), vec![0, 0, 2]);
}
