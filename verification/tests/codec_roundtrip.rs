use cfu_protocol::codec::CfuDecodeError;
use cfu_protocol::host::build_content_command;
use cfu_protocol::protocol_definitions::BankType;
use cfu_protocol::protocol_definitions::CfuOfferResponseStatus;
use cfu_protocol::protocol_definitions::CfuOfferStatus;
use cfu_protocol::protocol_definitions::ExtendedCommandCode;
use cfu_protocol::protocol_definitions::ExtendedCommandPacketResponse;
use cfu_protocol::protocol_definitions::FwUpdateContentCommand;
use cfu_protocol::protocol_definitions::FwUpdateContentResponse;
use cfu_protocol::protocol_definitions::FwUpdateOfferCommand;
use cfu_protocol::protocol_definitions::FwUpdateOfferExtended;
use cfu_protocol::protocol_definitions::FwUpdateOfferInformation;
use cfu_protocol::protocol_definitions::FwUpdateOfferResponse;
use cfu_protocol::protocol_definitions::FwVerComponentInfo;
use cfu_protocol::protocol_definitions::FwVersion;
use cfu_protocol::protocol_definitions::GetFwVerRespHeaderByte3;
use cfu_protocol::protocol_definitions::GetFwVersionResponse;
use cfu_protocol::protocol_definitions::GetFwVersionResponseHeader;
use cfu_protocol::protocol_definitions::HostToken;
use cfu_protocol::protocol_definitions::InformationCodeValues;
use cfu_protocol::protocol_definitions::RejectReason;

#[test]
fn fw_version_packs_losslessly() {
    let v = FwVersion { major: 1, minor: 2, variant: 3 };
    let packed = v.to_u32();
    assert_eq!(packed, 3 + 2 * 0x100 + 1 * 0x1000000);
    assert_eq!(FwVersion::from_u32(packed), v);
    assert_eq!(FwVersion::from_u32(0xFFFF_FFFF).to_u32(), 0xFFFF_FFFF);
}

#[test]
fn offer_response_encodes_to_fixed_layout() {
    let r = FwUpdateOfferResponse::new_with_failure(
        HostToken::Driver,
        RejectReason::RejectOldFw,
        CfuOfferStatus::Reject,
    );
    let bytes = r.encode();
    let expected: Vec<u8> = vec![0, 0, 0, 0xA0, 0, 0, 0, 0, 0x00, 0, 0, 0, 0x02, 0, 0, 0];
    assert_eq!(bytes, expected);
    assert_eq!(FwUpdateOfferResponse::decode(&bytes), Ok(r));
}

#[test]
fn offer_response_accept_round_trips() {
    let r = FwUpdateOfferResponse::new_accept(HostToken::Tool);
    assert_eq!(r.status, CfuOfferStatus::Accept);
    assert_eq!(r.rejectreasoncode, RejectReason::OfferSwapPending);
    let bytes = r.encode();
    assert_eq!(bytes[3], 0xB0);
    assert_eq!(bytes[12], 0x01);
    assert_eq!(FwUpdateOfferResponse::decode(&bytes), Ok(r));
}

#[test]
fn offer_response_ignores_reserved_bytes_and_reencodes_them_zero() {
    let mut buf: Vec<u8> = vec![0xEE; 16];
    buf[3] = 0xB0; // token: tool
    buf[8] = 0x01; // reason: invalid component
    buf[12] = 0x03; // status: busy
    let decoded = FwUpdateOfferResponse::decode(&buf).unwrap();
    assert_eq!(decoded.token, HostToken::Tool);
    assert_eq!(decoded.rejectreasoncode, RejectReason::RejectInvComponent);
    assert_eq!(decoded.status, CfuOfferStatus::Busy);
    let re = decoded.encode();
    assert_eq!(re, vec![0, 0, 0, 0xB0, 0, 0, 0, 0, 0x01, 0, 0, 0, 0x03, 0, 0, 0]);
}

#[test]
fn offer_response_bad_status_byte_fails() {
    let mut buf: Vec<u8> = vec![0; 16];
    buf[12] = 0x05;
    assert_eq!(FwUpdateOfferResponse::decode(&buf), Err(CfuDecodeError::InvalidEnumValue));
    assert_eq!(FwUpdateOfferResponse::decode(&buf[..15]), Err(CfuDecodeError::ShortBuffer));
}

#[test]
fn extended_response_round_trips() {
    let r = ExtendedCommandPacketResponse::new(
        CfuOfferStatus::Command,
        RejectReason::VendorSpecific(0xE7),
        HostToken::VendorSpecific(0x33),
    );
    let bytes = r.encode();
    assert_eq!(bytes.len(), 16);
    assert_eq!(bytes[3], 0x33);
    assert_eq!(bytes[8], 0xE7);
    assert_eq!(bytes[12], 0x04);
    assert_eq!(ExtendedCommandPacketResponse::decode(&bytes), Ok(r));
}

#[test]
fn content_response_round_trips() {
    let r = FwUpdateContentResponse::new(0x0102, CfuOfferResponseStatus::ErrorCrc);
    let bytes = r.encode();
    let expected: Vec<u8> = vec![0x02, 0x01, 0, 0, 0x05, 0, 0, 0, 0, 0, 0, 0, 0, 0, 0, 0];
    assert_eq!(bytes, expected);
    assert_eq!(FwUpdateContentResponse::decode(&bytes), Ok(r));
}

#[test]
fn offer_information_round_trips_and_demands_info_id() {
    let f = FwUpdateOfferInformation::new(
        InformationCodeValues::StartEntireTransaction,
        HostToken::Driver,
    );
    let bytes = f.encode();
    let expected: Vec<u8> = vec![0x00, 0, 0xFF, 0xA0, 0, 0, 0, 0, 0, 0, 0, 0, 0, 0, 0, 0];
    assert_eq!(bytes, expected);
    assert_eq!(FwUpdateOfferInformation::decode(&bytes), Ok(f));

    let mut bad = bytes.clone();
    bad[2] = 0x01;
    assert_eq!(FwUpdateOfferInformation::decode(&bad), Err(CfuDecodeError::InvalidEnumValue));
    bad[2] = 0xFE;
    assert_eq!(FwUpdateOfferInformation::decode(&bad), Err(CfuDecodeError::InvalidEnumValue));
}

#[test]
fn offer_extended_round_trips_and_demands_command_id() {
    let f = FwUpdateOfferExtended::new(ExtendedCommandCode::OfferNotifyOnReady, HostToken::Tool);
    let bytes = f.encode();
    let expected: Vec<u8> = vec![0x01, 0, 0xFE, 0xB0, 0, 0, 0, 0, 0, 0, 0, 0, 0, 0, 0, 0];
    assert_eq!(bytes, expected);
    assert_eq!(FwUpdateOfferExtended::decode(&bytes), Ok(f));

    let mut bad = bytes.clone();
    bad[2] = 0xFF;
    assert_eq!(FwUpdateOfferExtended::decode(&bad), Err(CfuDecodeError::InvalidEnumValue));
}

#[test]
fn offer_command_encodes_to_fixed_layout() {
    let offer = FwUpdateOfferCommand::new(
        HostToken::Tool,
        1,
        FwVersion { major: 1, minor: 2, variant: 3 },
        0xAABB_CCDD,
        0x2000_0000,
    );
    let bytes = offer.encode();
    let mut expected: Vec<u8> = vec![
        0x00, 0x00, 0x01, 0xB0, // segment, flags, component id, token
        0x03, 0x02, 0x00, 0x01, // variant, minor LE, major
        0xDD, 0xCC, 0xBB, 0xAA, // vendor specific LE
        0x00, 0x00, 0x00, 0x20, // misc and protocol version LE
    ];
    expected.extend(std::iter::repeat(0u8).take(16));
    assert_eq!(bytes, expected);
    assert_eq!(FwUpdateOfferCommand::decode(&bytes), Ok(offer));
}

#[test]
fn offer_command_reserved_flag_bits_read_back_zero() {
    let mut buf: Vec<u8> = vec![0; 32];
    buf[1] = 0xC5; // both flags set plus reserved residue
    let offer = FwUpdateOfferCommand::decode(&buf).unwrap();
    assert!(offer.component_info.byte1.force_ignore_version);
    assert!(offer.component_info.byte1.force_reset);
    let re = offer.encode();
    assert_eq!(re[1], 0xC0);
}

#[test]
fn content_command_round_trips() {
    let mut data = [0u8; 52];
    for (k, b) in data.iter_mut().enumerate() {
        *b = k as u8;
    }
    let cmd = build_content_command(104, 1, data);
    assert_eq!(cmd.header.sequence_num, 1);
    assert_eq!(cmd.header.data_length, 52);
    let bytes = cmd.encode();
    assert_eq!(bytes.len(), 60);
    assert_eq!(bytes[0], 0x40); // last block of a two-chunk image
    assert_eq!(bytes[1], 52);
    assert_eq!(&bytes[2..4], &[1, 0]);
    assert_eq!(&bytes[8..60], &data[..]);
    let back: FwUpdateContentCommand = FwUpdateContentCommand::decode(&bytes).unwrap();
    assert_eq!(back, cmd);

    let mut bad = bytes.clone();
    bad[0] = 0x41; // not one of the four flag masks
    assert_eq!(
        FwUpdateContentCommand::decode(&bad).unwrap_err(),
        CfuDecodeError::InvalidEnumValue
    );
}

#[test]
fn get_fw_version_response_round_trips() {
    let entry0 = FwVerComponentInfo::new_with_vendor_specific_info(
        FwVersion { major: 1, minor: 0x0203, variant: 4 },
        0x11,
        BankType::DualBank,
        0x0506,
        0x0A,
    );
    let entry1 = FwVerComponentInfo::new(
        FwVersion { major: 9, minor: 8, variant: 7 },
        0x22,
        BankType::SingleBank,
    );
    let mut component_info = [FwVerComponentInfo::zeroed(); 7];
    component_info[0] = entry0;
    component_info[1] = entry1;
    let resp = GetFwVersionResponse {
        header: GetFwVersionResponseHeader::new(2, GetFwVerRespHeaderByte3::NoSpecialFlags),
        component_info,
    };
    let bytes = resp.encode();
    assert_eq!(bytes.len(), 60);
    assert_eq!(bytes[0], 2);
    assert_eq!(bytes[3], 0x20);
    // first record: packed byte (vendor nibble high, bank low), id, vendor
    // word LE, major, minor LE, variant
    assert_eq!(&bytes[4..12], &[0xA2, 0x11, 0x06, 0x05, 0x01, 0x03, 0x02, 0x04]);
    assert_eq!(&bytes[12..20], &[0x01, 0x22, 0x00, 0x00, 0x09, 0x08, 0x00, 0x07]);
    assert!(bytes[20..60].iter().all(|b| *b == 0));
    let back = GetFwVersionResponse::decode(&bytes).unwrap();
    assert_eq!(back, resp);
}

#[test]
fn get_fw_version_response_rejects_count_over_seven() {
    let mut buf: Vec<u8> = vec![0; 60];
    buf[0] = 8;
    buf[3] = 0x20;
    assert_eq!(GetFwVersionResponse::decode(&buf), Err(CfuDecodeError::ValueOutOfRange));
    buf[0] = 7;
    assert!(GetFwVersionResponse::decode(&buf).is_ok());
}

#[test]
fn get_fw_version_response_zeroes_unused_entries() {
    let mut buf: Vec<u8> = vec![0; 60];
    buf[0] = 1;
    buf[3] = 0x21;
    buf[4] = 0x15; // vendor nibble 1, bank 1: single bank
    buf[5] = 0x42;
    // residue in the unused records must be dropped
    for b in buf[12..60].iter_mut() {
        *b = 0xEE;
    }
    let resp = GetFwVersionResponse::decode(&buf).unwrap();
    assert_eq!(resp.header.component_count, 1);
    assert_eq!(resp.header.byte3, GetFwVerRespHeaderByte3::ExtensionFlagSet);
    assert_eq!(resp.component_info[0].vendor_specific2, 1);
    assert_eq!(resp.component_info[0].bank, BankType::SingleBank);
    assert_eq!(resp.component_info[0].component_id, 0x42);
    for k in 1..7 {
        assert_eq!(resp.component_info[k], FwVerComponentInfo::zeroed());
    }
    let re = resp.encode();
    assert!(re[12..60].iter().all(|b| *b == 0));
}

#[test]
fn get_fw_version_response_rejects_bad_protocol_byte() {
    let mut buf: Vec<u8> = vec![0; 60];
    buf[0] = 1;
    buf[3] = 0x30;
    assert_eq!(GetFwVersionResponse::decode(&buf), Err(CfuDecodeError::InvalidEnumValue));
}
