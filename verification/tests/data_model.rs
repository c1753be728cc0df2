use cfu_protocol::protocol_definitions::BankType;
use cfu_protocol::protocol_definitions::CfuOfferResponseStatus;
use cfu_protocol::protocol_definitions::CfuOfferStatus;
use cfu_protocol::protocol_definitions::FwUpdateContentResponse;
use cfu_protocol::protocol_definitions::FwUpdateOfferCommand;
use cfu_protocol::protocol_definitions::FwUpdateOfferResponse;
use cfu_protocol::protocol_definitions::FwVerComponentInfo;
use cfu_protocol::protocol_definitions::FwVersion;
use cfu_protocol::protocol_definitions::GetFwVerRespHeaderByte3;
use cfu_protocol::protocol_definitions::GetFwVersionResponseHeader;
use cfu_protocol::protocol_definitions::HostToken;
use cfu_protocol::protocol_definitions::InformationCodeValues;
use cfu_protocol::protocol_definitions::RejectReason;
use cfu_protocol::protocol_definitions::UpdateOfferComponentInfo;
use cfu_protocol::read_from_exact;
use cfu_protocol::MemoryImage;

#[test]
fn read_from_exact_reads_the_chunk_window() {
    let image = MemoryImage::new((0..120u8).map(|k| k).collect());
    let mut buf = vec![0u8; 52];
    assert!(read_from_exact(&image, 1, &mut buf).is_ok());
    let expected: Vec<u8> = (52..104u8).collect();
    assert_eq!(buf, expected);

    // the window past the image end is zero-padded
    let mut tail = vec![0xEEu8; 52];
    assert!(read_from_exact(&image, 2, &mut tail).is_ok());
    let expected: Vec<u8> = (104..120u8).chain(std::iter::repeat(0).take(36)).collect();
    assert_eq!(tail, expected);
}

#[test]
fn component_info_new_with_command_carries_the_code() {
    let ci = UpdateOfferComponentInfo::new_with_command(
        HostToken::Tool,
        0xFF,
        InformationCodeValues::EndOfferList,
    );
    assert_eq!(ci.byte0, 0x02);
    assert_eq!(ci.component_id, 0xFF);
    assert_eq!(ci.token, HostToken::Tool);
    assert!(!ci.byte1.force_ignore_version);
    assert!(!ci.byte1.force_reset);
}

#[test]
fn offer_command_new_with_command_builds_the_info_bytes() {
    let offer = FwUpdateOfferCommand::new_with_command(
        HostToken::Driver,
        0xFE,
        FwVersion { major: 0, minor: 0, variant: 0 },
        0,
        InformationCodeValues::StartOfferList,
        0,
    );
    assert_eq!(offer.component_info.byte0, 0x01);
    assert_eq!(offer.component_info.component_id, 0xFE);
    let bytes = offer.encode();
    assert_eq!(bytes[0], 0x01);
    assert_eq!(bytes[2], 0xFE);
    assert_eq!(bytes[3], 0xA0);
}

#[test]
fn defaults_match_the_protocol() {
    assert_eq!(FwVersion::default(), FwVersion { major: 0, minor: 0, variant: 0 });
    let h = GetFwVersionResponseHeader::default();
    assert_eq!(h.component_count, 1);
    assert_eq!(h.byte3, GetFwVerRespHeaderByte3::NoSpecialFlags);
    assert_eq!(BankType::default(), BankType::SingleBank);
    assert_eq!(RejectReason::default(), RejectReason::RejectOldFw);
    assert_eq!(CfuOfferStatus::default(), CfuOfferStatus::Skip);
    assert_eq!(CfuOfferResponseStatus::default(), CfuOfferResponseStatus::Success);
    let r = FwUpdateOfferResponse::default();
    assert_eq!(r.status, CfuOfferStatus::Skip);
    let d = FwUpdateOfferCommand::default();
    assert_eq!(d.component_info.component_id, 0);
    assert_eq!(d.firmware_version, FwVersion::default());
    let c = FwVerComponentInfo::default();
    assert_eq!(c.bank, BankType::SingleBank);
    assert_eq!(c.component_id, 0);
}

#[test]
fn content_response_new_sets_both_fields() {
    let r = FwUpdateContentResponse::new(7, CfuOfferResponseStatus::SwapPending);
    assert_eq!(r.sequence, 7);
    assert_eq!(r.status, CfuOfferResponseStatus::SwapPending);
}
