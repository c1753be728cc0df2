use cfu_protocol::codec::CfuDecodeError;
use cfu_protocol::protocol_definitions::BankType;
use cfu_protocol::protocol_definitions::CfuOfferResponseStatus;
use cfu_protocol::protocol_definitions::CfuOfferStatus;
use cfu_protocol::protocol_definitions::GetFwVerRespHeaderByte3;
use cfu_protocol::protocol_definitions::HostToken;
use cfu_protocol::protocol_definitions::RejectReason;
use cfu_protocol::protocol_definitions::SpecialComponentIds;

#[test]
fn reject_reason_named_values() {
    assert_eq!(RejectReason::from_byte(0x00), Ok(RejectReason::RejectOldFw));
    assert_eq!(RejectReason::from_byte(0x01), Ok(RejectReason::RejectInvComponent));
    assert_eq!(RejectReason::from_byte(0x02), Ok(RejectReason::OfferSwapPending));
}

#[test]
fn reject_reason_unknown_values_fail() {
    for b in 0x03..=0xDFu8 {
        assert_eq!(RejectReason::from_byte(b), Err(CfuDecodeError::InvalidEnumValue));
    }
}

#[test]
fn reject_reason_vendor_range_decodes() {
    for b in 0xE0..=0xFFu8 {
        assert_eq!(RejectReason::from_byte(b), Ok(RejectReason::VendorSpecific(b)));
        assert_eq!(RejectReason::VendorSpecific(b).to_byte(), b);
    }
}

#[test]
fn host_token_named_values() {
    assert_eq!(HostToken::from_byte(0xA0), HostToken::Driver);
    assert_eq!(HostToken::from_byte(0xB0), HostToken::Tool);
    assert_eq!(HostToken::from_byte(0x17), HostToken::VendorSpecific(0x17));
}

#[test]
fn host_token_every_byte_round_trips() {
    for b in 0x00..=0xFFu8 {
        assert_eq!(HostToken::from_byte(b).to_byte(), b);
    }
    assert_eq!(HostToken::Driver.to_byte(), 0xA0);
    assert_eq!(HostToken::Tool.to_byte(), 0xB0);
}

#[test]
fn offer_status_named_values() {
    assert_eq!(CfuOfferStatus::from_byte(0x00), Ok(CfuOfferStatus::Skip));
    assert_eq!(CfuOfferStatus::from_byte(0x01), Ok(CfuOfferStatus::Accept));
    assert_eq!(CfuOfferStatus::from_byte(0x02), Ok(CfuOfferStatus::Reject));
    assert_eq!(CfuOfferStatus::from_byte(0x03), Ok(CfuOfferStatus::Busy));
    assert_eq!(CfuOfferStatus::from_byte(0x04), Ok(CfuOfferStatus::Command));
    assert_eq!(CfuOfferStatus::from_byte(0xFF), Ok(CfuOfferStatus::CmdNotSupported));
}

#[test]
fn offer_status_unknown_values_fail() {
    for b in 0x05..=0xFEu8 {
        assert_eq!(CfuOfferStatus::from_byte(b), Err(CfuDecodeError::InvalidEnumValue));
    }
}

#[test]
fn content_status_boundaries() {
    assert_eq!(CfuOfferResponseStatus::from_byte(0x00), Ok(CfuOfferResponseStatus::Success));
    assert_eq!(CfuOfferResponseStatus::from_byte(0x02), Ok(CfuOfferResponseStatus::ErrorWrite));
    assert_eq!(CfuOfferResponseStatus::from_byte(0x0B), Ok(CfuOfferResponseStatus::ErrorInvalid));
    for b in 0x0C..=0xFFu8 {
        assert_eq!(CfuOfferResponseStatus::from_byte(b), Err(CfuDecodeError::InvalidEnumValue));
    }
}

#[test]
fn special_component_ids_strict() {
    assert_eq!(SpecialComponentIds::from_byte(0xFE), Ok(SpecialComponentIds::Command));
    assert_eq!(SpecialComponentIds::from_byte(0xFF), Ok(SpecialComponentIds::Info));
    for b in 0x00..=0xFDu8 {
        assert_eq!(SpecialComponentIds::from_byte(b), Err(CfuDecodeError::InvalidEnumValue));
    }
}

#[test]
fn header_byte3_values() {
    assert_eq!(
        GetFwVerRespHeaderByte3::from_byte(0x20),
        Ok(GetFwVerRespHeaderByte3::NoSpecialFlags)
    );
    assert_eq!(
        GetFwVerRespHeaderByte3::from_byte(0x21),
        Ok(GetFwVerRespHeaderByte3::ExtensionFlagSet)
    );
    assert_eq!(
        GetFwVerRespHeaderByte3::from_byte(0x22),
        Err(CfuDecodeError::InvalidEnumValue)
    );
}

#[test]
fn bank_type_two_bit_field() {
    assert_eq!(BankType::SingleBank.to_byte(), 1);
    assert_eq!(BankType::DualBank.to_byte(), 2);
    assert_eq!(BankType::TripleBank.to_byte(), 3);
    assert_eq!(BankType::QuadBank.to_byte(), 0);
    for b in 0..4u8 {
        assert_eq!(BankType::from_byte(b).to_byte(), b);
    }
}
