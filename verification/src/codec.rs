//! Wire codec: bit-exact encoding and decoding of every CFU frame.
//!
//! All multi-byte integers are little-endian. Reserved bytes are written
//! as zero and ignored on decode. Enum bytes are validated against the
//! closed set of each enum, except where an enum admits a vendor-specific
//! catch-all.

use vstd::prelude::*;

use crate::protocol_definitions::BankType;
use crate::protocol_definitions::CfuOfferResponseStatus;
use crate::protocol_definitions::CfuOfferStatus;
use crate::protocol_definitions::ExtendedCommandCode;
use crate::protocol_definitions::FwUpdateFlags;
use crate::protocol_definitions::GetFwVerRespHeaderByte3;
use crate::protocol_definitions::HostToken;
use crate::protocol_definitions::InformationCodeValues;
use crate::protocol_definitions::RejectReason;
use crate::protocol_definitions::SpecialComponentIds;
use crate::protocol_definitions::ExtendedCommandPacketResponse;
use crate::protocol_definitions::FwUpdateContentCommand;
use crate::protocol_definitions::FwUpdateContentHeader;
use crate::protocol_definitions::FwUpdateContentResponse;
use crate::protocol_definitions::FwUpdateOfferCommand;
use crate::protocol_definitions::FwVerComponentInfo;
use crate::protocol_definitions::FwVersion;
use crate::protocol_definitions::GetFwVersionResponse;
use crate::protocol_definitions::GetFwVersionResponseHeader;
use crate::protocol_definitions::UpdateOfferComponentInfo;
use crate::protocol_definitions::MAX_CMPT_COUNT;
use crate::DEFAULT_DATA_LENGTH;
use crate::protocol_definitions::FwUpdateOfferExtended;
use crate::protocol_definitions::FwUpdateOfferInformation;
use crate::protocol_definitions::FwUpdateOfferResponse;
use crate::protocol_definitions::UpdateOfferComponentInfoByte0;
use crate::protocol_definitions::UpdateOfferComponentInfoByte1;

verus! {

/// Why a buffer failed to decode as a frame.
#[derive(Clone, Copy, Debug, PartialEq, Eq, Structural)]
pub enum CfuDecodeError {
    /// An enum byte lies outside its closed value set.
    InvalidEnumValue,
    /// A field value is out of its allowed range.
    ValueOutOfRange,
    /// The buffer does not have the frame's fixed size.
    ShortBuffer,
}

// --- little-endian byte views of u16 and u32 ---

/// Low byte of a 16-bit value.
pub open spec fn spec_lo16(x: u16) -> u8 {
    (x % 0x100) as u8
}

/// High byte of a 16-bit value.
pub open spec fn spec_hi16(x: u16) -> u8 {
    (x / 0x100) as u8
}

/// The 16-bit value with the given little-endian bytes.
pub open spec fn spec_u16_of(lo: u8, hi: u8) -> u16 {
    (lo + hi * 0x100) as u16
}

/// Byte `i` (0 = lowest) of a 32-bit value.
pub open spec fn spec_byte32(x: u32, i: int) -> u8 {
    (x as int / spec_pow256(i) % 0x100) as u8
}

/// 256 to the power `i`, for the byte weights of a 32-bit value.
pub open spec fn spec_pow256(i: int) -> int
    decreases i,
{
    if i <= 0 {
        1
    } else {
        0x100 * spec_pow256(i - 1)
    }
}

/// The 32-bit value with the given little-endian bytes.
pub open spec fn spec_u32_of(b0: u8, b1: u8, b2: u8, b3: u8) -> u32 {
    (b0 + b1 * 0x100 + b2 * 0x10000 + b3 * 0x1000000) as u32
}

/// A 16-bit value round-trips through its little-endian bytes.
pub proof fn lemma_u16_round_trip(x: u16)
    ensures
        spec_u16_of(spec_lo16(x), spec_hi16(x)) == x,
{
}

/// The little-endian bytes of a joined 16-bit value are the joined bytes.
pub proof fn lemma_u16_bytes(lo: u8, hi: u8)
    ensures
        spec_lo16(spec_u16_of(lo, hi)) == lo,
        spec_hi16(spec_u16_of(lo, hi)) == hi,
{
}

/// A 32-bit value round-trips through its little-endian bytes.
pub proof fn lemma_u32_round_trip(x: u32)
    ensures
        spec_u32_of(spec_byte32(x, 0), spec_byte32(x, 1), spec_byte32(x, 2), spec_byte32(x, 3))
            == x,
{
    reveal_with_fuel(spec_pow256, 4);
    assert(x % 0x100 + x / 0x100 % 0x100 * 0x100 + x / 0x10000 % 0x100 * 0x10000 + x / 0x1000000
        % 0x100 * 0x1000000 == x) by (bit_vector);
}

/// The little-endian bytes of a joined 32-bit value are the joined bytes.
pub proof fn lemma_u32_bytes(b0: u8, b1: u8, b2: u8, b3: u8)
    ensures
        spec_byte32(spec_u32_of(b0, b1, b2, b3), 0) == b0,
        spec_byte32(spec_u32_of(b0, b1, b2, b3), 1) == b1,
        spec_byte32(spec_u32_of(b0, b1, b2, b3), 2) == b2,
        spec_byte32(spec_u32_of(b0, b1, b2, b3), 3) == b3,
{
    reveal_with_fuel(spec_pow256, 4);
    let x: u32 = spec_u32_of(b0, b1, b2, b3);
    assert(x % 0x100 == b0 as u32 && x / 0x100 % 0x100 == b1 as u32 && x / 0x10000 % 0x100
        == b2 as u32 && x / 0x1000000 % 0x100 == b3 as u32) by (bit_vector)
        requires
            x == b0 as u32 + b1 as u32 * 0x100 + b2 as u32 * 0x10000 + b3 as u32 * 0x1000000,
    ;
}

/// Splits a 16-bit value into its little-endian bytes.
pub fn u16_to_le(x: u16) -> (r: (u8, u8))
    ensures
        r.0 == spec_lo16(x),
        r.1 == spec_hi16(x),
{
    ((x % 0x100) as u8, (x / 0x100) as u8)
}

/// Joins two little-endian bytes into a 16-bit value.
pub fn u16_from_le(lo: u8, hi: u8) -> (r: u16)
    ensures
        r == spec_u16_of(lo, hi),
{
    lo as u16 + hi as u16 * 0x100
}

/// Splits a 32-bit value into its little-endian bytes.
pub fn u32_to_le(x: u32) -> (r: (u8, u8, u8, u8))
    ensures
        r.0 == spec_byte32(x, 0),
        r.1 == spec_byte32(x, 1),
        r.2 == spec_byte32(x, 2),
        r.3 == spec_byte32(x, 3),
{
    proof {
        reveal_with_fuel(spec_pow256, 4);
    }
    (
        (x % 0x100) as u8,
        ((x / 0x100) % 0x100) as u8,
        ((x / 0x10000) % 0x100) as u8,
        ((x / 0x1000000) % 0x100) as u8,
    )
}

/// Joins four little-endian bytes into a 32-bit value.
pub fn u32_from_le(b0: u8, b1: u8, b2: u8, b3: u8) -> (r: u32)
    ensures
        r == spec_u32_of(b0, b1, b2, b3),
{
    b0 as u32 + b1 as u32 * 0x100 + b2 as u32 * 0x10000 + b3 as u32 * 0x1000000
}

// --- byte codecs of the field enums ---

impl HostToken {
    /// Wire byte of a token.
    pub open spec fn spec_to_byte(self) -> u8 {
        match self {
            HostToken::Driver => 0xA0,
            HostToken::Tool => 0xB0,
            HostToken::VendorSpecific(b) => b,
        }
    }

    /// Token of a wire byte. Every byte decodes: the named tags at `0xA0`
    /// and `0xB0`, all other bytes as vendor-specific.
    pub open spec fn spec_from_byte(b: u8) -> HostToken {
        if b == 0xA0 {
            HostToken::Driver
        } else if b == 0xB0 {
            HostToken::Tool
        } else {
            HostToken::VendorSpecific(b)
        }
    }

    pub fn to_byte(self) -> (r: u8)
        ensures
            r == self.spec_to_byte(),
    {
        match self {
            HostToken::Driver => 0xA0,
            HostToken::Tool => 0xB0,
            HostToken::VendorSpecific(b) => b,
        }
    }

    pub fn from_byte(b: u8) -> (r: HostToken)
        ensures
            r == HostToken::spec_from_byte(b),
            r.spec_valid(),
    {
        if b == 0xA0 {
            HostToken::Driver
        } else if b == 0xB0 {
            HostToken::Tool
        } else {
            HostToken::VendorSpecific(b)
        }
    }
}

/// Token law: every valid token survives the trip to its byte and back,
/// and every byte survives the trip to a token and back.
pub proof fn lemma_host_token_round_trip(t: HostToken, b: u8)
    ensures
        t.spec_valid() ==> HostToken::spec_from_byte(t.spec_to_byte()) == t,
        HostToken::spec_from_byte(b).spec_to_byte() == b,
{
}

impl SpecialComponentIds {
    pub open spec fn spec_to_byte(self) -> u8 {
        match self {
            SpecialComponentIds::Command => 0xFE,
            SpecialComponentIds::Info => 0xFF,
        }
    }

    /// Only the two reserved bytes decode; a frame position that demands
    /// one of them refuses every other byte.
    pub open spec fn spec_from_byte(b: u8) -> Result<SpecialComponentIds, CfuDecodeError> {
        if b == 0xFE {
            Ok(SpecialComponentIds::Command)
        } else if b == 0xFF {
            Ok(SpecialComponentIds::Info)
        } else {
            Err(CfuDecodeError::InvalidEnumValue)
        }
    }

    pub fn to_byte(self) -> (r: u8)
        ensures
            r == self.spec_to_byte(),
    {
        match self {
            SpecialComponentIds::Command => 0xFE,
            SpecialComponentIds::Info => 0xFF,
        }
    }

    pub fn from_byte(b: u8) -> (r: Result<SpecialComponentIds, CfuDecodeError>)
        ensures
            r == SpecialComponentIds::spec_from_byte(b),
    {
        if b == 0xFE {
            Ok(SpecialComponentIds::Command)
        } else if b == 0xFF {
            Ok(SpecialComponentIds::Info)
        } else {
            Err(CfuDecodeError::InvalidEnumValue)
        }
    }
}

impl BankType {
    /// Wire value in the two-bit bank field. Single, dual and triple carry
    /// their count; quad wraps to zero, so the four values fill the field.
    pub open spec fn spec_to_byte(self) -> u8 {
        match self {
            BankType::SingleBank => 1,
            BankType::DualBank => 2,
            BankType::TripleBank => 3,
            BankType::QuadBank => 0,
        }
    }

    /// Bank of a two-bit wire value; every value in range decodes.
    pub open spec fn spec_from_byte(b: u8) -> BankType
        recommends
            b < 4,
    {
        if b == 1 {
            BankType::SingleBank
        } else if b == 2 {
            BankType::DualBank
        } else if b == 3 {
            BankType::TripleBank
        } else {
            BankType::QuadBank
        }
    }

    pub fn to_byte(self) -> (r: u8)
        ensures
            r == self.spec_to_byte(),
            r < 4,
    {
        match self {
            BankType::SingleBank => 1,
            BankType::DualBank => 2,
            BankType::TripleBank => 3,
            BankType::QuadBank => 0,
        }
    }

    pub fn from_byte(b: u8) -> (r: BankType)
        ensures
            r == BankType::spec_from_byte(b),
    {
        if b == 1 {
            BankType::SingleBank
        } else if b == 2 {
            BankType::DualBank
        } else if b == 3 {
            BankType::TripleBank
        } else {
            BankType::QuadBank
        }
    }
}

/// Bank law: the two-bit field is a bijection between the four bank types
/// and the four field values.
pub proof fn lemma_bank_type_round_trip(t: BankType, b: u8)
    ensures
        BankType::spec_from_byte(t.spec_to_byte()) == t,
        b < 4 ==> BankType::spec_from_byte(b).spec_to_byte() == b,
{
}

impl GetFwVerRespHeaderByte3 {
    pub open spec fn spec_to_byte(self) -> u8 {
        match self {
            GetFwVerRespHeaderByte3::NoSpecialFlags => 0x20,
            GetFwVerRespHeaderByte3::ExtensionFlagSet => 0x21,
        }
    }

    /// Only the two protocol bytes decode.
    pub open spec fn spec_from_byte(b: u8) -> Result<GetFwVerRespHeaderByte3, CfuDecodeError> {
        if b == 0x20 {
            Ok(GetFwVerRespHeaderByte3::NoSpecialFlags)
        } else if b == 0x21 {
            Ok(GetFwVerRespHeaderByte3::ExtensionFlagSet)
        } else {
            Err(CfuDecodeError::InvalidEnumValue)
        }
    }

    pub fn to_byte(self) -> (r: u8)
        ensures
            r == self.spec_to_byte(),
    {
        match self {
            GetFwVerRespHeaderByte3::NoSpecialFlags => 0x20,
            GetFwVerRespHeaderByte3::ExtensionFlagSet => 0x21,
        }
    }

    pub fn from_byte(b: u8) -> (r: Result<GetFwVerRespHeaderByte3, CfuDecodeError>)
        ensures
            r == GetFwVerRespHeaderByte3::spec_from_byte(b),
    {
        if b == 0x20 {
            Ok(GetFwVerRespHeaderByte3::NoSpecialFlags)
        } else if b == 0x21 {
            Ok(GetFwVerRespHeaderByte3::ExtensionFlagSet)
        } else {
            Err(CfuDecodeError::InvalidEnumValue)
        }
    }
}

impl RejectReason {
    pub open spec fn spec_to_byte(self) -> u8 {
        match self {
            RejectReason::RejectOldFw => 0x00,
            RejectReason::RejectInvComponent => 0x01,
            RejectReason::OfferSwapPending => 0x02,
            RejectReason::VendorSpecific(b) => b,
        }
    }

    /// Reason of a wire byte: the three named reasons at `0x00..=0x02`,
    /// vendor-specific reasons at `0xE0..=0xFF`, everything between fails.
    pub open spec fn spec_from_byte(b: u8) -> Result<RejectReason, CfuDecodeError> {
        if b == 0x00 {
            Ok(RejectReason::RejectOldFw)
        } else if b == 0x01 {
            Ok(RejectReason::RejectInvComponent)
        } else if b == 0x02 {
            Ok(RejectReason::OfferSwapPending)
        } else if b >= 0xE0 {
            Ok(RejectReason::VendorSpecific(b))
        } else {
            Err(CfuDecodeError::InvalidEnumValue)
        }
    }

    pub fn to_byte(self) -> (r: u8)
        ensures
            r == self.spec_to_byte(),
    {
        match self {
            RejectReason::RejectOldFw => 0x00,
            RejectReason::RejectInvComponent => 0x01,
            RejectReason::OfferSwapPending => 0x02,
            RejectReason::VendorSpecific(b) => b,
        }
    }

    pub fn from_byte(b: u8) -> (r: Result<RejectReason, CfuDecodeError>)
        ensures
            r == RejectReason::spec_from_byte(b),
    {
        if b == 0x00 {
            Ok(RejectReason::RejectOldFw)
        } else if b == 0x01 {
            Ok(RejectReason::RejectInvComponent)
        } else if b == 0x02 {
            Ok(RejectReason::OfferSwapPending)
        } else if b >= 0xE0 {
            Ok(RejectReason::VendorSpecific(b))
        } else {
            Err(CfuDecodeError::InvalidEnumValue)
        }
    }
}

/// Reject-reason law: bytes `0x00..=0x02` decode to the named reasons,
/// `0x03..=0xDF` fail, `0xE0..=0xFF` decode as vendor-specific; every
/// valid reason round-trips.
pub proof fn lemma_reject_reason_round_trip(v: RejectReason, b: u8)
    ensures
        v.spec_valid() ==> RejectReason::spec_from_byte(v.spec_to_byte()) == Ok::<
            RejectReason,
            CfuDecodeError,
        >(v),
        0x03 <= b < 0xE0 ==> RejectReason::spec_from_byte(b) == Err::<
            RejectReason,
            CfuDecodeError,
        >(CfuDecodeError::InvalidEnumValue),
        0xE0 <= b ==> RejectReason::spec_from_byte(b) == Ok::<RejectReason, CfuDecodeError>(
            RejectReason::VendorSpecific(b),
        ),
        RejectReason::spec_from_byte(b) matches Ok(v2) ==> v2.spec_to_byte() == b
            && v2.spec_valid(),
{
}

impl CfuOfferStatus {
    pub open spec fn spec_to_byte(self) -> u8 {
        match self {
            CfuOfferStatus::Skip => 0x00,
            CfuOfferStatus::Accept => 0x01,
            CfuOfferStatus::Reject => 0x02,
            CfuOfferStatus::Busy => 0x03,
            CfuOfferStatus::Command => 0x04,
            CfuOfferStatus::CmdNotSupported => 0xFF,
        }
    }

    /// Status of a wire byte: only `0x00..=0x04` and `0xFF` decode.
    pub open spec fn spec_from_byte(b: u8) -> Result<CfuOfferStatus, CfuDecodeError> {
        if b == 0x00 {
            Ok(CfuOfferStatus::Skip)
        } else if b == 0x01 {
            Ok(CfuOfferStatus::Accept)
        } else if b == 0x02 {
            Ok(CfuOfferStatus::Reject)
        } else if b == 0x03 {
            Ok(CfuOfferStatus::Busy)
        } else if b == 0x04 {
            Ok(CfuOfferStatus::Command)
        } else if b == 0xFF {
            Ok(CfuOfferStatus::CmdNotSupported)
        } else {
            Err(CfuDecodeError::InvalidEnumValue)
        }
    }

    pub fn to_byte(self) -> (r: u8)
        ensures
            r == self.spec_to_byte(),
    {
        match self {
            CfuOfferStatus::Skip => 0x00,
            CfuOfferStatus::Accept => 0x01,
            CfuOfferStatus::Reject => 0x02,
            CfuOfferStatus::Busy => 0x03,
            CfuOfferStatus::Command => 0x04,
            CfuOfferStatus::CmdNotSupported => 0xFF,
        }
    }

    pub fn from_byte(b: u8) -> (r: Result<CfuOfferStatus, CfuDecodeError>)
        ensures
            r == CfuOfferStatus::spec_from_byte(b),
    {
        if b == 0x00 {
            Ok(CfuOfferStatus::Skip)
        } else if b == 0x01 {
            Ok(CfuOfferStatus::Accept)
        } else if b == 0x02 {
            Ok(CfuOfferStatus::Reject)
        } else if b == 0x03 {
            Ok(CfuOfferStatus::Busy)
        } else if b == 0x04 {
            Ok(CfuOfferStatus::Command)
        } else if b == 0xFF {
            Ok(CfuOfferStatus::CmdNotSupported)
        } else {
            Err(CfuDecodeError::InvalidEnumValue)
        }
    }
}

/// Offer-status law: bytes `0x00..=0x04` and `0xFF` decode, all others
/// fail; every status round-trips.
pub proof fn lemma_offer_status_round_trip(v: CfuOfferStatus, b: u8)
    ensures
        CfuOfferStatus::spec_from_byte(v.spec_to_byte()) == Ok::<CfuOfferStatus, CfuDecodeError>(v),
        0x05 <= b < 0xFF ==> CfuOfferStatus::spec_from_byte(b) == Err::<
            CfuOfferStatus,
            CfuDecodeError,
        >(CfuDecodeError::InvalidEnumValue),
        CfuOfferStatus::spec_from_byte(b) matches Ok(v2) ==> v2.spec_to_byte() == b,
{
}

impl CfuOfferResponseStatus {
    pub open spec fn spec_to_byte(self) -> u8 {
        match self {
            CfuOfferResponseStatus::Success => 0x00,
            CfuOfferResponseStatus::ErrorPrepare => 0x01,
            CfuOfferResponseStatus::ErrorWrite => 0x02,
            CfuOfferResponseStatus::ErrorComplete => 0x03,
            CfuOfferResponseStatus::ErrorVerify => 0x04,
            CfuOfferResponseStatus::ErrorCrc => 0x05,
            CfuOfferResponseStatus::ErrorSignature => 0x06,
            CfuOfferResponseStatus::ErrorVersion => 0x07,
            CfuOfferResponseStatus::SwapPending => 0x08,
            CfuOfferResponseStatus::ErrorInvalidAddr => 0x09,
            CfuOfferResponseStatus::ErrorNoOffer => 0x0A,
            CfuOfferResponseStatus::ErrorInvalid => 0x0B,
        }
    }

    /// Content status of a wire byte: only `0x00..=0x0B` decode.
    pub open spec fn spec_from_byte(b: u8) -> Result<CfuOfferResponseStatus, CfuDecodeError> {
        if b == 0x00 {
            Ok(CfuOfferResponseStatus::Success)
        } else if b == 0x01 {
            Ok(CfuOfferResponseStatus::ErrorPrepare)
        } else if b == 0x02 {
            Ok(CfuOfferResponseStatus::ErrorWrite)
        } else if b == 0x03 {
            Ok(CfuOfferResponseStatus::ErrorComplete)
        } else if b == 0x04 {
            Ok(CfuOfferResponseStatus::ErrorVerify)
        } else if b == 0x05 {
            Ok(CfuOfferResponseStatus::ErrorCrc)
        } else if b == 0x06 {
            Ok(CfuOfferResponseStatus::ErrorSignature)
        } else if b == 0x07 {
            Ok(CfuOfferResponseStatus::ErrorVersion)
        } else if b == 0x08 {
            Ok(CfuOfferResponseStatus::SwapPending)
        } else if b == 0x09 {
            Ok(CfuOfferResponseStatus::ErrorInvalidAddr)
        } else if b == 0x0A {
            Ok(CfuOfferResponseStatus::ErrorNoOffer)
        } else if b == 0x0B {
            Ok(CfuOfferResponseStatus::ErrorInvalid)
        } else {
            Err(CfuDecodeError::InvalidEnumValue)
        }
    }

    pub fn to_byte(self) -> (r: u8)
        ensures
            r == self.spec_to_byte(),
    {
        match self {
            CfuOfferResponseStatus::Success => 0x00,
            CfuOfferResponseStatus::ErrorPrepare => 0x01,
            CfuOfferResponseStatus::ErrorWrite => 0x02,
            CfuOfferResponseStatus::ErrorComplete => 0x03,
            CfuOfferResponseStatus::ErrorVerify => 0x04,
            CfuOfferResponseStatus::ErrorCrc => 0x05,
            CfuOfferResponseStatus::ErrorSignature => 0x06,
            CfuOfferResponseStatus::ErrorVersion => 0x07,
            CfuOfferResponseStatus::SwapPending => 0x08,
            CfuOfferResponseStatus::ErrorInvalidAddr => 0x09,
            CfuOfferResponseStatus::ErrorNoOffer => 0x0A,
            CfuOfferResponseStatus::ErrorInvalid => 0x0B,
        }
    }

    pub fn from_byte(b: u8) -> (r: Result<CfuOfferResponseStatus, CfuDecodeError>)
        ensures
            r == CfuOfferResponseStatus::spec_from_byte(b),
    {
        if b == 0x00 {
            Ok(CfuOfferResponseStatus::Success)
        } else if b == 0x01 {
            Ok(CfuOfferResponseStatus::ErrorPrepare)
        } else if b == 0x02 {
            Ok(CfuOfferResponseStatus::ErrorWrite)
        } else if b == 0x03 {
            Ok(CfuOfferResponseStatus::ErrorComplete)
        } else if b == 0x04 {
            Ok(CfuOfferResponseStatus::ErrorVerify)
        } else if b == 0x05 {
            Ok(CfuOfferResponseStatus::ErrorCrc)
        } else if b == 0x06 {
            Ok(CfuOfferResponseStatus::ErrorSignature)
        } else if b == 0x07 {
            Ok(CfuOfferResponseStatus::ErrorVersion)
        } else if b == 0x08 {
            Ok(CfuOfferResponseStatus::SwapPending)
        } else if b == 0x09 {
            Ok(CfuOfferResponseStatus::ErrorInvalidAddr)
        } else if b == 0x0A {
            Ok(CfuOfferResponseStatus::ErrorNoOffer)
        } else if b == 0x0B {
            Ok(CfuOfferResponseStatus::ErrorInvalid)
        } else {
            Err(CfuDecodeError::InvalidEnumValue)
        }
    }
}

/// Content-status law: bytes `0x00..=0x0B` decode, all others fail; every
/// status round-trips.
pub proof fn lemma_content_status_round_trip(v: CfuOfferResponseStatus, b: u8)
    ensures
        CfuOfferResponseStatus::spec_from_byte(v.spec_to_byte()) == Ok::<
            CfuOfferResponseStatus,
            CfuDecodeError,
        >(v),
        b > 0x0B ==> CfuOfferResponseStatus::spec_from_byte(b) == Err::<
            CfuOfferResponseStatus,
            CfuDecodeError,
        >(CfuDecodeError::InvalidEnumValue),
        CfuOfferResponseStatus::spec_from_byte(b) matches Ok(v2) ==> v2.spec_to_byte() == b,
{
}

impl FwUpdateFlags {
    pub open spec fn spec_to_byte(self) -> u8 {
        match self {
            FwUpdateFlags::FirstBlock => 0x80,
            FwUpdateFlags::LastBlock => 0x40,
            FwUpdateFlags::FirstAndLastBlock => 0xC0,
            FwUpdateFlags::NoFlags => 0x00,
        }
    }

    /// Flags of a wire byte: only the four mask values decode.
    pub open spec fn spec_from_byte(b: u8) -> Result<FwUpdateFlags, CfuDecodeError> {
        if b == 0x80 {
            Ok(FwUpdateFlags::FirstBlock)
        } else if b == 0x40 {
            Ok(FwUpdateFlags::LastBlock)
        } else if b == 0xC0 {
            Ok(FwUpdateFlags::FirstAndLastBlock)
        } else if b == 0x00 {
            Ok(FwUpdateFlags::NoFlags)
        } else {
            Err(CfuDecodeError::InvalidEnumValue)
        }
    }

    /// Whether this flags value marks the first block of an image.
    pub open spec fn spec_is_first(self) -> bool {
        self == FwUpdateFlags::FirstBlock || self == FwUpdateFlags::FirstAndLastBlock
    }

    /// Whether this flags value marks the last block of an image.
    pub open spec fn spec_is_last(self) -> bool {
        self == FwUpdateFlags::LastBlock || self == FwUpdateFlags::FirstAndLastBlock
    }

    pub fn to_byte(self) -> (r: u8)
        ensures
            r == self.spec_to_byte(),
    {
        match self {
            FwUpdateFlags::FirstBlock => 0x80,
            FwUpdateFlags::LastBlock => 0x40,
            FwUpdateFlags::FirstAndLastBlock => 0xC0,
            FwUpdateFlags::NoFlags => 0x00,
        }
    }

    pub fn from_byte(b: u8) -> (r: Result<FwUpdateFlags, CfuDecodeError>)
        ensures
            r == FwUpdateFlags::spec_from_byte(b),
    {
        if b == 0x80 {
            Ok(FwUpdateFlags::FirstBlock)
        } else if b == 0x40 {
            Ok(FwUpdateFlags::LastBlock)
        } else if b == 0xC0 {
            Ok(FwUpdateFlags::FirstAndLastBlock)
        } else if b == 0x00 {
            Ok(FwUpdateFlags::NoFlags)
        } else {
            Err(CfuDecodeError::InvalidEnumValue)
        }
    }
}

/// Content-flags law: the four mask values round-trip and all other bytes
/// fail.
pub proof fn lemma_fw_update_flags_round_trip(v: FwUpdateFlags, b: u8)
    ensures
        FwUpdateFlags::spec_from_byte(v.spec_to_byte()) == Ok::<FwUpdateFlags, CfuDecodeError>(v),
        FwUpdateFlags::spec_from_byte(b) matches Ok(v2) ==> v2.spec_to_byte() == b,
{
}

impl InformationCodeValues {
    /// Wire byte of an information code. The extended notify-on-ready code
    /// shares the byte `0x01` with the start-offer-list code: the two live
    /// in different frame kinds.
    pub open spec fn spec_to_byte(self) -> u8 {
        match self {
            InformationCodeValues::StartEntireTransaction => 0x00,
            InformationCodeValues::StartOfferList => 0x01,
            InformationCodeValues::EndOfferList => 0x02,
            InformationCodeValues::Extended(c) => c.spec_to_byte(),
        }
    }

    pub fn to_byte(self) -> (r: u8)
        ensures
            r == self.spec_to_byte(),
    {
        match self {
            InformationCodeValues::StartEntireTransaction => 0x00,
            InformationCodeValues::StartOfferList => 0x01,
            InformationCodeValues::EndOfferList => 0x02,
            InformationCodeValues::Extended(c) => c.to_byte(),
        }
    }
}

impl ExtendedCommandCode {
    pub open spec fn spec_to_byte(self) -> u8 {
        match self {
            ExtendedCommandCode::OfferNotifyOnReady => 0x01,
        }
    }

    pub fn to_byte(self) -> (r: u8)
        ensures
            r == self.spec_to_byte(),
    {
        match self {
            ExtendedCommandCode::OfferNotifyOnReady => 0x01,
        }
    }
}

impl UpdateOfferComponentInfoByte0 {
    /// Wire byte: the segment number itself, or the code's byte.
    pub open spec fn spec_to_byte(self) -> u8 {
        match self {
            UpdateOfferComponentInfoByte0::Segment(n) => n,
            UpdateOfferComponentInfoByte0::CommandCode(c) => c.spec_to_byte(),
        }
    }

    pub fn to_byte(self) -> (r: u8)
        ensures
            r == self.spec_to_byte(),
    {
        match self {
            UpdateOfferComponentInfoByte0::Segment(n) => n,
            UpdateOfferComponentInfoByte0::CommandCode(c) => c.to_byte(),
        }
    }
}

impl UpdateOfferComponentInfoByte1 {
    /// Wire byte: bit 7 is force-ignore-version, bit 6 is force-reset,
    /// bits 5 to 0 are reserved as zero.
    pub open spec fn spec_to_byte(self) -> u8 {
        ((if self.force_ignore_version {
            0x80int
        } else {
            0int
        }) + (if self.force_reset {
            0x40int
        } else {
            0int
        })) as u8
    }

    /// Flags of a wire byte; the reserved bits are ignored.
    pub open spec fn spec_from_byte(b: u8) -> UpdateOfferComponentInfoByte1 {
        UpdateOfferComponentInfoByte1 {
            force_ignore_version: b / 0x80 % 2 == 1,
            force_reset: b / 0x40 % 2 == 1,
        }
    }

    pub fn to_byte(self) -> (r: u8)
        ensures
            r == self.spec_to_byte(),
    {
        (if self.force_ignore_version {
            0x80u8
        } else {
            0u8
        }) + (if self.force_reset {
            0x40u8
        } else {
            0u8
        })
    }

    pub fn from_byte(b: u8) -> (r: UpdateOfferComponentInfoByte1)
        ensures
            r == UpdateOfferComponentInfoByte1::spec_from_byte(b),
    {
        UpdateOfferComponentInfoByte1 {
            force_ignore_version: b / 0x80 % 2 == 1,
            force_reset: b / 0x40 % 2 == 1,
        }
    }
}

// --- frame codecs ---

/// Wire size of the offer response, the extended command response, the
/// content response, and the two offer-information frames.
pub const SHORT_FRAME_SIZE: usize = 16;

impl FwUpdateOfferResponse {
    /// Wire bytes of an offer response: token at byte 3, reject reason at
    /// byte 8, status at byte 12, everything else reserved as zero.
    pub open spec fn spec_encode(self) -> Seq<u8> {
        seq![
            0u8,
            0u8,
            0u8,
            self.token.spec_to_byte(),
            0u8,
            0u8,
            0u8,
            0u8,
            self.rejectreasoncode.spec_to_byte(),
            0u8,
            0u8,
            0u8,
            self.status.spec_to_byte(),
            0u8,
            0u8,
            0u8,
        ]
    }

    /// Offer response of a 16-byte buffer; fails when the status or the
    /// reject reason byte lies outside its set. Reserved bytes are
    /// ignored.
    pub open spec fn spec_decode(b: Seq<u8>) -> Result<FwUpdateOfferResponse, CfuDecodeError> {
        if b.len() != SHORT_FRAME_SIZE {
            Err(CfuDecodeError::ShortBuffer)
        } else {
            match (CfuOfferStatus::spec_from_byte(b[12]), RejectReason::spec_from_byte(b[8])) {
                (Ok(status), Ok(rejectreasoncode)) => Ok(
                    FwUpdateOfferResponse {
                        status,
                        rejectreasoncode,
                        token: HostToken::spec_from_byte(b[3]),
                    },
                ),
                (Err(e), _) => Err(e),
                (_, Err(e)) => Err(e),
            }
        }
    }

    /// Serializes the response to its fixed 16-byte form.
    pub fn encode(&self) -> (r: Vec<u8>)
        ensures
            r@ == self.spec_encode(),
            r@.len() == SHORT_FRAME_SIZE,
    {
        let mut out: Vec<u8> = Vec::new();
        out.push(0);
        out.push(0);
        out.push(0);
        out.push(self.token.to_byte());
        out.push(0);
        out.push(0);
        out.push(0);
        out.push(0);
        out.push(self.rejectreasoncode.to_byte());
        out.push(0);
        out.push(0);
        out.push(0);
        out.push(self.status.to_byte());
        out.push(0);
        out.push(0);
        out.push(0);
        proof {
            assert(out@ =~= self.spec_encode());
        }
        out
    }

    /// Deserializes a 16-byte buffer as an offer response.
    pub fn decode(bytes: &[u8]) -> (r: Result<FwUpdateOfferResponse, CfuDecodeError>)
        ensures
            r == FwUpdateOfferResponse::spec_decode(bytes@),
    {
        if bytes.len() != SHORT_FRAME_SIZE {
            return Err(CfuDecodeError::ShortBuffer);
        }
        let status = match CfuOfferStatus::from_byte(bytes[12]) {
            Ok(s) => s,
            Err(e) => {
                return Err(e);
            },
        };
        let rejectreasoncode = match RejectReason::from_byte(bytes[8]) {
            Ok(c) => c,
            Err(e) => {
                return Err(e);
            },
        };
        Ok(FwUpdateOfferResponse { status, rejectreasoncode, token: HostToken::from_byte(bytes[3]) })
    }
}

/// Round trip of the offer response: every valid response decodes back
/// from its encoding.
pub proof fn lemma_offer_response_round_trip(v: FwUpdateOfferResponse)
    requires
        v.spec_valid(),
    ensures
        FwUpdateOfferResponse::spec_decode(v.spec_encode()) == Ok::<
            FwUpdateOfferResponse,
            CfuDecodeError,
        >(v),
{
}

/// Canonical form of the offer response: re-encoding a decoded buffer
/// keeps the three meaningful bytes and zeroes the reserved ones.
pub proof fn lemma_offer_response_canonical(b: Seq<u8>)
    requires
        b.len() == SHORT_FRAME_SIZE,
    ensures
        FwUpdateOfferResponse::spec_decode(b) matches Ok(v) ==> {
            &&& v.spec_encode()[3] == b[3]
            &&& v.spec_encode()[8] == b[8]
            &&& v.spec_encode()[12] == b[12]
            &&& forall|i: int|
                0 <= i < SHORT_FRAME_SIZE && i != 3 && i != 8 && i != 12 ==> v.spec_encode()[i]
                    == 0
        },
{
}

impl ExtendedCommandPacketResponse {
    /// Wire bytes of an extended command response; same layout as the
    /// offer response.
    pub open spec fn spec_encode(self) -> Seq<u8> {
        seq![
            0u8,
            0u8,
            0u8,
            self.token.spec_to_byte(),
            0u8,
            0u8,
            0u8,
            0u8,
            self.reject_reason.spec_to_byte(),
            0u8,
            0u8,
            0u8,
            self.status.spec_to_byte(),
            0u8,
            0u8,
            0u8,
        ]
    }

    /// Extended command response of a 16-byte buffer.
    pub open spec fn spec_decode(b: Seq<u8>) -> Result<
        ExtendedCommandPacketResponse,
        CfuDecodeError,
    > {
        if b.len() != SHORT_FRAME_SIZE {
            Err(CfuDecodeError::ShortBuffer)
        } else {
            match (CfuOfferStatus::spec_from_byte(b[12]), RejectReason::spec_from_byte(b[8])) {
                (Ok(status), Ok(reject_reason)) => Ok(
                    ExtendedCommandPacketResponse {
                        status,
                        reject_reason,
                        token: HostToken::spec_from_byte(b[3]),
                    },
                ),
                (Err(e), _) => Err(e),
                (_, Err(e)) => Err(e),
            }
        }
    }

    /// Serializes the response to its fixed 16-byte form.
    pub fn encode(&self) -> (r: Vec<u8>)
        ensures
            r@ == self.spec_encode(),
            r@.len() == SHORT_FRAME_SIZE,
    {
        let mut out: Vec<u8> = Vec::new();
        out.push(0);
        out.push(0);
        out.push(0);
        out.push(self.token.to_byte());
        out.push(0);
        out.push(0);
        out.push(0);
        out.push(0);
        out.push(self.reject_reason.to_byte());
        out.push(0);
        out.push(0);
        out.push(0);
        out.push(self.status.to_byte());
        out.push(0);
        out.push(0);
        out.push(0);
        proof {
            assert(out@ =~= self.spec_encode());
        }
        out
    }

    /// Deserializes a 16-byte buffer as an extended command response.
    pub fn decode(bytes: &[u8]) -> (r: Result<ExtendedCommandPacketResponse, CfuDecodeError>)
        ensures
            r == ExtendedCommandPacketResponse::spec_decode(bytes@),
    {
        if bytes.len() != SHORT_FRAME_SIZE {
            return Err(CfuDecodeError::ShortBuffer);
        }
        let status = match CfuOfferStatus::from_byte(bytes[12]) {
            Ok(s) => s,
            Err(e) => {
                return Err(e);
            },
        };
        let reject_reason = match RejectReason::from_byte(bytes[8]) {
            Ok(c) => c,
            Err(e) => {
                return Err(e);
            },
        };
        Ok(
            ExtendedCommandPacketResponse {
                status,
                reject_reason,
                token: HostToken::from_byte(bytes[3]),
            },
        )
    }
}

/// Round trip of the extended command response.
pub proof fn lemma_extended_response_round_trip(v: ExtendedCommandPacketResponse)
    requires
        v.spec_valid(),
    ensures
        ExtendedCommandPacketResponse::spec_decode(v.spec_encode()) == Ok::<
            ExtendedCommandPacketResponse,
            CfuDecodeError,
        >(v),
{
}

/// Canonical form of the extended command response.
pub proof fn lemma_extended_response_canonical(b: Seq<u8>)
    requires
        b.len() == SHORT_FRAME_SIZE,
    ensures
        ExtendedCommandPacketResponse::spec_decode(b) matches Ok(v) ==> {
            &&& v.spec_encode()[3] == b[3]
            &&& v.spec_encode()[8] == b[8]
            &&& v.spec_encode()[12] == b[12]
            &&& forall|i: int|
                0 <= i < SHORT_FRAME_SIZE && i != 3 && i != 8 && i != 12 ==> v.spec_encode()[i]
                    == 0
        },
{
}

impl FwUpdateContentResponse {
    /// Wire bytes of a content response: the sequence number
    /// little-endian at bytes 0 and 1, the status at byte 4, everything
    /// else reserved as zero.
    pub open spec fn spec_encode(self) -> Seq<u8> {
        seq![
            spec_lo16(self.sequence),
            spec_hi16(self.sequence),
            0u8,
            0u8,
            self.status.spec_to_byte(),
            0u8,
            0u8,
            0u8,
            0u8,
            0u8,
            0u8,
            0u8,
            0u8,
            0u8,
            0u8,
            0u8,
        ]
    }

    /// Content response of a 16-byte buffer; fails when the status byte
    /// lies outside its set.
    pub open spec fn spec_decode(b: Seq<u8>) -> Result<FwUpdateContentResponse, CfuDecodeError> {
        if b.len() != SHORT_FRAME_SIZE {
            Err(CfuDecodeError::ShortBuffer)
        } else {
            match CfuOfferResponseStatus::spec_from_byte(b[4]) {
                Ok(status) => Ok(
                    FwUpdateContentResponse { sequence: spec_u16_of(b[0], b[1]), status },
                ),
                Err(e) => Err(e),
            }
        }
    }

    /// Serializes the response to its fixed 16-byte form.
    pub fn encode(&self) -> (r: Vec<u8>)
        ensures
            r@ == self.spec_encode(),
            r@.len() == SHORT_FRAME_SIZE,
    {
        let (lo, hi) = u16_to_le(self.sequence);
        let mut out: Vec<u8> = Vec::new();
        out.push(lo);
        out.push(hi);
        out.push(0);
        out.push(0);
        out.push(self.status.to_byte());
        out.push(0);
        out.push(0);
        out.push(0);
        out.push(0);
        out.push(0);
        out.push(0);
        out.push(0);
        out.push(0);
        out.push(0);
        out.push(0);
        out.push(0);
        proof {
            assert(out@ =~= self.spec_encode());
        }
        out
    }

    /// Deserializes a 16-byte buffer as a content response.
    pub fn decode(bytes: &[u8]) -> (r: Result<FwUpdateContentResponse, CfuDecodeError>)
        ensures
            r == FwUpdateContentResponse::spec_decode(bytes@),
    {
        if bytes.len() != SHORT_FRAME_SIZE {
            return Err(CfuDecodeError::ShortBuffer);
        }
        let status = match CfuOfferResponseStatus::from_byte(bytes[4]) {
            Ok(s) => s,
            Err(e) => {
                return Err(e);
            },
        };
        Ok(FwUpdateContentResponse { sequence: u16_from_le(bytes[0], bytes[1]), status })
    }
}

/// Round trip of the content response: every response decodes back from
/// its encoding.
pub proof fn lemma_content_response_round_trip(v: FwUpdateContentResponse)
    ensures
        FwUpdateContentResponse::spec_decode(v.spec_encode()) == Ok::<
            FwUpdateContentResponse,
            CfuDecodeError,
        >(v),
{
    lemma_u16_round_trip(v.sequence);
}

/// Canonical form of the content response: re-encoding keeps the sequence
/// and status bytes and zeroes the reserved ones.
pub proof fn lemma_content_response_canonical(b: Seq<u8>)
    requires
        b.len() == SHORT_FRAME_SIZE,
    ensures
        FwUpdateContentResponse::spec_decode(b) matches Ok(v) ==> {
            &&& v.spec_encode()[0] == b[0]
            &&& v.spec_encode()[1] == b[1]
            &&& v.spec_encode()[4] == b[4]
            &&& forall|i: int|
                0 <= i < SHORT_FRAME_SIZE && i != 0 && i != 1 && i != 4 ==> v.spec_encode()[i]
                    == 0
        },
{
    if FwUpdateContentResponse::spec_decode(b) is Ok {
        lemma_u16_bytes(b[0], b[1]);
    }
}

impl FwUpdateOfferInformation {
    /// Wire bytes of an offer-information frame: the code at byte 0, the
    /// reserved `Info` component id at byte 2, the token at byte 3,
    /// everything else reserved as zero.
    pub open spec fn spec_encode(self) -> Seq<u8> {
        seq![
            self.code,
            0u8,
            SpecialComponentIds::Info.spec_to_byte(),
            self.token.spec_to_byte(),
            0u8,
            0u8,
            0u8,
            0u8,
            0u8,
            0u8,
            0u8,
            0u8,
            0u8,
            0u8,
            0u8,
            0u8,
        ]
    }

    /// Offer-information frame of a 16-byte buffer; fails unless byte 2
    /// is the reserved `Info` component id. Every code byte decodes:
    /// codes beyond the three named ones are vendor-specific.
    pub open spec fn spec_decode(b: Seq<u8>) -> Result<FwUpdateOfferInformation, CfuDecodeError> {
        if b.len() != SHORT_FRAME_SIZE {
            Err(CfuDecodeError::ShortBuffer)
        } else if b[2] != SpecialComponentIds::Info.spec_to_byte() {
            Err(CfuDecodeError::InvalidEnumValue)
        } else {
            Ok(FwUpdateOfferInformation { code: b[0], token: HostToken::spec_from_byte(b[3]) })
        }
    }

    /// Serializes the frame to its fixed 16-byte form.
    pub fn encode(&self) -> (r: Vec<u8>)
        ensures
            r@ == self.spec_encode(),
            r@.len() == SHORT_FRAME_SIZE,
    {
        let mut out: Vec<u8> = Vec::new();
        out.push(self.code);
        out.push(0);
        out.push(SpecialComponentIds::Info.to_byte());
        out.push(self.token.to_byte());
        out.push(0);
        out.push(0);
        out.push(0);
        out.push(0);
        out.push(0);
        out.push(0);
        out.push(0);
        out.push(0);
        out.push(0);
        out.push(0);
        out.push(0);
        out.push(0);
        proof {
            assert(out@ =~= self.spec_encode());
        }
        out
    }

    /// Deserializes a 16-byte buffer as an offer-information frame.
    pub fn decode(bytes: &[u8]) -> (r: Result<FwUpdateOfferInformation, CfuDecodeError>)
        ensures
            r == FwUpdateOfferInformation::spec_decode(bytes@),
    {
        if bytes.len() != SHORT_FRAME_SIZE {
            return Err(CfuDecodeError::ShortBuffer);
        }
        if bytes[2] != 0xFF {
            return Err(CfuDecodeError::InvalidEnumValue);
        }
        Ok(FwUpdateOfferInformation { code: bytes[0], token: HostToken::from_byte(bytes[3]) })
    }
}

/// Round trip of the offer-information frame.
pub proof fn lemma_offer_information_round_trip(v: FwUpdateOfferInformation)
    requires
        v.spec_valid(),
    ensures
        FwUpdateOfferInformation::spec_decode(v.spec_encode()) == Ok::<
            FwUpdateOfferInformation,
            CfuDecodeError,
        >(v),
{
}

/// Canonical form of the offer-information frame: re-encoding keeps the
/// code, the component id and the token and zeroes the reserved bytes.
pub proof fn lemma_offer_information_canonical(b: Seq<u8>)
    requires
        b.len() == SHORT_FRAME_SIZE,
    ensures
        FwUpdateOfferInformation::spec_decode(b) matches Ok(v) ==> {
            &&& v.spec_encode()[0] == b[0]
            &&& v.spec_encode()[2] == b[2]
            &&& v.spec_encode()[3] == b[3]
            &&& forall|i: int|
                0 <= i < SHORT_FRAME_SIZE && i != 0 && i != 2 && i != 3 ==> v.spec_encode()[i]
                    == 0
        },
{
}

impl FwUpdateOfferExtended {
    /// Wire bytes of an offer-command-extended frame: the code at byte 0,
    /// the reserved `Command` component id at byte 2, the token at byte
    /// 3, everything else reserved as zero.
    pub open spec fn spec_encode(self) -> Seq<u8> {
        seq![
            self.code,
            0u8,
            SpecialComponentIds::Command.spec_to_byte(),
            self.token.spec_to_byte(),
            0u8,
            0u8,
            0u8,
            0u8,
            0u8,
            0u8,
            0u8,
            0u8,
            0u8,
            0u8,
            0u8,
            0u8,
        ]
    }

    /// Offer-command-extended frame of a 16-byte buffer; fails unless
    /// byte 2 is the reserved `Command` component id. Every code byte
    /// decodes: codes beyond the named one are vendor-specific.
    pub open spec fn spec_decode(b: Seq<u8>) -> Result<FwUpdateOfferExtended, CfuDecodeError> {
        if b.len() != SHORT_FRAME_SIZE {
            Err(CfuDecodeError::ShortBuffer)
        } else if b[2] != SpecialComponentIds::Command.spec_to_byte() {
            Err(CfuDecodeError::InvalidEnumValue)
        } else {
            Ok(FwUpdateOfferExtended { code: b[0], token: HostToken::spec_from_byte(b[3]) })
        }
    }

    /// Serializes the frame to its fixed 16-byte form.
    pub fn encode(&self) -> (r: Vec<u8>)
        ensures
            r@ == self.spec_encode(),
            r@.len() == SHORT_FRAME_SIZE,
    {
        let mut out: Vec<u8> = Vec::new();
        out.push(self.code);
        out.push(0);
        out.push(SpecialComponentIds::Command.to_byte());
        out.push(self.token.to_byte());
        out.push(0);
        out.push(0);
        out.push(0);
        out.push(0);
        out.push(0);
        out.push(0);
        out.push(0);
        out.push(0);
        out.push(0);
        out.push(0);
        out.push(0);
        out.push(0);
        proof {
            assert(out@ =~= self.spec_encode());
        }
        out
    }

    /// Deserializes a 16-byte buffer as an offer-command-extended frame.
    pub fn decode(bytes: &[u8]) -> (r: Result<FwUpdateOfferExtended, CfuDecodeError>)
        ensures
            r == FwUpdateOfferExtended::spec_decode(bytes@),
    {
        if bytes.len() != SHORT_FRAME_SIZE {
            return Err(CfuDecodeError::ShortBuffer);
        }
        if bytes[2] != 0xFE {
            return Err(CfuDecodeError::InvalidEnumValue);
        }
        Ok(FwUpdateOfferExtended { code: bytes[0], token: HostToken::from_byte(bytes[3]) })
    }
}

/// Round trip of the offer-command-extended frame.
pub proof fn lemma_offer_extended_round_trip(v: FwUpdateOfferExtended)
    requires
        v.spec_valid(),
    ensures
        FwUpdateOfferExtended::spec_decode(v.spec_encode()) == Ok::<
            FwUpdateOfferExtended,
            CfuDecodeError,
        >(v),
{
}

/// Canonical form of the offer-command-extended frame.
pub proof fn lemma_offer_extended_canonical(b: Seq<u8>)
    requires
        b.len() == SHORT_FRAME_SIZE,
    ensures
        FwUpdateOfferExtended::spec_decode(b) matches Ok(v) ==> {
            &&& v.spec_encode()[0] == b[0]
            &&& v.spec_encode()[2] == b[2]
            &&& v.spec_encode()[3] == b[3]
            &&& forall|i: int|
                0 <= i < SHORT_FRAME_SIZE && i != 0 && i != 2 && i != 3 ==> v.spec_encode()[i]
                    == 0
        },
{
}

/// Wire size of the firmware update offer.
pub const OFFER_FRAME_SIZE: usize = 32;

impl FwUpdateOfferCommand {
    /// Wire bytes of an offer: segment or code byte, flags byte,
    /// component id and token in the first four bytes, then the packed
    /// firmware version, the vendor dword and the misc dword, followed by
    /// sixteen reserved zero bytes.
    pub open spec fn spec_encode(self) -> Seq<u8> {
        seq![
            self.component_info.byte0,
            self.component_info.byte1.spec_to_byte(),
            self.component_info.component_id,
            self.component_info.token.spec_to_byte(),
            self.firmware_version.variant,
            spec_lo16(self.firmware_version.minor),
            spec_hi16(self.firmware_version.minor),
            self.firmware_version.major,
            spec_byte32(self.vendor_specific, 0),
            spec_byte32(self.vendor_specific, 1),
            spec_byte32(self.vendor_specific, 2),
            spec_byte32(self.vendor_specific, 3),
            spec_byte32(self.misc_and_protocol_version, 0),
            spec_byte32(self.misc_and_protocol_version, 1),
            spec_byte32(self.misc_and_protocol_version, 2),
            spec_byte32(self.misc_and_protocol_version, 3),
            0u8,
            0u8,
            0u8,
            0u8,
            0u8,
            0u8,
            0u8,
            0u8,
            0u8,
            0u8,
            0u8,
            0u8,
            0u8,
            0u8,
            0u8,
            0u8,
        ]
    }

    /// Offer of a 32-byte buffer. Every byte pattern of the right length
    /// decodes: all integer fields are free, the token admits every byte,
    /// and the reserved bits of the flags byte are ignored.
    pub open spec fn spec_decode(b: Seq<u8>) -> Result<FwUpdateOfferCommand, CfuDecodeError> {
        if b.len() != OFFER_FRAME_SIZE {
            Err(CfuDecodeError::ShortBuffer)
        } else {
            Ok(
                FwUpdateOfferCommand {
                    component_info: UpdateOfferComponentInfo {
                        token: HostToken::spec_from_byte(b[3]),
                        component_id: b[2],
                        byte1: UpdateOfferComponentInfoByte1::spec_from_byte(b[1]),
                        byte0: b[0],
                    },
                    firmware_version: FwVersion {
                        major: b[7],
                        minor: spec_u16_of(b[5], b[6]),
                        variant: b[4],
                    },
                    vendor_specific: spec_u32_of(b[8], b[9], b[10], b[11]),
                    misc_and_protocol_version: spec_u32_of(b[12], b[13], b[14], b[15]),
                },
            )
        }
    }

    /// Serializes the offer to its fixed 32-byte form.
    pub fn encode(&self) -> (r: Vec<u8>)
        ensures
            r@ == self.spec_encode(),
            r@.len() == OFFER_FRAME_SIZE,
    {
        let (mlo, mhi) = u16_to_le(self.firmware_version.minor);
        let (v0, v1, v2, v3) = u32_to_le(self.vendor_specific);
        let (m0, m1, m2, m3) = u32_to_le(self.misc_and_protocol_version);
        let mut out: Vec<u8> = Vec::new();
        out.push(self.component_info.byte0);
        out.push(self.component_info.byte1.to_byte());
        out.push(self.component_info.component_id);
        out.push(self.component_info.token.to_byte());
        out.push(self.firmware_version.variant);
        out.push(mlo);
        out.push(mhi);
        out.push(self.firmware_version.major);
        out.push(v0);
        out.push(v1);
        out.push(v2);
        out.push(v3);
        out.push(m0);
        out.push(m1);
        out.push(m2);
        out.push(m3);
        let mut i: usize = 0;
        while i < 16
            invariant
                i <= 16,
                out@.len() == 16 + i,
                out@.subrange(0, 16) == self.spec_encode().subrange(0, 16),
                forall|j: int| 16 <= j < out@.len() ==> out@[j] == 0u8,
            decreases 16 - i,
        {
            out.push(0);
            i += 1;
        }
        proof {
            assert forall|j: int| 0 <= j < OFFER_FRAME_SIZE implies out@[j]
                == self.spec_encode()[j] by {
                if j < 16 {
                    assert(out@[j] == out@.subrange(0, 16)[j]);
                    assert(self.spec_encode()[j] == self.spec_encode().subrange(0, 16)[j]);
                }
            }
            assert(out@ =~= self.spec_encode());
        }
        out
    }

    /// Deserializes a 32-byte buffer as an offer.
    pub fn decode(bytes: &[u8]) -> (r: Result<FwUpdateOfferCommand, CfuDecodeError>)
        ensures
            r == FwUpdateOfferCommand::spec_decode(bytes@),
    {
        if bytes.len() != OFFER_FRAME_SIZE {
            return Err(CfuDecodeError::ShortBuffer);
        }
        Ok(
            FwUpdateOfferCommand {
                component_info: UpdateOfferComponentInfo {
                    token: HostToken::from_byte(bytes[3]),
                    component_id: bytes[2],
                    byte1: UpdateOfferComponentInfoByte1::from_byte(bytes[1]),
                    byte0: bytes[0],
                },
                firmware_version: FwVersion {
                    major: bytes[7],
                    minor: u16_from_le(bytes[5], bytes[6]),
                    variant: bytes[4],
                },
                vendor_specific: u32_from_le(bytes[8], bytes[9], bytes[10], bytes[11]),
                misc_and_protocol_version: u32_from_le(bytes[12], bytes[13], bytes[14], bytes[15]),
            },
        )
    }
}

/// Round trip of the offer: every valid offer decodes back from its
/// encoding.
pub proof fn lemma_offer_command_round_trip(v: FwUpdateOfferCommand)
    requires
        v.spec_valid(),
    ensures
        FwUpdateOfferCommand::spec_decode(v.spec_encode()) == Ok::<
            FwUpdateOfferCommand,
            CfuDecodeError,
        >(v),
{
    lemma_host_token_round_trip(v.component_info.token, 0);
    lemma_offer_flags_round_trip(v.component_info.byte1, 0);
    lemma_u16_round_trip(v.firmware_version.minor);
    lemma_u32_round_trip(v.vendor_specific);
    lemma_u32_round_trip(v.misc_and_protocol_version);
}

/// Canonical form of the offer: re-encoding a decoded buffer keeps bytes
/// 0 and 2 to 15, zeroes the six reserved bits of the flags byte, and
/// zeroes the sixteen reserved tail bytes.
pub proof fn lemma_offer_command_canonical(b: Seq<u8>)
    requires
        b.len() == OFFER_FRAME_SIZE,
    ensures
        FwUpdateOfferCommand::spec_decode(b) matches Ok(v) ==> {
            &&& v.spec_encode()[0] == b[0]
            &&& v.spec_encode()[1] == (b[1] / 0x40) * 0x40
            &&& forall|i: int| 2 <= i < 16 ==> v.spec_encode()[i] == b[i]
            &&& forall|i: int| 16 <= i < OFFER_FRAME_SIZE ==> v.spec_encode()[i] == 0
        },
{
    let v = FwUpdateOfferCommand::spec_decode(b)->Ok_0;
    lemma_host_token_round_trip(HostToken::spec_from_byte(b[3]), b[3]);
    lemma_offer_flags_round_trip(UpdateOfferComponentInfoByte1::spec_from_byte(b[1]), b[1]);
    lemma_u16_bytes(b[5], b[6]);
    lemma_u32_bytes(b[8], b[9], b[10], b[11]);
    lemma_u32_bytes(b[12], b[13], b[14], b[15]);
    assert forall|i: int| 2 <= i < 16 implies v.spec_encode()[i] == b[i] by {}
}

/// Wire size of the content command and of the get-firmware-version
/// response.
pub const LONG_FRAME_SIZE: usize = 60;

/// Ghost view of a content command: the header fields and the payload as
/// a sequence of bytes.
#[verifier::ext_equal]
pub struct ContentCommandModel {
    pub flags: FwUpdateFlags,
    pub data_length: u8,
    pub sequence_num: u16,
    pub firmware_address: u32,
    pub data: Seq<u8>,
}

impl ContentCommandModel {
    /// The payload always spans the fixed 52 bytes of the frame.
    pub open spec fn wf(self) -> bool {
        self.data.len() == DEFAULT_DATA_LENGTH
    }

    /// Wire bytes of a content command: flags, payload length, sequence
    /// number and firmware address in the first eight bytes, then the 52
    /// payload bytes.
    pub open spec fn spec_encode(self) -> Seq<u8> {
        seq![
            self.flags.spec_to_byte(),
            self.data_length,
            spec_lo16(self.sequence_num),
            spec_hi16(self.sequence_num),
            spec_byte32(self.firmware_address, 0),
            spec_byte32(self.firmware_address, 1),
            spec_byte32(self.firmware_address, 2),
            spec_byte32(self.firmware_address, 3),
        ] + self.data
    }

    /// Content command of a 60-byte buffer; fails when the flags byte is
    /// not one of the four masks. No byte is reserved.
    pub open spec fn spec_decode(b: Seq<u8>) -> Result<ContentCommandModel, CfuDecodeError> {
        if b.len() != LONG_FRAME_SIZE {
            Err(CfuDecodeError::ShortBuffer)
        } else {
            match FwUpdateFlags::spec_from_byte(b[0]) {
                Ok(flags) => Ok(
                    ContentCommandModel {
                        flags,
                        data_length: b[1],
                        sequence_num: spec_u16_of(b[2], b[3]),
                        firmware_address: spec_u32_of(b[4], b[5], b[6], b[7]),
                        data: b.subrange(8, LONG_FRAME_SIZE as int),
                    },
                ),
                Err(e) => Err(e),
            }
        }
    }
}

impl View for FwUpdateContentCommand {
    type V = ContentCommandModel;

    open spec fn view(&self) -> ContentCommandModel {
        ContentCommandModel {
            flags: self.header.flags,
            data_length: self.header.data_length,
            sequence_num: self.header.sequence_num,
            firmware_address: self.header.firmware_address,
            data: self.data@,
        }
    }
}

impl FwUpdateContentCommand {
    /// Serializes the command to its fixed 60-byte form.
    pub fn encode(&self) -> (r: Vec<u8>)
        ensures
            r@ == self@.spec_encode(),
            r@.len() == LONG_FRAME_SIZE,
    {
        let (slo, shi) = u16_to_le(self.header.sequence_num);
        let (a0, a1, a2, a3) = u32_to_le(self.header.firmware_address);
        let mut out: Vec<u8> = Vec::new();
        out.push(self.header.flags.to_byte());
        out.push(self.header.data_length);
        out.push(slo);
        out.push(shi);
        out.push(a0);
        out.push(a1);
        out.push(a2);
        out.push(a3);
        let mut i: usize = 0;
        while i < DEFAULT_DATA_LENGTH
            invariant
                i <= DEFAULT_DATA_LENGTH,
                out@.len() == 8 + i,
                out@.subrange(0, 8) == self@.spec_encode().subrange(0, 8),
                forall|j: int| 0 <= j < i ==> out@[8 + j] == self.data@[j],
            decreases DEFAULT_DATA_LENGTH - i,
    {
            out.push(self.data[i]);
            i += 1;
        }
        proof {
            assert forall|j: int| 0 <= j < LONG_FRAME_SIZE implies out@[j]
                == self@.spec_encode()[j] by {
                if j < 8 {
                    assert(out@[j] == out@.subrange(0, 8)[j]);
                    assert(self@.spec_encode()[j] == self@.spec_encode().subrange(0, 8)[j]);
                } else {
                    assert(out@[j] == self.data@[j - 8]);
                }
            }
            assert(out@ =~= self@.spec_encode());
        }
        out
    }

    /// Deserializes a 60-byte buffer as a content command.
    pub fn decode(bytes: &[u8]) -> (r: Result<FwUpdateContentCommand, CfuDecodeError>)
        ensures
            ContentCommandModel::spec_decode(bytes@) matches Ok(m) ==> r matches Ok(c) && c@ == m,
            ContentCommandModel::spec_decode(bytes@) matches Err(e) ==> r matches Err(e2) && e2
                == e,
    {
        if bytes.len() != LONG_FRAME_SIZE {
            return Err(CfuDecodeError::ShortBuffer);
        }
        let flags = match FwUpdateFlags::from_byte(bytes[0]) {
            Ok(f) => f,
            Err(e) => {
                return Err(e);
            },
        };
        let mut data: [u8; DEFAULT_DATA_LENGTH] = [0u8; DEFAULT_DATA_LENGTH];
        let mut i: usize = 0;
        while i < DEFAULT_DATA_LENGTH
            invariant
                i <= DEFAULT_DATA_LENGTH,
                bytes@.len() == LONG_FRAME_SIZE,
                forall|j: int| 0 <= j < i ==> data@[j] == bytes@[8 + j],
            decreases DEFAULT_DATA_LENGTH - i,
        {
            data[i] = bytes[8 + i];
            i += 1;
        }
        let c = FwUpdateContentCommand {
            header: FwUpdateContentHeader {
                flags,
                data_length: bytes[1],
                sequence_num: u16_from_le(bytes[2], bytes[3]),
                firmware_address: u32_from_le(bytes[4], bytes[5], bytes[6], bytes[7]),
            },
            data,
        };
        proof {
            assert(c@.data =~= ContentCommandModel::spec_decode(bytes@)->Ok_0.data);
            assert(c@ =~= ContentCommandModel::spec_decode(bytes@)->Ok_0);
        }
        Ok(c)
    }
}

/// Round trip of the content command: every well-formed command decodes
/// back from its encoding.
pub proof fn lemma_content_command_round_trip(m: ContentCommandModel)
    requires
        m.wf(),
    ensures
        ContentCommandModel::spec_decode(m.spec_encode()) == Ok::<
            ContentCommandModel,
            CfuDecodeError,
        >(m),
{
    lemma_u16_round_trip(m.sequence_num);
    lemma_u32_round_trip(m.firmware_address);
    let b = m.spec_encode();
    let m2 = ContentCommandModel::spec_decode(b)->Ok_0;
    assert(m2.data =~= m.data);
    assert(m2 =~= m);
}

/// Canonical form of the content command: a decoded buffer re-encodes to
/// itself exactly; the frame has no reserved bytes.
pub proof fn lemma_content_command_canonical(b: Seq<u8>)
    requires
        b.len() == LONG_FRAME_SIZE,
    ensures
        ContentCommandModel::spec_decode(b) matches Ok(m) ==> m.spec_encode() == b,
{
    if ContentCommandModel::spec_decode(b) is Ok {
        let m = ContentCommandModel::spec_decode(b)->Ok_0;
        lemma_u16_bytes(b[2], b[3]);
        lemma_u32_bytes(b[4], b[5], b[6], b[7]);
        assert(m.spec_encode() =~= b);
    }
}

impl FwVerComponentInfo {
    /// The component record whose eight wire bytes are all zero: the
    /// record that fills the unused slots of a version response.
    pub open spec fn spec_zeroed() -> FwVerComponentInfo {
        FwVerComponentInfo {
            fw_version: FwVersion { major: 0, minor: 0, variant: 0 },
            vendor_specific: 0,
            component_id: 0,
            vendor_specific2: 0,
            bank: BankType::QuadBank,
        }
    }

    /// The all-zero component record.
    pub fn zeroed() -> (r: FwVerComponentInfo)
        ensures
            r == FwVerComponentInfo::spec_zeroed(),
    {
        FwVerComponentInfo {
            fw_version: FwVersion { major: 0, minor: 0, variant: 0 },
            vendor_specific: 0,
            component_id: 0,
            vendor_specific2: 0,
            bank: BankType::QuadBank,
        }
    }

    /// Eight wire bytes of one component record: the packed byte (vendor
    /// nibble high, bank field low, two reserved bits between), the
    /// component id, the vendor word, then major, minor and variant of
    /// the version.
    pub open spec fn spec_encode_entry(self) -> Seq<u8> {
        seq![
            ((self.vendor_specific2 % 0x10) * 0x10 + self.bank.spec_to_byte()) as u8,
            self.component_id,
            spec_lo16(self.vendor_specific),
            spec_hi16(self.vendor_specific),
            self.fw_version.major,
            spec_lo16(self.fw_version.minor),
            spec_hi16(self.fw_version.minor),
            self.fw_version.variant,
        ]
    }

    /// Component record of eight wire bytes; every byte pattern decodes,
    /// with the two reserved bits of the packed byte ignored.
    pub open spec fn spec_decode_entry(b: Seq<u8>) -> FwVerComponentInfo
        recommends
            b.len() == 8,
    {
        FwVerComponentInfo {
            fw_version: FwVersion {
                major: b[4],
                minor: spec_u16_of(b[5], b[6]),
                variant: b[7],
            },
            vendor_specific: spec_u16_of(b[2], b[3]),
            component_id: b[1],
            vendor_specific2: (b[0] / 0x10) as u8,
            bank: BankType::spec_from_byte((b[0] % 4) as u8),
        }
    }
}

/// Round trip of one component record: every valid record decodes back
/// from its eight bytes, and re-encoding eight decoded bytes keeps them
/// all but the two reserved bits of the packed byte.
pub proof fn lemma_component_info_entry_round_trip(e: FwVerComponentInfo, b: Seq<u8>)
    requires
        b.len() == 8,
    ensures
        e.spec_valid() ==> FwVerComponentInfo::spec_decode_entry(e.spec_encode_entry()) == e,
        FwVerComponentInfo::spec_decode_entry(b).spec_encode_entry()[0] == (b[0] / 0x10) * 0x10 + b[0]
            % 4,
        forall|k: int| 1 <= k < 8 ==> FwVerComponentInfo::spec_decode_entry(b).spec_encode_entry()[k]
            == b[k],
{
    lemma_u16_bytes(b[2], b[3]);
    lemma_u16_bytes(b[5], b[6]);
    lemma_u16_round_trip(e.vendor_specific);
    lemma_u16_round_trip(e.fw_version.minor);
    lemma_bank_type_round_trip(e.bank, (b[0] % 4) as u8);
    if e.spec_valid() {
        let p = ((e.vendor_specific2 % 0x10) * 0x10 + e.bank.spec_to_byte()) as u8;
        let v2 = e.vendor_specific2;
        let bk = e.bank.spec_to_byte();
        assert(p / 0x10 == v2 && p % 4 == bk) by (bit_vector)
            requires
                p == (v2 % 0x10) * 0x10 + bk,
                v2 < 0x10,
                bk < 4,
        ;
    }
    let b0 = b[0];
    let q = FwVerComponentInfo::spec_decode_entry(b);
    assert(((b0 / 0x10) % 0x10) * 0x10 + (b0 % 4) == (b0 / 0x10) * 0x10 + b0 % 4) by (bit_vector);
    assert(q.spec_encode_entry()[0] == (b0 / 0x10) * 0x10 + b0 % 4);
}

/// Ghost view of a get-firmware-version response: the header fields and
/// the seven component records as a sequence.
#[verifier::ext_equal]
pub struct GetFwVersionResponseModel {
    pub component_count: u8,
    pub byte3: GetFwVerRespHeaderByte3,
    pub component_info: Seq<FwVerComponentInfo>,
}

impl GetFwVersionResponseModel {
    /// A well-formed response advertises at most seven components, keeps
    /// all seven record slots, holds valid records, and zeroes the slots
    /// beyond the advertised count.
    pub open spec fn wf(self) -> bool {
        &&& self.component_count <= MAX_CMPT_COUNT
        &&& self.component_info.len() == MAX_CMPT_COUNT
        &&& forall|i: int| 0 <= i < MAX_CMPT_COUNT ==> self.component_info[i].spec_valid()
        &&& forall|i: int|
            self.component_count <= i < MAX_CMPT_COUNT ==> self.component_info[i]
                == FwVerComponentInfo::spec_zeroed()
    }

    /// Wire bytes of the response: the component count, two reserved
    /// bytes, the protocol byte, then the seven component records.
    pub open spec fn spec_encode(self) -> Seq<u8>
        recommends
            self.component_info.len() == MAX_CMPT_COUNT,
    {
        seq![self.component_count, 0u8, 0u8, self.byte3.spec_to_byte()]
            + self.component_info[0].spec_encode_entry() + self.component_info[1].spec_encode_entry()
            + self.component_info[2].spec_encode_entry() + self.component_info[3].spec_encode_entry()
            + self.component_info[4].spec_encode_entry() + self.component_info[5].spec_encode_entry()
            + self.component_info[6].spec_encode_entry()
    }

    /// Response of a 60-byte buffer: fails when the advertised count
    /// exceeds seven or the protocol byte is unknown; reads one record
    /// per advertised component and zeroes the unused slots.
    pub open spec fn spec_decode(b: Seq<u8>) -> Result<GetFwVersionResponseModel, CfuDecodeError> {
        if b.len() != LONG_FRAME_SIZE {
            Err(CfuDecodeError::ShortBuffer)
        } else if b[0] > MAX_CMPT_COUNT {
            Err(CfuDecodeError::ValueOutOfRange)
        } else {
            match GetFwVerRespHeaderByte3::spec_from_byte(b[3]) {
                Ok(byte3) => Ok(
                    GetFwVersionResponseModel {
                        component_count: b[0],
                        byte3,
                        component_info: Seq::new(
                            MAX_CMPT_COUNT as nat,
                            |i: int|
                                if i < b[0] {
                                    FwVerComponentInfo::spec_decode_entry(
                                        b.subrange(4 + 8 * i, 12 + 8 * i),
                                    )
                                } else {
                                    FwVerComponentInfo::spec_zeroed()
                                },
                        ),
                    },
                ),
                Err(e) => Err(e),
            }
        }
    }
}

impl View for GetFwVersionResponse {
    type V = GetFwVersionResponseModel;

    open spec fn view(&self) -> GetFwVersionResponseModel {
        GetFwVersionResponseModel {
            component_count: self.header.component_count,
            byte3: self.header.byte3,
            component_info: self.component_info@,
        }
    }
}

/// The eight bytes of record `i` inside an encoded response stand at
/// offsets `4 + 8 i` through `11 + 8 i`.
pub proof fn lemma_encode_entry_slice(m: GetFwVersionResponseModel, i: int)
    requires
        m.component_info.len() == MAX_CMPT_COUNT,
        0 <= i < MAX_CMPT_COUNT,
    ensures
        m.spec_encode().subrange(4 + 8 * i, 12 + 8 * i) == m.component_info[i].spec_encode_entry(),
{
    let b = m.spec_encode();
    if i == 0 {
        assert(b.subrange(4, 12) =~= m.component_info[0].spec_encode_entry());
    } else if i == 1 {
        assert(b.subrange(12, 20) =~= m.component_info[1].spec_encode_entry());
    } else if i == 2 {
        assert(b.subrange(20, 28) =~= m.component_info[2].spec_encode_entry());
    } else if i == 3 {
        assert(b.subrange(28, 36) =~= m.component_info[3].spec_encode_entry());
    } else if i == 4 {
        assert(b.subrange(36, 44) =~= m.component_info[4].spec_encode_entry());
    } else if i == 5 {
        assert(b.subrange(44, 52) =~= m.component_info[5].spec_encode_entry());
    } else {
        assert(b.subrange(52, 60) =~= m.component_info[6].spec_encode_entry());
    }
}

/// Appends the eight wire bytes of one component record.
fn push_component_info(out: &mut Vec<u8>, e: &FwVerComponentInfo)
    ensures
        final(out)@ == old(out)@ + e.spec_encode_entry(),
{
    let (vlo, vhi) = u16_to_le(e.vendor_specific);
    let (mlo, mhi) = u16_to_le(e.fw_version.minor);
    out.push((e.vendor_specific2 % 0x10) * 0x10 + e.bank.to_byte());
    out.push(e.component_id);
    out.push(vlo);
    out.push(vhi);
    out.push(e.fw_version.major);
    out.push(mlo);
    out.push(mhi);
    out.push(e.fw_version.variant);
    proof {
        assert(out@ =~= old(out)@ + e.spec_encode_entry());
    }
}

impl GetFwVersionResponse {
    /// Serializes the response to its fixed 60-byte form.
    pub fn encode(&self) -> (r: Vec<u8>)
        ensures
            r@ == self@.spec_encode(),
            r@.len() == LONG_FRAME_SIZE,
    {
        let mut out: Vec<u8> = Vec::new();
        out.push(self.header.component_count);
        out.push(0);
        out.push(0);
        out.push(self.header.byte3.to_byte());
        push_component_info(&mut out, &self.component_info[0]);
        push_component_info(&mut out, &self.component_info[1]);
        push_component_info(&mut out, &self.component_info[2]);
        push_component_info(&mut out, &self.component_info[3]);
        push_component_info(&mut out, &self.component_info[4]);
        push_component_info(&mut out, &self.component_info[5]);
        push_component_info(&mut out, &self.component_info[6]);
        proof {
            assert(out@ =~= self@.spec_encode());
        }
        out
    }

    /// Deserializes a 60-byte buffer as a get-firmware-version response.
    pub fn decode(bytes: &[u8]) -> (r: Result<GetFwVersionResponse, CfuDecodeError>)
        ensures
            GetFwVersionResponseModel::spec_decode(bytes@) matches Ok(m) ==> r matches Ok(v) && v@
                == m,
            GetFwVersionResponseModel::spec_decode(bytes@) matches Err(e) ==> r matches Err(e2)
                && e2 == e,
    {
        if bytes.len() != LONG_FRAME_SIZE {
            return Err(CfuDecodeError::ShortBuffer);
        }
        let count = bytes[0];
        if count as usize > MAX_CMPT_COUNT {
            return Err(CfuDecodeError::ValueOutOfRange);
        }
        let byte3 = match GetFwVerRespHeaderByte3::from_byte(bytes[3]) {
            Ok(x) => x,
            Err(e) => {
                return Err(e);
            },
        };
        let mut entries: [FwVerComponentInfo; MAX_CMPT_COUNT] =
            [FwVerComponentInfo::zeroed(); MAX_CMPT_COUNT];
        let mut i: usize = 0;
        while i < count as usize
            invariant
                count <= MAX_CMPT_COUNT,
                i <= count,
                bytes@.len() == LONG_FRAME_SIZE,
                forall|j: int|
                    0 <= j < i ==> entries@[j] == FwVerComponentInfo::spec_decode_entry(
                        bytes@.subrange(4 + 8 * j, 12 + 8 * j),
                    ),
                forall|j: int|
                    i <= j < MAX_CMPT_COUNT ==> entries@[j] == FwVerComponentInfo::spec_zeroed(),
            decreases count as usize - i,
        {
            let base = 4 + 8 * i;
            entries[i] = FwVerComponentInfo {
                fw_version: FwVersion {
                    major: bytes[base + 4],
                    minor: u16_from_le(bytes[base + 5], bytes[base + 6]),
                    variant: bytes[base + 7],
                },
                vendor_specific: u16_from_le(bytes[base + 2], bytes[base + 3]),
                component_id: bytes[base + 1],
                vendor_specific2: bytes[base] / 0x10,
                bank: BankType::from_byte(bytes[base] % 4),
            };
            proof {
                let sub = bytes@.subrange(4 + 8 * i, 12 + 8 * i);
                assert(sub[0] == bytes@[4 + 8 * i] && sub[1] == bytes@[5 + 8 * i] && sub[2]
                    == bytes@[6 + 8 * i] && sub[3] == bytes@[7 + 8 * i] && sub[4] == bytes@[8 + 8
                    * i] && sub[5] == bytes@[9 + 8 * i] && sub[6] == bytes@[10 + 8 * i] && sub[7]
                    == bytes@[11 + 8 * i]);
            }
            i += 1;
        }
        let v = GetFwVersionResponse {
            header: GetFwVersionResponseHeader { component_count: count, byte3 },
            component_info: entries,
        };
        proof {
            let m = GetFwVersionResponseModel::spec_decode(bytes@)->Ok_0;
            assert(v@.component_info =~= m.component_info);
            assert(v@ =~= m);
        }
        Ok(v)
    }
}

/// Round trip of the get-firmware-version response: every well-formed
/// response decodes back from its encoding.
pub proof fn lemma_get_fw_version_response_round_trip(m: GetFwVersionResponseModel)
    requires
        m.wf(),
    ensures
        GetFwVersionResponseModel::spec_decode(m.spec_encode()) == Ok::<
            GetFwVersionResponseModel,
            CfuDecodeError,
        >(m),
{
    let b = m.spec_encode();
    assert(b.len() == LONG_FRAME_SIZE);
    assert(b[0] == m.component_count && b[3] == m.byte3.spec_to_byte());
    let m2 = GetFwVersionResponseModel::spec_decode(b)->Ok_0;
    assert forall|i: int| 0 <= i < MAX_CMPT_COUNT implies m2.component_info[i]
        == m.component_info[i] by {
        lemma_encode_entry_slice(m, i);
        lemma_component_info_entry_round_trip(
            m.component_info[i],
            b.subrange(4 + 8 * i, 12 + 8 * i),
        );
    }
    assert(m2.component_info =~= m.component_info);
    assert(m2 =~= m);
}

/// Canonical form of the get-firmware-version response: re-encoding a
/// decoded buffer keeps the count, the protocol byte and the advertised
/// records (but for each record's two reserved bits), and zeroes the two
/// reserved header bytes and the unused record slots.
#[verifier::rlimit(100)]
pub proof fn lemma_get_fw_version_response_canonical(b: Seq<u8>)
    requires
        b.len() == LONG_FRAME_SIZE,
    ensures
        GetFwVersionResponseModel::spec_decode(b) matches Ok(m) ==> {
            let e = m.spec_encode();
            &&& e[0] == b[0]
            &&& e[1] == 0
            &&& e[2] == 0
            &&& e[3] == b[3]
            &&& forall|j: int|
                4 <= j < 4 + 8 * b[0] && (j - 4) % 8 == 0 ==> #[trigger] e[j] == ((b[j] / 0x10)
                    * 0x10 + b[j] % 4) as u8
            &&& forall|j: int|
                4 <= j < 4 + 8 * b[0] && (j - 4) % 8 != 0 ==> #[trigger] e[j] == b[j]
            &&& forall|j: int| 4 + 8 * b[0] <= j < LONG_FRAME_SIZE ==> #[trigger] e[j] == 0
        },
{
    if GetFwVersionResponseModel::spec_decode(b) is Ok {
        let m = GetFwVersionResponseModel::spec_decode(b)->Ok_0;
        let e = m.spec_encode();
        assert forall|j: int| 4 <= j < LONG_FRAME_SIZE implies #[trigger] e[j]
            == m.component_info[(j - 4) / 8].spec_encode_entry()[(j - 4) % 8] by {
            let i = (j - 4) / 8;
            let k = (j - 4) % 8;
            assert(0 <= i < MAX_CMPT_COUNT && 0 <= k < 8 && j == 4 + 8 * i + k);
            lemma_encode_entry_slice(m, i);
            assert(e.subrange(4 + 8 * i, 12 + 8 * i)[k] == e[4 + 8 * i + k]);
        }
        assert forall|j: int| 4 <= j < 4 + 8 * b[0] && (j - 4) % 8 == 0 implies #[trigger] e[j]
            == ((b[j] / 0x10) * 0x10 + b[j] % 4) as u8 by {
            let i = (j - 4) / 8;
            assert(0 <= i < b[0] && j == 4 + 8 * i);
            let sub = b.subrange(4 + 8 * i, 12 + 8 * i);
            lemma_component_info_entry_round_trip(FwVerComponentInfo::spec_decode_entry(sub), sub);
            assert(sub[0] == b[j]);
            assert(m.component_info[i] == FwVerComponentInfo::spec_decode_entry(sub));
        }
        assert forall|j: int| 4 <= j < 4 + 8 * b[0] && (j - 4) % 8 != 0 implies #[trigger] e[j]
            == b[j] by {
            let i = (j - 4) / 8;
            let k = (j - 4) % 8;
            assert(0 <= i < b[0] && 1 <= k < 8 && j == 4 + 8 * i + k);
            let sub = b.subrange(4 + 8 * i, 12 + 8 * i);
            lemma_component_info_entry_round_trip(FwVerComponentInfo::spec_decode_entry(sub), sub);
            assert(sub[k] == b[4 + 8 * i + k]);
            assert(m.component_info[i] == FwVerComponentInfo::spec_decode_entry(sub));
        }
        assert forall|j: int| 4 + 8 * b[0] <= j < LONG_FRAME_SIZE implies #[trigger] e[j] == 0 by {
            let i = (j - 4) / 8;
            let k = (j - 4) % 8;
            assert(b[0] <= i < MAX_CMPT_COUNT && 0 <= k < 8 && j == 4 + 8 * i + k);
            assert(m.component_info[i] == FwVerComponentInfo::spec_zeroed());
        }
    }
}

/// Offer-flags law: the two flag bits round-trip, and a byte re-encodes
/// to itself with its six reserved bits read back as zero.
pub proof fn lemma_offer_flags_round_trip(v: UpdateOfferComponentInfoByte1, b: u8)
    ensures
        UpdateOfferComponentInfoByte1::spec_from_byte(v.spec_to_byte()) == v,
        UpdateOfferComponentInfoByte1::spec_from_byte(b).spec_to_byte() == (b / 0x40) * 0x40,
{
}

} // verus!
