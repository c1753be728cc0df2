//! Data model of the CFU protocol: frame types, field enums and their
//! validity, and the frame constructors.
//!
//! The byte-level encoding of these types lives in `codec`.

use vstd::prelude::*;

use crate::writer::CfuWriterError;

verus! {

/// Greatest number of components one client advertises: one primary and
/// six sub-components.
pub const MAX_CMPT_COUNT: usize = 7;

/// Greatest number of sub-components under the primary component.
pub const MAX_SUBCMPT_COUNT: usize = 6;

/// Identifier of one component of the client.
pub type ComponentId = u8;

/// Firmware version, the decomposition of a 32-bit packed value into
/// `major`, `minor` and `variant`.
#[derive(Clone, Copy, Debug, PartialEq, Eq, Structural)]
pub struct FwVersion {
    pub major: u8,
    pub minor: u16,
    pub variant: u8,
}

impl FwVersion {
    /// The 32-bit packed form: `variant` in the low byte, `minor` in the
    /// middle two bytes, `major` in the high byte.
    pub open spec fn spec_packed(self) -> int {
        self.variant + self.minor * 0x100 + self.major * 0x1000000
    }

    /// Packs the version into its 32-bit form.
    pub fn to_u32(self) -> (r: u32)
        ensures
            r == self.spec_packed(),
    {
        self.variant as u32 + self.minor as u32 * 0x100 + self.major as u32 * 0x1000000
    }

    /// Recovers a version from its 32-bit packed form.
    pub fn from_u32(x: u32) -> (r: FwVersion)
        ensures
            r.spec_packed() == x,
    {
        FwVersion {
            major: (x / 0x1000000) as u8,
            minor: ((x / 0x100) % 0x10000) as u16,
            variant: (x % 0x100) as u8,
        }
    }
}

/// The packed 32-bit form loses nothing: two versions with the same packed
/// form are the same version.
pub proof fn lemma_fw_version_packed_injective(a: FwVersion, b: FwVersion)
    requires
        a.spec_packed() == b.spec_packed(),
    ensures
        a == b,
{
}

/// One-byte tag identifying the originator of an offer.
#[derive(Clone, Copy, Debug, PartialEq, Eq, Structural)]
pub enum HostToken {
    /// The host's driver stack.
    Driver,
    /// An update tool.
    Tool,
    /// Any other originator; the byte must not collide with the two named
    /// tags.
    VendorSpecific(u8),
}

impl HostToken {
    /// A vendor-specific token must not reuse the bytes of the named tags.
    pub open spec fn spec_valid(self) -> bool {
        match self {
            HostToken::VendorSpecific(b) => b != 0xA0 && b != 0xB0,
            _ => true,
        }
    }
}

/// Reserved component identifiers that tag special frames.
#[derive(Clone, Copy, Debug, PartialEq, Eq, Structural)]
pub enum SpecialComponentIds {
    /// `0xFE`: tags offer-command-extended frames.
    Command,
    /// `0xFF`: tags offer-information frames.
    Info,
}

/// Per-component storage topology, advertised as a two-bit field of
/// `FwVerComponentInfo`.
#[derive(Clone, Copy, Debug, PartialEq, Eq, Structural)]
pub enum BankType {
    SingleBank,
    DualBank,
    TripleBank,
    QuadBank,
}

/// Protocol byte of the get-firmware-version response header; its low bit
/// says whether extensions are present.
#[derive(Clone, Copy, Debug, PartialEq, Eq, Structural)]
pub enum GetFwVerRespHeaderByte3 {
    /// `0x20`: protocol version two, no extensions.
    NoSpecialFlags,
    /// `0x21`: protocol version two, extensions present.
    ExtensionFlagSet,
}

/// Reason a component gives when it rejects an offer.
#[derive(Clone, Copy, Debug, PartialEq, Eq, Structural)]
pub enum RejectReason {
    /// The offered firmware is older than what the component runs.
    RejectOldFw,
    /// The offer names a component the client does not have.
    RejectInvComponent,
    /// An earlier update is staged but not applied yet.
    OfferSwapPending,
    /// Vendor-defined reason; only bytes `0xE0..=0xFF` are vendor codes.
    VendorSpecific(u8),
}

impl RejectReason {
    /// A vendor-specific reason must lie in the vendor byte range.
    pub open spec fn spec_valid(self) -> bool {
        match self {
            RejectReason::VendorSpecific(b) => b >= 0xE0,
            _ => true,
        }
    }
}

/// Status a component returns for an offer.
#[derive(Clone, Copy, Debug, PartialEq, Eq, Structural)]
pub enum CfuOfferStatus {
    /// The component asks to be offered again later.
    Skip,
    /// The component accepts the offer.
    Accept,
    /// The component rejects the offer.
    Reject,
    /// The component is busy; the host waits and resends the offer.
    Busy,
    /// Acknowledges an extended command (component id `0xFE`).
    Command,
    /// The request was not recognized.
    CmdNotSupported,
}

/// Status a component returns for a content block.
#[derive(Clone, Copy, Debug, PartialEq, Eq, Structural)]
pub enum CfuOfferResponseStatus {
    /// The block was applied.
    Success,
    /// The component was not prepared to receive contents.
    ErrorPrepare,
    /// The block could not be written.
    ErrorWrite,
    /// The swap could not be set up at the last block.
    ErrorComplete,
    /// Verification failed.
    ErrorVerify,
    /// The image checksum failed at the last block.
    ErrorCrc,
    /// The image signature failed at the last block.
    ErrorSignature,
    /// The image version was refused at the last block.
    ErrorVersion,
    /// A swap is pending; no further content is accepted.
    SwapPending,
    /// The content address is invalid.
    ErrorInvalidAddr,
    /// Content arrived without an accepted offer.
    ErrorNoOffer,
    /// Any other failure.
    ErrorInvalid,
}

/// Flags byte of a content command.
#[derive(Clone, Copy, Debug, PartialEq, Eq, Structural)]
pub enum FwUpdateFlags {
    /// `0x80`: the first block of an image.
    FirstBlock,
    /// `0x40`: the last block of an image.
    LastBlock,
    /// `0xC0`: the single block of an image that fits in one chunk.
    FirstAndLastBlock,
    /// `0x00`: a middle block.
    NoFlags,
}

/// Codes carried in the first byte of an offer-information frame.
#[derive(Clone, Copy, Debug, PartialEq, Eq, Structural)]
pub enum InformationCodeValues {
    /// `0x00`: an update transaction begins.
    StartEntireTransaction,
    /// `0x01`: the offers of this transaction begin.
    StartOfferList,
    /// `0x02`: all offers of this transaction were sent.
    EndOfferList,
    /// An extended command code instead of an information code.
    Extended(ExtendedCommandCode),
}

/// Codes carried in the first byte of an offer-command-extended frame.
#[derive(Clone, Copy, Debug, PartialEq, Eq, Structural)]
pub enum ExtendedCommandCode {
    /// `0x01`: ask the client to notify when it is ready for offers.
    OfferNotifyOnReady,
}

/// The packed flags byte of an offer: two one-bit flags in the top bits,
/// the rest reserved.
#[derive(Clone, Copy, Debug, PartialEq, Eq, Structural)]
pub struct UpdateOfferComponentInfoByte1 {
    /// Bit 7: ask the component to take the image even if not newer.
    pub force_ignore_version: bool,
    /// Bit 6: ask the component to reset after the update.
    pub force_reset: bool,
}

/// First byte of the offer component info: a segment number for ordinary
/// offers, or an information or extended command code when the component
/// id is one of the reserved values.
#[derive(Clone, Copy, Debug, PartialEq, Eq, Structural)]
pub enum UpdateOfferComponentInfoByte0 {
    /// Ordinary offers carry a segment number.
    Segment(u8),
    /// Offer-information and offer-command-extended frames carry a code.
    CommandCode(InformationCodeValues),
}

/// The 32-bit component info of an offer: token, component id, flags byte
/// and the segment or code byte.
#[derive(Clone, Copy, Debug, PartialEq, Eq, Structural)]
pub struct UpdateOfferComponentInfo {
    pub token: HostToken,
    pub component_id: ComponentId,
    pub byte1: UpdateOfferComponentInfoByte1,
    pub byte0: u8,
}

impl UpdateOfferComponentInfo {
    pub open spec fn spec_valid(self) -> bool {
        self.token.spec_valid()
    }

    /// Component info of an ordinary offer: segment zero, no flags.
    pub fn new(token: HostToken, component_id: ComponentId) -> (r: Self)
        ensures
            r.token == token,
            r.component_id == component_id,
            !r.byte1.force_ignore_version,
            !r.byte1.force_reset,
            r.byte0 == 0,
    {
        UpdateOfferComponentInfo {
            token,
            component_id,
            byte1: UpdateOfferComponentInfoByte1 { force_ignore_version: false, force_reset: false },
            byte0: UpdateOfferComponentInfoByte0::Segment(0).to_byte(),
        }
    }

    /// Component info that carries an information or extended command code
    /// instead of a segment number.
    pub fn new_with_command(token: HostToken, component_id: ComponentId, code: InformationCodeValues) -> (r: Self)
        ensures
            r.token == token,
            r.component_id == component_id,
            !r.byte1.force_ignore_version,
            !r.byte1.force_reset,
            r.byte0 == code.spec_to_byte(),
    {
        UpdateOfferComponentInfo {
            token,
            component_id,
            byte1: UpdateOfferComponentInfoByte1 { force_ignore_version: false, force_reset: false },
            byte0: code.to_byte(),
        }
    }
}

/// A firmware update offer: the 32-byte frame proposing an image to a
/// component.
#[derive(Clone, Copy, Debug, PartialEq, Eq, Structural)]
pub struct FwUpdateOfferCommand {
    pub misc_and_protocol_version: u32,
    pub vendor_specific: u32,
    pub firmware_version: FwVersion,
    pub component_info: UpdateOfferComponentInfo,
}

impl FwUpdateOfferCommand {
    pub open spec fn spec_valid(self) -> bool {
        self.component_info.spec_valid()
    }

    /// An ordinary offer of `firmware_version` to `component_id`.
    pub fn new(
        token: HostToken,
        component_id: ComponentId,
        firmware_version: FwVersion,
        vendor_specific: u32,
        misc: u32,
    ) -> (r: Self)
        ensures
            r.component_info.token == token,
            r.component_info.component_id == component_id,
            !r.component_info.byte1.force_ignore_version,
            !r.component_info.byte1.force_reset,
            r.component_info.byte0 == 0,
            r.firmware_version == firmware_version,
            r.vendor_specific == vendor_specific,
            r.misc_and_protocol_version == misc,
    {
        FwUpdateOfferCommand {
            component_info: UpdateOfferComponentInfo::new(token, component_id),
            firmware_version,
            vendor_specific,
            misc_and_protocol_version: misc,
        }
    }

    /// An offer whose component info carries a command code.
    pub fn new_with_command(
        token: HostToken,
        component_id: ComponentId,
        firmware_version: FwVersion,
        vendor_specific: u32,
        command: InformationCodeValues,
        misc: u32,
    ) -> (r: Self)
        ensures
            r.component_info.token == token,
            r.component_info.component_id == component_id,
            !r.component_info.byte1.force_ignore_version,
            !r.component_info.byte1.force_reset,
            r.component_info.byte0 == command.spec_to_byte(),
            r.firmware_version == firmware_version,
            r.vendor_specific == vendor_specific,
            r.misc_and_protocol_version == misc,
    {
        FwUpdateOfferCommand {
            component_info: UpdateOfferComponentInfo::new_with_command(token, component_id, command),
            firmware_version,
            vendor_specific,
            misc_and_protocol_version: misc,
        }
    }
}

/// Offer-information frame (16 bytes): announces a phase of the
/// transaction to the primary component. On the wire its component id is
/// always the reserved `Info` value.
#[derive(Clone, Copy, Debug, PartialEq, Eq, Structural)]
pub struct FwUpdateOfferInformation {
    /// The information code byte.
    pub code: u8,
    pub token: HostToken,
}

impl FwUpdateOfferInformation {
    pub open spec fn spec_valid(self) -> bool {
        self.token.spec_valid()
    }

    /// An information frame with the given code.
    pub fn new(code: InformationCodeValues, token: HostToken) -> (r: Self)
        ensures
            r.code == code.spec_to_byte(),
            r.token == token,
    {
        FwUpdateOfferInformation { code: code.to_byte(), token }
    }
}

/// Offer-command-extended frame (16 bytes). On the wire its component id
/// is always the reserved `Command` value.
#[derive(Clone, Copy, Debug, PartialEq, Eq, Structural)]
pub struct FwUpdateOfferExtended {
    /// The extended command code byte.
    pub code: u8,
    pub token: HostToken,
}

impl FwUpdateOfferExtended {
    pub open spec fn spec_valid(self) -> bool {
        self.token.spec_valid()
    }

    /// An extended-command frame with the given code.
    pub fn new(code: ExtendedCommandCode, token: HostToken) -> (r: Self)
        ensures
            r.code == code.spec_to_byte(),
            r.token == token,
    {
        FwUpdateOfferExtended { code: code.to_byte(), token }
    }
}

/// Offer response frame (16 bytes): the client's verdict on one offer or
/// information frame.
#[derive(Clone, Copy, Debug, PartialEq, Eq, Structural)]
pub struct FwUpdateOfferResponse {
    pub status: CfuOfferStatus,
    /// Meaningful only when `status` is `Reject`.
    pub rejectreasoncode: RejectReason,
    pub token: HostToken,
}

impl FwUpdateOfferResponse {
    pub open spec fn spec_valid(self) -> bool {
        self.token.spec_valid() && self.rejectreasoncode.spec_valid()
    }

    /// The response that accepts an offer. The reject reason byte is not
    /// meaningful on acceptance; it is filled with the swap-pending code.
    pub fn new_accept(token: HostToken) -> (r: Self)
        ensures
            r.status == CfuOfferStatus::Accept,
            r.rejectreasoncode == RejectReason::OfferSwapPending,
            r.token == token,
    {
        FwUpdateOfferResponse {
            token,
            rejectreasoncode: RejectReason::OfferSwapPending,
            status: CfuOfferStatus::Accept,
        }
    }

    /// A response that turns an offer down with the given status and
    /// reason.
    pub fn new_with_failure(token: HostToken, rejectreasoncode: RejectReason, status: CfuOfferStatus) -> (r: Self)
        ensures
            r.status == status,
            r.rejectreasoncode == rejectreasoncode,
            r.token == token,
    {
        FwUpdateOfferResponse { token, rejectreasoncode, status }
    }
}

/// Response to an extended command packet (16 bytes); same layout as an
/// offer response.
#[derive(Clone, Copy, Debug, PartialEq, Eq, Structural)]
pub struct ExtendedCommandPacketResponse {
    pub status: CfuOfferStatus,
    pub reject_reason: RejectReason,
    pub token: HostToken,
}

impl ExtendedCommandPacketResponse {
    pub open spec fn spec_valid(self) -> bool {
        self.token.spec_valid() && self.reject_reason.spec_valid()
    }

    pub fn new(status: CfuOfferStatus, reject_reason: RejectReason, token: HostToken) -> (r: Self)
        ensures
            r.status == status,
            r.reject_reason == reject_reason,
            r.token == token,
    {
        ExtendedCommandPacketResponse { status, reject_reason, token }
    }
}

/// Header of a content command: flags, payload length, sequence number
/// and target address.
#[derive(Clone, Copy, Debug, PartialEq, Eq, Structural)]
pub struct FwUpdateContentHeader {
    pub firmware_address: u32,
    pub sequence_num: u16,
    pub data_length: u8,
    pub flags: FwUpdateFlags,
}

/// Content command frame (60 bytes): the header followed by 52 payload
/// bytes; a block shorter than 52 bytes is zero-padded and its true length
/// stands in `data_length`.
#[derive(Clone, Copy, Debug, PartialEq, Eq)]
pub struct FwUpdateContentCommand {
    pub header: FwUpdateContentHeader,
    pub data: [u8; crate::DEFAULT_DATA_LENGTH],
}

/// Content response frame (16 bytes): the echoed sequence number and the
/// component's status for that block.
#[derive(Clone, Copy, Debug, PartialEq, Eq, Structural)]
pub struct FwUpdateContentResponse {
    pub sequence: u16,
    pub status: CfuOfferResponseStatus,
}

impl FwUpdateContentResponse {
    pub fn new(sequence: u16, status: CfuOfferResponseStatus) -> (r: Self)
        ensures
            r.sequence == sequence,
            r.status == status,
    {
        FwUpdateContentResponse { sequence, status }
    }
}

/// Header of the get-firmware-version response: how many components the
/// client advertises and the protocol byte.
#[derive(Clone, Copy, Debug, PartialEq, Eq, Structural)]
pub struct GetFwVersionResponseHeader {
    pub component_count: u8,
    pub byte3: GetFwVerRespHeaderByte3,
}

impl GetFwVersionResponseHeader {
    pub open spec fn spec_valid(self) -> bool {
        self.component_count <= MAX_CMPT_COUNT
    }

    pub fn new(component_count: u8, byte3: GetFwVerRespHeaderByte3) -> (r: Self)
        ensures
            r.component_count == component_count,
            r.byte3 == byte3,
    {
        GetFwVersionResponseHeader { component_count, byte3 }
    }
}

/// Version record of one component inside the get-firmware-version
/// response: eight bytes on the wire.
#[derive(Clone, Copy, Debug, PartialEq, Eq, Structural)]
pub struct FwVerComponentInfo {
    pub fw_version: FwVersion,
    pub vendor_specific: u16,
    pub component_id: ComponentId,
    /// A vendor nibble: only the low four bits exist on the wire.
    pub vendor_specific2: u8,
    pub bank: BankType,
}

impl FwVerComponentInfo {
    pub open spec fn spec_valid(self) -> bool {
        self.vendor_specific2 < 0x10
    }

    pub fn new(fw_version: FwVersion, component_id: ComponentId, bank: BankType) -> (r: Self)
        ensures
            r.fw_version == fw_version,
            r.component_id == component_id,
            r.bank == bank,
            r.vendor_specific == 0,
            r.vendor_specific2 == 0,
            r.spec_valid(),
    {
        FwVerComponentInfo { fw_version, vendor_specific: 0, component_id, vendor_specific2: 0, bank }
    }

    pub fn new_with_vendor_specific_info(
        fw_version: FwVersion,
        component_id: ComponentId,
        bank: BankType,
        vendor_specific: u16,
        vendor_specific2: u8,
    ) -> (r: Self)
        requires
            vendor_specific2 < 0x10,
        ensures
            r.fw_version == fw_version,
            r.component_id == component_id,
            r.bank == bank,
            r.vendor_specific == vendor_specific,
            r.vendor_specific2 == vendor_specific2,
            r.spec_valid(),
    {
        FwVerComponentInfo { fw_version, vendor_specific, component_id, vendor_specific2, bank }
    }
}

/// Get-firmware-version response frame (60 bytes): the header and seven
/// component records, of which only the first `component_count` are
/// meaningful; the rest are zero.
#[derive(Clone, Copy, Debug, PartialEq, Eq)]
pub struct GetFwVersionResponse {
    pub header: GetFwVersionResponseHeader,
    pub component_info: [FwVerComponentInfo; MAX_CMPT_COUNT],
}

impl Default for FwVersion {
    /// Version zero.
    fn default() -> (r: Self)
        ensures
            r == (FwVersion { major: 0, minor: 0, variant: 0 }),
    {
        FwVersion { major: 0, minor: 0, variant: 0 }
    }
}

impl Default for GetFwVerRespHeaderByte3 {
    /// Protocol version two without extensions.
    fn default() -> (r: Self)
        ensures
            r == GetFwVerRespHeaderByte3::NoSpecialFlags,
    {
        GetFwVerRespHeaderByte3::NoSpecialFlags
    }
}

impl Default for BankType {
    fn default() -> (r: Self)
        ensures
            r == BankType::SingleBank,
    {
        BankType::SingleBank
    }
}

impl Default for GetFwVersionResponseHeader {
    /// One component, no extensions.
    fn default() -> (r: Self)
        ensures
            r.component_count == 1,
            r.byte3 == GetFwVerRespHeaderByte3::NoSpecialFlags,
    {
        GetFwVersionResponseHeader::new(1, GetFwVerRespHeaderByte3::NoSpecialFlags)
    }
}

impl Default for FwVerComponentInfo {
    /// Version zero of component zero in a single bank.
    fn default() -> (r: Self)
        ensures
            r.fw_version == (FwVersion { major: 0, minor: 0, variant: 0 }),
            r.component_id == 0,
            r.bank == BankType::SingleBank,
            r.vendor_specific == 0,
            r.vendor_specific2 == 0,
    {
        FwVerComponentInfo::new(FwVersion { major: 0, minor: 0, variant: 0 }, 0, BankType::SingleBank)
    }
}

impl Default for UpdateOfferComponentInfoByte1 {
    fn default() -> (r: Self)
        ensures
            !r.force_ignore_version,
            !r.force_reset,
    {
        UpdateOfferComponentInfoByte1 { force_ignore_version: false, force_reset: false }
    }
}

impl Default for UpdateOfferComponentInfoByte0 {
    /// Segment zero.
    fn default() -> (r: Self)
        ensures
            r == UpdateOfferComponentInfoByte0::Segment(0),
    {
        UpdateOfferComponentInfoByte0::Segment(0)
    }
}

impl Default for UpdateOfferComponentInfo {
    /// Vendor token zero offered to component zero.
    fn default() -> (r: Self)
        ensures
            r.token == HostToken::VendorSpecific(0),
            r.component_id == 0,
            !r.byte1.force_ignore_version,
            !r.byte1.force_reset,
            r.byte0 == 0,
    {
        UpdateOfferComponentInfo::new(HostToken::VendorSpecific(0), 0)
    }
}

impl Default for FwUpdateOfferCommand {
    /// Version zero offered to component zero under vendor token zero.
    fn default() -> (r: Self)
        ensures
            r.component_info.token == HostToken::VendorSpecific(0),
            r.component_info.component_id == 0,
            !r.component_info.byte1.force_ignore_version,
            !r.component_info.byte1.force_reset,
            r.component_info.byte0 == 0,
            r.firmware_version == (FwVersion { major: 0, minor: 0, variant: 0 }),
            r.vendor_specific == 0,
            r.misc_and_protocol_version == 0,
    {
        FwUpdateOfferCommand::new(
            HostToken::VendorSpecific(0),
            0,
            FwVersion { major: 0, minor: 0, variant: 0 },
            0,
            0,
        )
    }
}

impl Default for RejectReason {
    fn default() -> (r: Self)
        ensures
            r == RejectReason::RejectOldFw,
    {
        RejectReason::RejectOldFw
    }
}

impl Default for CfuOfferStatus {
    fn default() -> (r: Self)
        ensures
            r == CfuOfferStatus::Skip,
    {
        CfuOfferStatus::Skip
    }
}

impl Default for CfuOfferResponseStatus {
    fn default() -> (r: Self)
        ensures
            r == CfuOfferResponseStatus::Success,
    {
        CfuOfferResponseStatus::Success
    }
}

impl Default for FwUpdateFlags {
    fn default() -> (r: Self)
        ensures
            r == FwUpdateFlags::FirstBlock,
    {
        FwUpdateFlags::FirstBlock
    }
}

impl Default for ExtendedCommandCode {
    fn default() -> (r: Self)
        ensures
            r == ExtendedCommandCode::OfferNotifyOnReady,
    {
        ExtendedCommandCode::OfferNotifyOnReady
    }
}

impl Default for FwUpdateOfferResponse {
    /// A skip response under vendor token zero.
    fn default() -> (r: Self)
        ensures
            r.status == CfuOfferStatus::Skip,
            r.rejectreasoncode == RejectReason::RejectOldFw,
            r.token == HostToken::VendorSpecific(0),
    {
        FwUpdateOfferResponse {
            status: CfuOfferStatus::Skip,
            rejectreasoncode: RejectReason::RejectOldFw,
            token: HostToken::VendorSpecific(0),
        }
    }
}

/// The commands a host issues over one transaction, in order.
#[derive(Clone, Copy, Debug, PartialEq, Eq, Structural)]
pub enum CfuCommands {
    OfferInfoStartEntireTransaction,
    OfferInfoStartStartOfferList,
    FwUpdateOffer,
}

/// Failure of the update protocol as surfaced to the caller of the host
/// engine.
#[derive(Clone, Copy, Debug, PartialEq, Eq, Structural)]
#[non_exhaustive]
pub enum CfuProtocolError {
    /// Aggregate failure of the named component's update, for callers
    /// that record one error per component.
    UpdateError(u8),
    /// The named component did not answer within the allowed retries.
    TimeoutError(u8),
    /// The last content response carried the wrong sequence number.
    InvalidBlockTransition,
    /// A response could not be interpreted.
    BadResponse,
    /// The transport failed.
    WriterError(CfuWriterError),
    /// The peer reported a non-success content status.
    CfuResponseError(CfuOfferResponseStatus),
    /// The peer reported a terminal offer status.
    CfuStatusError(CfuOfferStatus),
}

} // verus!
