//! Host update engine: chunking arithmetic, the offer phase with bounded
//! busy retries, and the sequenced content streaming of one image to one
//! component.

use vstd::arithmetic::div_mod::lemma_fundamental_div_mod;
use vstd::arithmetic::mul::lemma_mul_inequality;
use vstd::prelude::*;

use crate::codec::ContentCommandModel;
use crate::codec::SHORT_FRAME_SIZE;
use crate::protocol_definitions::CfuOfferResponseStatus;
use crate::protocol_definitions::CfuOfferStatus;
use crate::protocol_definitions::FwUpdateOfferCommand;
use crate::protocol_definitions::FwUpdateOfferInformation;
use crate::protocol_definitions::FwUpdateOfferResponse;
use crate::protocol_definitions::HostToken;
use crate::protocol_definitions::InformationCodeValues;
use crate::protocol_definitions::RejectReason;
use crate::protocol_definitions::CfuProtocolError;
use crate::protocol_definitions::ComponentId;
use crate::protocol_definitions::FwUpdateContentCommand;
use crate::protocol_definitions::FwUpdateContentHeader;
use crate::protocol_definitions::FwUpdateContentResponse;
use crate::protocol_definitions::FwUpdateFlags;
use crate::spec_image_byte;
use crate::writer::CfuWriterError;
use crate::writer::CfuWriterSync;
use crate::CfuImage;
use crate::DataChunk;
use crate::DEFAULT_DATA_LENGTH;

verus! {

// --- chunking arithmetic ---

/// Index of the last chunk of an image of `total` bytes. An image that
/// fits one block has a single chunk; otherwise the chunks are the
/// ceiling of `total / 52` consecutive 52-byte windows.
pub open spec fn spec_last_seq(total: int) -> int {
    if total <= DEFAULT_DATA_LENGTH {
        0
    } else {
        (total - 1) / (DEFAULT_DATA_LENGTH as int)
    }
}

/// How many chunks an image of `total` bytes streams as.
pub open spec fn spec_num_chunks(total: int) -> int {
    spec_last_seq(total) + 1
}

/// Payload length of chunk `i`: full 52 bytes for every chunk but the
/// last, whose length is what remains of the image.
pub open spec fn spec_chunk_len(total: int, i: int) -> int {
    if i < spec_last_seq(total) {
        DEFAULT_DATA_LENGTH as int
    } else if total <= DEFAULT_DATA_LENGTH {
        total
    } else {
        total - spec_last_seq(total) * (DEFAULT_DATA_LENGTH as int)
    }
}

/// Flags of chunk `i`: the first chunk is flagged first, the last chunk
/// last, a single chunk both, and every other chunk none.
pub open spec fn spec_chunk_flags(total: int, i: int) -> FwUpdateFlags {
    if spec_last_seq(total) == 0 {
        FwUpdateFlags::FirstAndLastBlock
    } else if i == 0 {
        FwUpdateFlags::FirstBlock
    } else if i == spec_last_seq(total) {
        FwUpdateFlags::LastBlock
    } else {
        FwUpdateFlags::NoFlags
    }
}

/// The 52 payload bytes of chunk `i`: the image bytes read at
/// `base + i * 52`, zero-padded past the chunk's payload length.
pub open spec fn spec_chunk_data(contents: Seq<u8>, base: int, i: int) -> Seq<u8> {
    Seq::new(
        DEFAULT_DATA_LENGTH as nat,
        |k: int|
            if k < spec_chunk_len(contents.len() as int, i) {
                spec_image_byte(contents, base + i * (DEFAULT_DATA_LENGTH as int) + k)
            } else {
                0u8
            },
    )
}

/// The content command that streams chunk `i` of an image: flags, length,
/// sequence number and data all determined by the image and the index.
pub open spec fn spec_chunk_command(contents: Seq<u8>, base: int, i: int) -> ContentCommandModel {
    ContentCommandModel {
        flags: spec_chunk_flags(contents.len() as int, i),
        data_length: spec_chunk_len(contents.len() as int, i) as u8,
        sequence_num: i as u16,
        firmware_address: 0,
        data: spec_chunk_data(contents, base, i),
    }
}

/// The remainder of an image past its last full chunks fits one block:
/// every chunk carries between zero and 52 payload bytes, and only an
/// empty image has an empty chunk.
pub proof fn lemma_chunk_len_bounds(total: int, i: int)
    requires
        0 <= total,
        0 <= i <= spec_last_seq(total),
    ensures
        0 <= spec_chunk_len(total, i) <= DEFAULT_DATA_LENGTH,
        total > 0 ==> spec_chunk_len(total, i) > 0,
        spec_last_seq(total) * (DEFAULT_DATA_LENGTH as int) <= total,
{
    if total > DEFAULT_DATA_LENGTH {
        lemma_fundamental_div_mod(total - 1, DEFAULT_DATA_LENGTH as int);
    }
}

/// Flag law: among the chunks of an image, exactly chunk 0 carries the
/// first-block flag and exactly the last chunk carries the last-block
/// flag; the single chunk of a one-chunk image carries both.
pub proof fn lemma_chunk_flags_exact(total: int, i: int)
    requires
        0 <= total,
        0 <= i <= spec_last_seq(total),
    ensures
        spec_chunk_flags(total, i).spec_is_first() <==> i == 0,
        spec_chunk_flags(total, i).spec_is_last() <==> i == spec_last_seq(total),
        total <= DEFAULT_DATA_LENGTH ==> spec_chunk_flags(total, i)
            == FwUpdateFlags::FirstAndLastBlock,
{
}

/// Offset law: chunk `i` reads the image at `base_offset + i * 52`.
pub proof fn lemma_chunk_offset(contents: Seq<u8>, base: int, i: int, k: int)
    requires
        0 <= k < spec_chunk_len(contents.len() as int, i),
    ensures
        spec_chunk_data(contents, base, i)[k] == spec_image_byte(
            contents,
            base + i * (DEFAULT_DATA_LENGTH as int) + k,
        ),
{
}

/// Index of the last chunk of an image of `total` bytes.
pub fn last_seq(total: usize) -> (r: usize)
    ensures
        r == spec_last_seq(total as int),
{
    if total <= DEFAULT_DATA_LENGTH {
        0
    } else {
        (total - 1) / DEFAULT_DATA_LENGTH
    }
}

/// Payload length of chunk `i` of an image of `total` bytes.
pub fn chunk_len(total: usize, i: usize) -> (r: usize)
    requires
        i <= spec_last_seq(total as int),
    ensures
        r == spec_chunk_len(total as int, i as int),
        r <= DEFAULT_DATA_LENGTH,
{
    proof {
        lemma_chunk_len_bounds(total as int, i as int);
    }
    let last = last_seq(total);
    if i < last {
        DEFAULT_DATA_LENGTH
    } else if total <= DEFAULT_DATA_LENGTH {
        total
    } else {
        total - last * DEFAULT_DATA_LENGTH
    }
}

/// The image read offset of chunk `i`: `base_offset + i * 52`.
pub fn chunk_read_offset(base_offset: usize, i: usize) -> (r: usize)
    requires
        base_offset + i * DEFAULT_DATA_LENGTH <= usize::MAX,
    ensures
        r == base_offset + i * (DEFAULT_DATA_LENGTH as int),
{
    base_offset + i * DEFAULT_DATA_LENGTH
}

/// Builds the content command of chunk `i`: the flags, payload length and
/// sequence number follow from the image size and the index alone.
pub fn build_content_command(total: usize, i: usize, data: DataChunk) -> (r: FwUpdateContentCommand)
    requires
        i <= spec_last_seq(total as int),
        spec_last_seq(total as int) <= u16::MAX,
    ensures
        r.header.flags == spec_chunk_flags(total as int, i as int),
        r.header.data_length == spec_chunk_len(total as int, i as int),
        r.header.sequence_num == i,
        r.header.firmware_address == 0,
        r.data == data,
{
    let last = last_seq(total);
    let flags = if last == 0 {
        FwUpdateFlags::FirstAndLastBlock
    } else if i == 0 {
        FwUpdateFlags::FirstBlock
    } else if i == last {
        FwUpdateFlags::LastBlock
    } else {
        FwUpdateFlags::NoFlags
    };
    let dl = chunk_len(total, i);
    FwUpdateContentCommand {
        header: FwUpdateContentHeader {
            flags,
            data_length: dl as u8,
            sequence_num: i as u16,
            firmware_address: 0,
        },
        data,
    }
}

// --- the offer phase ---

/// Verdict of the offer phase for one component.
#[derive(Clone, Copy, Debug, PartialEq, Eq, Structural)]
pub enum OfferOutcome {
    /// The component accepted the offer.
    Accepted,
    /// The component asked to be skipped for this transaction.
    Skipped,
    /// The component rejected the offer with the given reason.
    Rejected(RejectReason),
}

/// The verdict that the offer phase reaches on a sequence of decoded
/// offer responses, with `budget` sends of the same offer allowed in all:
/// accept, skip and reject are verdicts; a busy answer consumes one send
/// and the next response decides, until the budget is exhausted and the
/// component times out; any other status is fatal.
pub open spec fn spec_offer_run(
    resps: Seq<FwUpdateOfferResponse>,
    budget: int,
    cmpt_id: u8,
) -> Result<OfferOutcome, CfuProtocolError>
    decreases resps.len(),
{
    if resps.len() == 0 {
        Err(CfuProtocolError::BadResponse)
    } else {
        match resps[0].status {
            CfuOfferStatus::Accept => Ok(OfferOutcome::Accepted),
            CfuOfferStatus::Skip => Ok(OfferOutcome::Skipped),
            CfuOfferStatus::Reject => Ok(OfferOutcome::Rejected(resps[0].rejectreasoncode)),
            CfuOfferStatus::Busy => if budget <= 1 {
                Err(CfuProtocolError::TimeoutError(cmpt_id))
            } else {
                spec_offer_run(resps.drop_first(), budget - 1, cmpt_id)
            },
            _ => Err(CfuProtocolError::CfuStatusError(resps[0].status)),
        }
    }
}

/// Busy answers at the front of the response sequence consume budget one
/// by one while any budget remains.
proof fn lemma_offer_run_skip_busies(
    resps: Seq<FwUpdateOfferResponse>,
    budget: int,
    cmpt_id: u8,
    k: int,
)
    requires
        0 <= k <= resps.len(),
        forall|j: int| 0 <= j < k ==> resps[j].status == CfuOfferStatus::Busy,
        k == 0 || k < budget,
    ensures
        spec_offer_run(resps, budget, cmpt_id) == spec_offer_run(
            resps.skip(k),
            budget - k,
            cmpt_id,
        ),
    decreases k,
{
    if k == 0 {
        assert(resps.skip(0) =~= resps);
    } else {
        lemma_offer_run_skip_busies(resps.drop_first(), budget - 1, cmpt_id, k - 1);
        assert(resps.drop_first().skip(k - 1) =~= resps.skip(k));
    }
}

/// Busy-retry law, acceptance side: a peer that answers busy `k` times
/// with `k < busy_retry_limit` and then accepts is accepted.
pub proof fn lemma_busy_retry_accepted(
    resps: Seq<FwUpdateOfferResponse>,
    k: int,
    busy_retry_limit: int,
    cmpt_id: u8,
)
    requires
        0 <= k < busy_retry_limit,
        resps.len() == k + 1,
        forall|j: int| 0 <= j < k ==> resps[j].status == CfuOfferStatus::Busy,
        resps[k].status == CfuOfferStatus::Accept,
    ensures
        spec_offer_run(resps, busy_retry_limit, cmpt_id) == Ok::<OfferOutcome, CfuProtocolError>(
            OfferOutcome::Accepted,
        ),
{
    lemma_offer_run_skip_busies(resps, busy_retry_limit, cmpt_id, k);
    assert(resps.skip(k)[0] == resps[k]);
}

/// Busy-retry law, exhaustion side: a peer that answers busy
/// `busy_retry_limit` times in a row times the component out.
pub proof fn lemma_busy_retry_timeout(
    resps: Seq<FwUpdateOfferResponse>,
    busy_retry_limit: int,
    cmpt_id: u8,
)
    requires
        1 <= busy_retry_limit <= resps.len(),
        forall|j: int| 0 <= j < busy_retry_limit ==> resps[j].status == CfuOfferStatus::Busy,
    ensures
        spec_offer_run(resps, busy_retry_limit, cmpt_id) == Err::<OfferOutcome, CfuProtocolError>(
            CfuProtocolError::TimeoutError(cmpt_id),
        ),
{
    lemma_offer_run_skip_busies(resps, busy_retry_limit, cmpt_id, busy_retry_limit - 1);
    assert(resps.skip(busy_retry_limit - 1)[0] == resps[busy_retry_limit - 1]);
}

/// Reject honoring: a reject response ends the offer phase at once with
/// the rejected verdict carrying the peer's reason; the engine streams no
/// content to that component and moves to the next offer.
pub proof fn lemma_reject_honored(
    resps: Seq<FwUpdateOfferResponse>,
    busy_retry_limit: int,
    cmpt_id: u8,
)
    requires
        resps.len() >= 1,
        resps[0].status == CfuOfferStatus::Reject,
    ensures
        spec_offer_run(resps, busy_retry_limit, cmpt_id) == Ok::<OfferOutcome, CfuProtocolError>(
            OfferOutcome::Rejected(resps[0].rejectreasoncode),
        ),
{
}

/// What the streaming engine does after one content response.
#[derive(Clone, Copy, Debug, PartialEq, Eq, Structural)]
pub enum ContentStep {
    /// The block was applied; the next chunk follows.
    NextChunk,
    /// The last block was applied and acknowledged; the component is
    /// updated.
    Done,
}

/// Decides what follows the content response for chunk `i` of a stream
/// whose last chunk is `last`: any status but success fails the component
/// with that status; a success on a middle chunk asks for the next one;
/// a success on the last chunk finishes the stream, provided the response
/// echoes the last sequence number, and is a block-transition error
/// otherwise.
pub fn content_response_step(resp: &FwUpdateContentResponse, i: usize, last: usize) -> (r: Result<
    ContentStep,
    CfuProtocolError,
>)
    requires
        i <= last,
    ensures
        resp.status != CfuOfferResponseStatus::Success ==> r == Err::<
            ContentStep,
            CfuProtocolError,
        >(CfuProtocolError::CfuResponseError(resp.status)),
        resp.status == CfuOfferResponseStatus::Success && i < last ==> r == Ok::<
            ContentStep,
            CfuProtocolError,
        >(ContentStep::NextChunk),
        resp.status == CfuOfferResponseStatus::Success && i == last && resp.sequence == last ==> r
            == Ok::<ContentStep, CfuProtocolError>(ContentStep::Done),
        resp.status == CfuOfferResponseStatus::Success && i == last && resp.sequence != last ==> r
            == Err::<ContentStep, CfuProtocolError>(CfuProtocolError::InvalidBlockTransition),
{
    if !matches!(resp.status, CfuOfferResponseStatus::Success) {
        return Err(CfuProtocolError::CfuResponseError(resp.status));
    }
    if i == last {
        if resp.sequence as usize != last {
            return Err(CfuProtocolError::InvalidBlockTransition);
        }
        return Ok(ContentStep::Done);
    }
    Ok(ContentStep::NextChunk)
}

/// A vector of `n` zero bytes.
fn zeroed_vec(n: usize) -> (r: Vec<u8>)
    ensures
        r@.len() == n,
        forall|j: int| 0 <= j < n ==> r@[j] == 0u8,
{
    let mut v: Vec<u8> = Vec::new();
    let mut i: usize = 0;
    while i < n
        invariant
            i <= n,
            v@.len() == i,
            forall|j: int| 0 <= j < i ==> v@[j] == 0u8,
        decreases n - i,
    {
        v.push(0);
        i += 1;
    }
    v
}

/// The host-side updater: it streams offers and content blocks through a
/// transport writer and follows the peer's responses.
#[derive(Clone, Copy, Debug, PartialEq, Eq, Structural)]
pub struct CfuUpdater {}

impl CfuUpdater {
    /// Streams the whole image to one component as sequenced content
    /// commands, one request/response round trip per chunk, and returns
    /// the final content response.
    ///
    /// The ghost transcript holds every completed round trip, in order.
    /// Its contract carries the streaming laws: the command of round `j`
    /// is exactly chunk `j` of the image (so its flags mark precisely the
    /// first and the last chunk, and its data is read at `base_offset +
    /// j * 52`); a round beyond `j` exists only when round `j` succeeded;
    /// and the stream ends in success only when the last response echoes
    /// the last sequence number.
    pub fn stream_content<W: CfuWriterSync, I: CfuImage>(
        &mut self,
        writer: &mut W,
        image: &I,
        cmpt_id: ComponentId,
        base_offset: usize,
    ) -> (r: (
        Result<FwUpdateContentResponse, CfuProtocolError>,
        Ghost<Seq<(ContentCommandModel, FwUpdateContentResponse)>>,
    ))
        requires
            base_offset + image.spec_contents().len() <= usize::MAX,
            spec_last_seq(image.spec_contents().len() as int) <= u16::MAX,
        ensures
            ({
                let sent = r.1@;
                let contents = image.spec_contents();
                let total = contents.len() as int;
                &&& sent.len() <= spec_num_chunks(total)
                &&& forall|j: int|
                    0 <= j < sent.len() ==> (#[trigger] sent[j]).0 == spec_chunk_command(
                        contents,
                        base_offset as int,
                        j,
                    )
                &&& forall|j: int|
                    0 <= j < sent.len() - 1 ==> (#[trigger] sent[j]).1.status
                        == CfuOfferResponseStatus::Success
                &&& r.0 matches Ok(resp) ==> {
                    &&& sent.len() == spec_num_chunks(total)
                    &&& resp == sent.last().1
                    &&& resp.status == CfuOfferResponseStatus::Success
                    &&& resp.sequence == spec_last_seq(total)
                }
                &&& r.0 matches Err(e) ==> {
                    ||| e matches CfuProtocolError::WriterError(_)
                    ||| {
                        &&& sent.len() >= 1
                        &&& e == CfuProtocolError::CfuResponseError(sent.last().1.status)
                        &&& sent.last().1.status != CfuOfferResponseStatus::Success
                    }
                    ||| {
                        &&& e == CfuProtocolError::InvalidBlockTransition
                        &&& sent.len() == spec_num_chunks(total)
                        &&& sent.last().1.status == CfuOfferResponseStatus::Success
                        &&& sent.last().1.sequence != spec_last_seq(total)
                    }
                }
            }),
    {
        let ghost contents = image.spec_contents();
        let total = image.get_total_size();
        let last = last_seq(total);
        proof {
            lemma_chunk_len_bounds(total as int, 0);
        }
        let mut i: usize = 0;
        let ghost mut sent: Seq<(ContentCommandModel, FwUpdateContentResponse)> = Seq::empty();
        while i <= last
            invariant
                i <= last,
                sent.len() == i,
                last == spec_last_seq(total as int),
                total == contents.len(),
                contents == image.spec_contents(),
                base_offset + total <= usize::MAX,
                last <= u16::MAX,
                spec_last_seq(total as int) * (DEFAULT_DATA_LENGTH as int) <= total,
                forall|j: int|
                    0 <= j < sent.len() ==> (#[trigger] sent[j]).0 == spec_chunk_command(
                        contents,
                        base_offset as int,
                        j,
                    ),
                forall|j: int|
                    0 <= j < sent.len() ==> (#[trigger] sent[j]).1.status
                        == CfuOfferResponseStatus::Success,
            decreases last - i,
        {
            let dl = chunk_len(total, i);
            proof {
                lemma_mul_inequality(i as int, last as int, DEFAULT_DATA_LENGTH as int);
            }
            let off = chunk_read_offset(base_offset, i);
            let mut small = zeroed_vec(dl);
            if image.get_bytes_for_chunk(&mut small, off).is_err() {
                return (
                    Err(CfuProtocolError::WriterError(CfuWriterError::StorageError)),
                    Ghost(sent),
                );
            }
            let mut data: DataChunk = [0u8; DEFAULT_DATA_LENGTH];
            let mut k: usize = 0;
            while k < dl
                invariant
                    k <= dl,
                    dl <= DEFAULT_DATA_LENGTH,
                    small@.len() == dl,
                    data@.len() == DEFAULT_DATA_LENGTH,
                    forall|j: int| 0 <= j < k ==> data@[j] == small@[j],
                    forall|j: int| k <= j < DEFAULT_DATA_LENGTH ==> data@[j] == 0u8,
                decreases dl - k,
            {
                data[k] = small[k];
                k += 1;
            }
            proof {
                assert(data@ =~= spec_chunk_data(contents, base_offset as int, i as int));
            }
            let cmd = build_content_command(total, i, data);
            let cmd_bytes = cmd.encode();
            let mut resp_buf = zeroed_vec(SHORT_FRAME_SIZE);
            match writer.cfu_write_read(
                Some(i * DEFAULT_DATA_LENGTH),
                cmd_bytes.as_slice(),
                &mut resp_buf,
            ) {
                Ok(()) => (),
                Err(e) => {
                    return (Err(CfuProtocolError::WriterError(e)), Ghost(sent));
                },
            }
            let resp = match FwUpdateContentResponse::decode(resp_buf.as_slice()) {
                Ok(resp) => resp,
                Err(_) => {
                    return (
                        Err(CfuProtocolError::WriterError(CfuWriterError::ByteConversionError)),
                        Ghost(sent),
                    );
                },
            };
            proof {
                assert(cmd@ =~= spec_chunk_command(contents, base_offset as int, i as int));
                sent = sent.push((cmd@, resp));
            }
            match content_response_step(&resp, i, last) {
                Err(e) => {
                    return (Err(e), Ghost(sent));
                },
                Ok(ContentStep::Done) => {
                    return (Ok(resp), Ghost(sent));
                },
                Ok(ContentStep::NextChunk) => {
                    i += 1;
                },
            }
        }
        // the round for the last chunk always returns above
        proof {
            assert(false);
        }
        (Err(CfuProtocolError::BadResponse), Ghost(sent))
    }

    /// Sends one content command at the given transport offset and
    /// decodes the paired response. A transport failure keeps the kind
    /// the transport reported; an undecodable response is a byte
    /// conversion error.
    fn send_content_block<W: CfuWriterSync>(
        &mut self,
        w: &mut W,
        cmd: &FwUpdateContentCommand,
        offset: usize,
    ) -> (r: Result<FwUpdateContentResponse, CfuWriterError>) {
        let cmd_bytes = cmd.encode();
        let mut resp_buf = zeroed_vec(SHORT_FRAME_SIZE);
        match w.cfu_write_read(Some(offset), cmd_bytes.as_slice(), &mut resp_buf) {
            Ok(()) => (),
            Err(e) => {
                return Err(e);
            },
        }
        match FwUpdateContentResponse::decode(resp_buf.as_slice()) {
            Ok(resp) => Ok(resp),
            Err(_) => Err(CfuWriterError::ByteConversionError),
        }
    }

    /// Sends one offer and follows the responses: accept, skip and reject
    /// are verdicts; a busy answer has the same offer resent, with at most
    /// `busy_retry_limit` sends in all before the component times out; any
    /// other status is fatal for the transaction.
    ///
    /// The ghost transcript holds the decoded responses in order, and
    /// every response before the last one is busy. Unless the transport
    /// or the decode failed, the result is exactly the offer-run verdict
    /// of that transcript; `lemma_busy_retry_accepted` and
    /// `lemma_busy_retry_timeout` pin that verdict for the two retry
    /// scenarios: busy answers under the limit followed by an acceptance
    /// are accepted, and busy answers up to the limit time the component
    /// out.
    pub fn offer_component<W: CfuWriterSync>(
        &mut self,
        writer: &mut W,
        offer: &FwUpdateOfferCommand,
        busy_retry_limit: usize,
    ) -> (r: (Result<OfferOutcome, CfuProtocolError>, Ghost<Seq<FwUpdateOfferResponse>>))
        ensures
            r.0 matches Err(CfuProtocolError::WriterError(_)) || r.0 == spec_offer_run(
                r.1@,
                busy_retry_limit as int,
                offer.component_info.component_id,
            ),
            forall|j: int|
                0 <= j < r.1@.len() - 1 ==> (#[trigger] r.1@[j]).status == CfuOfferStatus::Busy,
    {
        let cid = offer.component_info.component_id;
        let offer_bytes = offer.encode();
        let mut busy_count: usize = 0;
        let ghost mut transcript: Seq<FwUpdateOfferResponse> = Seq::empty();
        loop
            invariant
                transcript.len() == busy_count,
                forall|j: int|
                    0 <= j < transcript.len() ==> transcript[j].status == CfuOfferStatus::Busy,
                busy_count == 0 || busy_count < busy_retry_limit,
                cid == offer.component_info.component_id,
                offer_bytes@.len() > 0,
            decreases busy_retry_limit - busy_count,
        {
            let mut resp_buf = zeroed_vec(SHORT_FRAME_SIZE);
            match writer.cfu_write_read(Some(0), offer_bytes.as_slice(), &mut resp_buf) {
                Ok(()) => (),
                Err(e) => {
                    return (Err(CfuProtocolError::WriterError(e)), Ghost(transcript));
                },
            }
            let resp = match FwUpdateOfferResponse::decode(resp_buf.as_slice()) {
                Ok(resp) => resp,
                Err(_) => {
                    return (
                        Err(CfuProtocolError::WriterError(CfuWriterError::ByteConversionError)),
                        Ghost(transcript),
                    );
                },
            };
            proof {
                transcript = transcript.push(resp);
                lemma_offer_run_skip_busies(
                    transcript,
                    busy_retry_limit as int,
                    cid,
                    busy_count as int,
                );
                assert(transcript.skip(busy_count as int) =~= seq![resp]);
            }
            match resp.status {
                CfuOfferStatus::Accept => {
                    return (Ok(OfferOutcome::Accepted), Ghost(transcript));
                },
                CfuOfferStatus::Skip => {
                    return (Ok(OfferOutcome::Skipped), Ghost(transcript));
                },
                CfuOfferStatus::Reject => {
                    return (
                        Ok(OfferOutcome::Rejected(resp.rejectreasoncode)),
                        Ghost(transcript),
                    );
                },
                CfuOfferStatus::Busy => {
                    if busy_count + 1 >= busy_retry_limit {
                        return (Err(CfuProtocolError::TimeoutError(cid)), Ghost(transcript));
                    }
                    busy_count = busy_count + 1;
                },
                CfuOfferStatus::Command => {
                    return (
                        Err(CfuProtocolError::CfuStatusError(resp.status)),
                        Ghost(transcript),
                    );
                },
                CfuOfferStatus::CmdNotSupported => {
                    return (
                        Err(CfuProtocolError::CfuStatusError(resp.status)),
                        Ghost(transcript),
                    );
                },
            }
        }
    }

    /// Updates one component: sends the offer, honors the verdict, and
    /// streams the image only on acceptance. Skip and reject end the
    /// component without any content round trip and the host moves to the
    /// next offer; a rejected verdict carries the peer's reason.
    ///
    /// The first ghost transcript holds the decoded offer responses, the
    /// second the content round trips (as in `stream_content`).
    pub fn update_component<W: CfuWriterSync, I: CfuImage>(
        &mut self,
        writer: &mut W,
        image: &I,
        offer: &FwUpdateOfferCommand,
        base_offset: usize,
        busy_retry_limit: usize,
    ) -> (r: (
        Result<OfferOutcome, CfuProtocolError>,
        Ghost<Seq<FwUpdateOfferResponse>>,
        Ghost<Seq<(ContentCommandModel, FwUpdateContentResponse)>>,
    ))
        requires
            base_offset + image.spec_contents().len() <= usize::MAX,
            spec_last_seq(image.spec_contents().len() as int) <= u16::MAX,
        ensures
            ({
                let verdict = r.0;
                let offers = r.1@;
                let sent = r.2@;
                let contents = image.spec_contents();
                let total = contents.len() as int;
                let cid = offer.component_info.component_id;
                &&& sent.len() <= spec_num_chunks(total)
                &&& forall|j: int|
                    0 <= j < sent.len() ==> (#[trigger] sent[j]).0 == spec_chunk_command(
                        contents,
                        base_offset as int,
                        j,
                    )
                &&& forall|j: int|
                    0 <= j < sent.len() - 1 ==> (#[trigger] sent[j]).1.status
                        == CfuOfferResponseStatus::Success
                &&& verdict == Ok::<OfferOutcome, CfuProtocolError>(OfferOutcome::Skipped)
                    ==> spec_offer_run(offers, busy_retry_limit as int, cid) == Ok::<
                    OfferOutcome,
                    CfuProtocolError,
                >(OfferOutcome::Skipped) && sent.len() == 0
                &&& verdict matches Ok(OfferOutcome::Rejected(reason)) ==> spec_offer_run(
                    offers,
                    busy_retry_limit as int,
                    cid,
                ) == Ok::<OfferOutcome, CfuProtocolError>(OfferOutcome::Rejected(reason))
                    && sent.len() == 0
                &&& verdict == Ok::<OfferOutcome, CfuProtocolError>(OfferOutcome::Accepted) ==> {
                    &&& spec_offer_run(offers, busy_retry_limit as int, cid) == Ok::<
                        OfferOutcome,
                        CfuProtocolError,
                    >(OfferOutcome::Accepted)
                    &&& sent.len() == spec_num_chunks(total)
                    &&& sent.last().1.status == CfuOfferResponseStatus::Success
                    &&& sent.last().1.sequence == spec_last_seq(total)
                }
                &&& verdict == Err::<OfferOutcome, CfuProtocolError>(
                    CfuProtocolError::TimeoutError(cid),
                ) ==> spec_offer_run(offers, busy_retry_limit as int, cid) == Err::<
                    OfferOutcome,
                    CfuProtocolError,
                >(CfuProtocolError::TimeoutError(cid)) && sent.len() == 0
            }),
    {
        let ghost no_content: Seq<(ContentCommandModel, FwUpdateContentResponse)> = Seq::empty();
        let (verdict, offers) = self.offer_component(writer, offer, busy_retry_limit);
        match verdict {
            Ok(OfferOutcome::Accepted) => {
                let cid = offer.component_info.component_id;
                let (streamed, sent) = self.stream_content(writer, image, cid, base_offset);
                match streamed {
                    Ok(_) => (Ok(OfferOutcome::Accepted), offers, sent),
                    Err(e) => (Err(e), offers, sent),
                }
            },
            Ok(other) => (Ok(other), offers, Ghost(no_content)),
            Err(e) => (Err(e), offers, Ghost(no_content)),
        }
    }

    /// Runs one whole update transaction: announces the transaction and
    /// the offer list, updates each component in turn, and closes the
    /// list. The report holds one entry per component, in order: the
    /// offer verdict, or the error that ended that one component. A
    /// rejected, skipped or failed component does not stop the others;
    /// only a transport failure or an unsupported command ends the
    /// transaction early.
    pub fn update_all_components<W: CfuWriterSync, I: CfuImage>(
        &mut self,
        writer: &mut W,
        items: &Vec<(FwUpdateOfferCommand, I)>,
        busy_retry_limit: usize,
    ) -> (r: Result<Vec<Result<OfferOutcome, CfuProtocolError>>, CfuProtocolError>)
        requires
            forall|j: int|
                0 <= j < items@.len() ==> (#[trigger] items@[j]).1.spec_contents().len()
                    <= usize::MAX && spec_last_seq(items@[j].1.spec_contents().len() as int)
                    <= u16::MAX,
        ensures
            r matches Ok(report) ==> {
                &&& report@.len() == items@.len()
                &&& forall|j: int|
                    0 <= j < report@.len() ==> ((#[trigger] report@[j]) matches Err(e) ==> (e
                        matches CfuProtocolError::UpdateError(_) || e
                        matches CfuProtocolError::TimeoutError(_) || e
                        matches CfuProtocolError::CfuResponseError(_) || e
                        == CfuProtocolError::InvalidBlockTransition))
            },
            r matches Err(e) ==> e matches CfuProtocolError::WriterError(_) || e
                matches CfuProtocolError::CfuStatusError(_) || e == CfuProtocolError::BadResponse,
    {
        let me = *self;
        let resp = match me.start_transaction(writer) {
            Ok(resp) => resp,
            Err(e) => {
                return Err(e);
            },
        };
        if matches!(resp.status, CfuOfferStatus::CmdNotSupported) {
            return Err(CfuProtocolError::CfuStatusError(resp.status));
        }
        let resp = match me.notify_start_offer_list(writer) {
            Ok(resp) => resp,
            Err(e) => {
                return Err(e);
            },
        };
        if matches!(resp.status, CfuOfferStatus::CmdNotSupported) {
            return Err(CfuProtocolError::CfuStatusError(resp.status));
        }
        let mut report: Vec<Result<OfferOutcome, CfuProtocolError>> = Vec::new();
        let mut j: usize = 0;
        while j < items.len()
            invariant
                j <= items@.len(),
                report@.len() == j,
                forall|k: int|
                    0 <= k < items@.len() ==> (#[trigger] items@[k]).1.spec_contents().len()
                        <= usize::MAX && spec_last_seq(items@[k].1.spec_contents().len() as int)
                        <= u16::MAX,
                forall|k: int|
                    0 <= k < report@.len() ==> ((#[trigger] report@[k]) matches Err(e) ==> (e
                        matches CfuProtocolError::UpdateError(_) || e
                        matches CfuProtocolError::TimeoutError(_) || e
                        matches CfuProtocolError::CfuResponseError(_) || e
                        == CfuProtocolError::InvalidBlockTransition)),
            decreases items@.len() - j,
        {
            let item = &items[j];
            let (verdict, _, _) = self.update_component(
                writer,
                &item.1,
                &item.0,
                0,
                busy_retry_limit,
            );
            match verdict {
                Ok(outcome) => report.push(Ok(outcome)),
                Err(CfuProtocolError::WriterError(e)) => {
                    return Err(CfuProtocolError::WriterError(e));
                },
                Err(CfuProtocolError::CfuStatusError(s)) => {
                    return Err(CfuProtocolError::CfuStatusError(s));
                },
                Err(CfuProtocolError::BadResponse) => {
                    return Err(CfuProtocolError::BadResponse);
                },
                Err(e) => report.push(Err(e)),
            }
            j += 1;
        }
        let resp = match me.notify_end_offer_list(writer) {
            Ok(resp) => resp,
            Err(e) => {
                return Err(e);
            },
        };
        if matches!(resp.status, CfuOfferStatus::CmdNotSupported) {
            return Err(CfuProtocolError::CfuStatusError(resp.status));
        }
        Ok(report)
    }

    /// Sends one offer-information frame with the given code under the
    /// given token and decodes the offer response.
    pub fn send_offer_information<W: CfuWriterSync>(
        self,
        writer: &mut W,
        code: InformationCodeValues,
        token: HostToken,
    ) -> (r: Result<FwUpdateOfferResponse, CfuProtocolError>)
        ensures
            r matches Err(e) ==> e matches CfuProtocolError::WriterError(_),
    {
        let frame = FwUpdateOfferInformation::new(code, token);
        let bytes = frame.encode();
        let mut resp_buf = zeroed_vec(SHORT_FRAME_SIZE);
        match writer.cfu_write_read(Some(0), bytes.as_slice(), &mut resp_buf) {
            Ok(()) => (),
            Err(e) => {
                return Err(CfuProtocolError::WriterError(e));
            },
        }
        match FwUpdateOfferResponse::decode(resp_buf.as_slice()) {
            Ok(resp) => Ok(resp),
            Err(_) => Err(CfuProtocolError::WriterError(CfuWriterError::ByteConversionError)),
        }
    }
}

/// The transaction phases a CFU host announces to the primary component,
/// and the check that ends a transaction.
pub trait CfuHostStates {
    /// Announces that the host is initialized and a transaction begins.
    fn start_transaction<W: CfuWriterSync>(self, writer: &mut W) -> (r: Result<
        FwUpdateOfferResponse,
        CfuProtocolError,
    >)
        ensures
            r matches Err(e) ==> e matches CfuProtocolError::WriterError(_),
    ;

    /// Announces that the offers of this transaction begin.
    fn notify_start_offer_list<W: CfuWriterSync>(self, writer: &mut W) -> (r: Result<
        FwUpdateOfferResponse,
        CfuProtocolError,
    >)
        ensures
            r matches Err(e) ==> e matches CfuProtocolError::WriterError(_),
    ;

    /// Announces that all offers of this transaction were sent.
    fn notify_end_offer_list<W: CfuWriterSync>(self, writer: &mut W) -> (r: Result<
        FwUpdateOfferResponse,
        CfuProtocolError,
    >)
        ensures
            r matches Err(e) ==> e matches CfuProtocolError::WriterError(_),
    ;

    /// Whether every response of a slice reports an accepted, finished
    /// update.
    fn verify_all_updates_completed(offer_responses: &[FwUpdateOfferResponse]) -> (r: Result<
        bool,
        CfuProtocolError,
    >)
        ensures
            r matches Ok(b) && (b <==> forall|j: int|
                0 <= j < offer_responses@.len()
                    ==> (#[trigger] offer_responses@[j]).status == CfuOfferStatus::Accept),
    ;
}

impl CfuHostStates for CfuUpdater {
    /// Sends the start-entire-transaction information frame under the
    /// driver token.
    fn start_transaction<W: CfuWriterSync>(self, writer: &mut W) -> (r: Result<
        FwUpdateOfferResponse,
        CfuProtocolError,
    >)
        ensures
            r matches Err(e) ==> e matches CfuProtocolError::WriterError(_),
    {
        self.send_offer_information(
            writer,
            InformationCodeValues::StartEntireTransaction,
            HostToken::Driver,
        )
    }

    /// Sends the start-offer-list information frame under the driver
    /// token.
    fn notify_start_offer_list<W: CfuWriterSync>(self, writer: &mut W) -> (r: Result<
        FwUpdateOfferResponse,
        CfuProtocolError,
    >)
        ensures
            r matches Err(e) ==> e matches CfuProtocolError::WriterError(_),
    {
        self.send_offer_information(
            writer,
            InformationCodeValues::StartOfferList,
            HostToken::Driver,
        )
    }

    /// Sends the end-offer-list information frame under the driver token.
    fn notify_end_offer_list<W: CfuWriterSync>(self, writer: &mut W) -> (r: Result<
        FwUpdateOfferResponse,
        CfuProtocolError,
    >)
        ensures
            r matches Err(e) ==> e matches CfuProtocolError::WriterError(_),
    {
        self.send_offer_information(writer, InformationCodeValues::EndOfferList, HostToken::Driver)
    }

    fn verify_all_updates_completed(offer_responses: &[FwUpdateOfferResponse]) -> (r: Result<
        bool,
        CfuProtocolError,
    >)
        ensures
            r matches Ok(b) && (b <==> forall|j: int|
                0 <= j < offer_responses@.len()
                    ==> (#[trigger] offer_responses@[j]).status == CfuOfferStatus::Accept),
    {
        let mut i: usize = 0;
        while i < offer_responses.len()
            invariant
                i <= offer_responses@.len(),
                forall|j: int|
                    0 <= j < i ==> (#[trigger] offer_responses@[j]).status
                        == CfuOfferStatus::Accept,
            decreases offer_responses@.len() - i,
        {
            if !matches!(offer_responses[i].status, CfuOfferStatus::Accept) {
                return Ok(false);
            }
            i += 1;
        }
        Ok(true)
    }
}

/// Content streaming capability of a CFU host: send the blocks of an
/// accepted offer to a component through a writer.
pub trait CfuUpdateContent<W: CfuWriterSync> {
    /// Streams the whole image to one component; chunk `j + 1` is sent
    /// only after the success response for chunk `j`. On success the
    /// returned response carries the last chunk's sequence number.
    fn write_data_chunks<I: CfuImage>(
        &mut self,
        writer: &mut W,
        image: &I,
        cmpt_id: ComponentId,
        base_offset: usize,
    ) -> (r: Result<FwUpdateContentResponse, CfuProtocolError>)
        requires
            base_offset + image.spec_contents().len() <= usize::MAX,
            spec_last_seq(image.spec_contents().len() as int) <= u16::MAX,
        ensures
            r matches Ok(resp) ==> resp.status == CfuOfferResponseStatus::Success
                && resp.sequence == spec_last_seq(image.spec_contents().len() as int),
            r matches Err(e) ==> e matches CfuProtocolError::WriterError(_) || e
                matches CfuProtocolError::CfuResponseError(_) || e
                == CfuProtocolError::InvalidBlockTransition,
    ;

    /// Builds and sends the first content block: first-block flag,
    /// sequence number zero, a full 52-byte payload. The ghost record is
    /// the command that went out. A transport failure surfaces with its
    /// own kind; an undecodable response is a byte conversion error.
    fn process_first_data_block(&mut self, w: &mut W, chunk: DataChunk) -> (r: (
        Result<FwUpdateContentResponse, CfuWriterError>,
        Ghost<ContentCommandModel>,
    ))
        ensures
            r.1@ == (ContentCommandModel {
                flags: FwUpdateFlags::FirstBlock,
                data_length: DEFAULT_DATA_LENGTH as u8,
                sequence_num: 0,
                firmware_address: 0,
                data: chunk@,
            }),
    ;

    /// Builds and sends a middle content block: no flags, the given
    /// sequence number, a full 52-byte payload. The ghost record is the
    /// command that went out.
    fn process_middle_data_block(&mut self, w: &mut W, chunk: DataChunk, seq_num: usize) -> (r: (
        Result<FwUpdateContentResponse, CfuWriterError>,
        Ghost<ContentCommandModel>,
    ))
        requires
            seq_num <= u16::MAX,
            seq_num * DEFAULT_DATA_LENGTH <= usize::MAX,
        ensures
            r.1@ == (ContentCommandModel {
                flags: FwUpdateFlags::NoFlags,
                data_length: DEFAULT_DATA_LENGTH as u8,
                sequence_num: seq_num as u16,
                firmware_address: 0,
                data: chunk@,
            }),
    ;

    /// Builds and sends the last content block: last-block flag, the
    /// given sequence number. The ghost record is the command that went
    /// out. The helper cannot know the true remainder length from its
    /// arguments, so it declares the full 52-byte payload; the streaming
    /// engine, which knows the image size, writes the true length on the
    /// last block.
    fn process_last_data_block(&mut self, w: &mut W, chunk: DataChunk, seq_num: usize) -> (r: (
        Result<FwUpdateContentResponse, CfuWriterError>,
        Ghost<ContentCommandModel>,
    ))
        requires
            seq_num <= u16::MAX,
            seq_num * DEFAULT_DATA_LENGTH <= usize::MAX,
        ensures
            r.1@ == (ContentCommandModel {
                flags: FwUpdateFlags::LastBlock,
                data_length: DEFAULT_DATA_LENGTH as u8,
                sequence_num: seq_num as u16,
                firmware_address: 0,
                data: chunk@,
            }),
    ;
}

impl<W: CfuWriterSync> CfuUpdateContent<W> for CfuUpdater {
    fn write_data_chunks<I: CfuImage>(
        &mut self,
        writer: &mut W,
        image: &I,
        cmpt_id: ComponentId,
        base_offset: usize,
    ) -> (r: Result<FwUpdateContentResponse, CfuProtocolError>) {
        let out = self.stream_content(writer, image, cmpt_id, base_offset);
        out.0
    }

    fn process_first_data_block(&mut self, w: &mut W, chunk: DataChunk) -> (r: (
        Result<FwUpdateContentResponse, CfuWriterError>,
        Ghost<ContentCommandModel>,
    )) {
        let cmd = FwUpdateContentCommand {
            header: FwUpdateContentHeader {
                flags: FwUpdateFlags::FirstBlock,
                data_length: DEFAULT_DATA_LENGTH as u8,
                sequence_num: 0,
                firmware_address: 0,
            },
            data: chunk,
        };
        let result = self.send_content_block(w, &cmd, 0);
        (result, Ghost(cmd@))
    }

    fn process_middle_data_block(&mut self, w: &mut W, chunk: DataChunk, seq_num: usize) -> (r: (
        Result<FwUpdateContentResponse, CfuWriterError>,
        Ghost<ContentCommandModel>,
    )) {
        let cmd = FwUpdateContentCommand {
            header: FwUpdateContentHeader {
                flags: FwUpdateFlags::NoFlags,
                data_length: DEFAULT_DATA_LENGTH as u8,
                sequence_num: seq_num as u16,
                firmware_address: 0,
            },
            data: chunk,
        };
        let result = self.send_content_block(w, &cmd, seq_num * DEFAULT_DATA_LENGTH);
        (result, Ghost(cmd@))
    }

    fn process_last_data_block(&mut self, w: &mut W, chunk: DataChunk, seq_num: usize) -> (r: (
        Result<FwUpdateContentResponse, CfuWriterError>,
        Ghost<ContentCommandModel>,
    )) {
        let cmd = FwUpdateContentCommand {
            header: FwUpdateContentHeader {
                flags: FwUpdateFlags::LastBlock,
                data_length: DEFAULT_DATA_LENGTH as u8,
                sequence_num: seq_num as u16,
                firmware_address: 0,
            },
            data: chunk,
        };
        let result = self.send_content_block(w, &cmd, seq_num * DEFAULT_DATA_LENGTH);
        (result, Ghost(cmd@))
    }
}

} // verus!
