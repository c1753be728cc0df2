use cfu_protocol::host::CfuHostStates;
use cfu_protocol::host::CfuUpdateContent;
use cfu_protocol::host::CfuUpdater;
use cfu_protocol::host::OfferOutcome;
use cfu_protocol::protocol_definitions::CfuOfferResponseStatus;
use cfu_protocol::protocol_definitions::CfuProtocolError;
use cfu_protocol::protocol_definitions::CfuOfferStatus;
use cfu_protocol::protocol_definitions::FwUpdateOfferCommand;
use cfu_protocol::protocol_definitions::FwUpdateOfferResponse;
use cfu_protocol::protocol_definitions::FwVersion;
use cfu_protocol::protocol_definitions::HostToken;
use cfu_protocol::protocol_definitions::RejectReason;
use cfu_protocol::writer::CfuWriterError;
use cfu_protocol::writer::CfuWriterNop;
use cfu_protocol::writer::CfuWriterSync;
use cfu_protocol::MemoryImage;

/// A transport that records every request and answers from a script.
struct ScriptedWriter {
    sent: Vec<Vec<u8>>,
    offsets: Vec<Option<usize>>,
    responses: Vec<Vec<u8>>,
    next: usize,
}

impl ScriptedWriter {
    fn new(responses: Vec<Vec<u8>>) -> Self {
        ScriptedWriter { sent: Vec::new(), offsets: Vec::new(), responses, next: 0 }
    }
}

impl CfuWriterSync for ScriptedWriter {
    fn cfu_write_read(
        &mut self,
        mem_offset: Option<usize>,
        data: &[u8],
        read: &mut Vec<u8>,
    ) -> Result<(), CfuWriterError> {
        self.sent.push(data.to_vec());
        self.offsets.push(mem_offset);
        let resp = &self.responses[self.next];
        self.next += 1;
        for k in 0..read.len() {
            read[k] = resp[k];
        }
        Ok(())
    }

    fn cfu_read(&mut self, _mem_offset: Option<usize>, _read: &mut Vec<u8>) -> Result<
        (),
        CfuWriterError,
    > {
        Ok(())
    }

    fn cfu_write(&mut self, _mem_offset: Option<usize>, data: &[u8]) -> Result<
        (),
        CfuWriterError,
    > {
        self.sent.push(data.to_vec());
        Ok(())
    }

    fn cfu_storage(&mut self, _mem_offset: usize, _data: &[u8]) -> Result<(), CfuWriterError> {
        Ok(())
    }
}

/// An image over the bytes `0, 1, 2, ...`: every payload byte then tells
/// which image offset it was read from.
fn counting_image(len: usize) -> MemoryImage {
    MemoryImage::new((0..len).map(|k| k as u8).collect())
}

fn offer_response_bytes(status: u8, reason: u8) -> Vec<u8> {
    let mut b = vec![0u8; 16];
    b[3] = 0xA0;
    b[8] = reason;
    b[12] = status;
    b
}

fn content_response_bytes(sequence: u16, status: u8) -> Vec<u8> {
    let mut b = vec![0u8; 16];
    b[0] = (sequence % 0x100) as u8;
    b[1] = (sequence / 0x100) as u8;
    b[4] = status;
    b
}

fn offer_for(component_id: u8) -> FwUpdateOfferCommand {
    FwUpdateOfferCommand::new(
        HostToken::Driver,
        component_id,
        FwVersion { major: 1, minor: 2, variant: 3 },
        0,
        0,
    )
}

#[test]
fn single_chunk_image_full_transaction() {
    let accept = offer_response_bytes(0x01, 0x00);
    let responses = vec![
        accept.clone(), // start entire transaction
        accept.clone(), // start offer list
        accept.clone(), // the offer itself
        content_response_bytes(0, 0x00),
        accept.clone(), // end offer list
    ];
    let mut w = ScriptedWriter::new(responses);
    let mut updater = CfuUpdater {};
    let image = counting_image(40);

    let r = updater.start_transaction(&mut w);
    assert_eq!(r.unwrap().status, CfuOfferStatus::Accept);
    let r = updater.notify_start_offer_list(&mut w);
    assert_eq!(r.unwrap().status, CfuOfferStatus::Accept);
    let (verdict, _, _) = updater.update_component(&mut w, &image, &offer_for(1), 0, 3);
    assert_eq!(verdict, Ok(OfferOutcome::Accepted));
    let r = updater.notify_end_offer_list(&mut w);
    assert_eq!(r.unwrap().status, CfuOfferStatus::Accept);

    // frame 0: start entire transaction
    assert_eq!(w.sent[0], vec![0x00, 0, 0xFF, 0xA0, 0, 0, 0, 0, 0, 0, 0, 0, 0, 0, 0, 0]);
    // frame 1: start offer list
    assert_eq!(w.sent[1], vec![0x01, 0, 0xFF, 0xA0, 0, 0, 0, 0, 0, 0, 0, 0, 0, 0, 0, 0]);
    // frame 2: the 32-byte offer for component 1, version 1.2.3
    assert_eq!(w.sent[2][..8], [0x00, 0x00, 0x01, 0xA0, 0x03, 0x02, 0x00, 0x01]);
    assert_eq!(w.sent[2].len(), 32);
    // frame 3: one content command, first and last block, 40 data bytes
    // then 12 zeros
    let content = &w.sent[3];
    assert_eq!(content.len(), 60);
    assert_eq!(content[0], 0xC0);
    assert_eq!(content[1], 40);
    assert_eq!(&content[2..4], &[0, 0]);
    let expected_data: Vec<u8> = (0..40u8).chain(std::iter::repeat(0).take(12)).collect();
    assert_eq!(&content[8..60], &expected_data[..]);
    // frame 4: end offer list
    assert_eq!(w.sent[4], vec![0x02, 0, 0xFF, 0xA0, 0, 0, 0, 0, 0, 0, 0, 0, 0, 0, 0, 0]);
}

#[test]
fn exact_multiple_streams_two_chunks() {
    let responses = vec![content_response_bytes(0, 0x00), content_response_bytes(1, 0x00)];
    let mut w = ScriptedWriter::new(responses);
    let mut updater = CfuUpdater {};
    let image = counting_image(104);

    let resp = updater.write_data_chunks(&mut w, &image, 1, 0).unwrap();
    assert_eq!(resp.sequence, 1);

    assert_eq!(w.sent.len(), 2);
    assert_eq!(w.sent[0][0], 0x80);
    assert_eq!(&w.sent[0][2..4], &[0, 0]);
    assert_eq!(w.sent[1][0], 0x40);
    assert_eq!(&w.sent[1][2..4], &[1, 0]);
    assert_eq!(w.sent[0][1], 52);
    assert_eq!(w.sent[1][1], 52);
    // chunk i carries the image bytes read at offset i * 52
    let chunk0: Vec<u8> = (0..52u8).collect();
    let chunk1: Vec<u8> = (52..104u8).collect();
    assert_eq!(&w.sent[0][8..60], &chunk0[..]);
    assert_eq!(&w.sent[1][8..60], &chunk1[..]);
}

#[test]
fn mid_stream_failure_stops_the_stream() {
    let responses = vec![
        content_response_bytes(0, 0x00),
        content_response_bytes(1, 0x02), // write error
        content_response_bytes(2, 0x00), // must never be requested
    ];
    let mut w = ScriptedWriter::new(responses);
    let mut updater = CfuUpdater {};
    let image = counting_image(156);

    let r = updater.write_data_chunks(&mut w, &image, 9, 0);
    assert_eq!(
        r,
        Err(CfuProtocolError::CfuResponseError(CfuOfferResponseStatus::ErrorWrite))
    );
    // sequence 2 was never sent
    assert_eq!(w.sent.len(), 2);
}

#[test]
fn busy_twice_then_accept_proceeds() {
    let responses = vec![
        offer_response_bytes(0x03, 0x00),
        offer_response_bytes(0x03, 0x00),
        offer_response_bytes(0x01, 0x00),
    ];
    let mut w = ScriptedWriter::new(responses);
    let mut updater = CfuUpdater {};
    let offer = offer_for(2);

    let (verdict, _) = updater.offer_component(&mut w, &offer, 3);
    assert_eq!(verdict, Ok(OfferOutcome::Accepted));
    // the same offer was sent three times
    assert_eq!(w.sent.len(), 3);
    assert_eq!(w.sent[0], w.sent[1]);
    assert_eq!(w.sent[1], w.sent[2]);
}

#[test]
fn busy_to_the_limit_times_out() {
    let responses = vec![
        offer_response_bytes(0x03, 0x00),
        offer_response_bytes(0x03, 0x00),
        offer_response_bytes(0x03, 0x00),
        offer_response_bytes(0x01, 0x00), // must never be requested
    ];
    let mut w = ScriptedWriter::new(responses);
    let mut updater = CfuUpdater {};
    let offer = offer_for(2);

    let (verdict, _) = updater.offer_component(&mut w, &offer, 3);
    assert_eq!(verdict, Err(CfuProtocolError::TimeoutError(2)));
    assert_eq!(w.sent.len(), 3);
}

#[test]
fn reject_oldfw_skips_content_streaming() {
    let responses = vec![offer_response_bytes(0x02, 0x00)];
    let mut w = ScriptedWriter::new(responses);
    let mut updater = CfuUpdater {};
    let image = counting_image(104);

    let (verdict, _, _) = updater.update_component(&mut w, &image, &offer_for(5), 0, 3);
    assert_eq!(verdict, Ok(OfferOutcome::Rejected(RejectReason::RejectOldFw)));
    // only the offer itself went out: no content command
    assert_eq!(w.sent.len(), 1);
    assert_eq!(w.sent[0].len(), 32);
}

#[test]
fn skip_moves_on_without_content() {
    let responses = vec![offer_response_bytes(0x00, 0x00)];
    let mut w = ScriptedWriter::new(responses);
    let mut updater = CfuUpdater {};
    let image = counting_image(104);

    let (verdict, _, _) = updater.update_component(&mut w, &image, &offer_for(5), 0, 3);
    assert_eq!(verdict, Ok(OfferOutcome::Skipped));
    assert_eq!(w.sent.len(), 1);
}

#[test]
fn cmd_not_supported_is_fatal() {
    let responses = vec![offer_response_bytes(0xFF, 0x00)];
    let mut w = ScriptedWriter::new(responses);
    let mut updater = CfuUpdater {};

    let (verdict, _) = updater.offer_component(&mut w, &offer_for(5), 3);
    assert_eq!(
        verdict,
        Err(CfuProtocolError::CfuStatusError(CfuOfferStatus::CmdNotSupported))
    );
}

#[test]
fn sequence_mismatch_reports_invalid_block_transition() {
    let responses = vec![
        content_response_bytes(0, 0x00),
        content_response_bytes(1, 0x00),
        content_response_bytes(2, 0x00),
        content_response_bytes(2, 0x00), // echoes 2 instead of 3
    ];
    let mut w = ScriptedWriter::new(responses);
    let mut updater = CfuUpdater {};
    let image = counting_image(208);

    let r = updater.write_data_chunks(&mut w, &image, 1, 0);
    assert_eq!(r, Err(CfuProtocolError::InvalidBlockTransition));
    assert_eq!(w.sent.len(), 4);
}

#[test]
fn base_offset_shifts_every_chunk_read() {
    let responses = vec![content_response_bytes(0, 0x00), content_response_bytes(1, 0x00)];
    let mut w = ScriptedWriter::new(responses);
    let mut updater = CfuUpdater {};
    let image = counting_image(60);

    let r = updater.write_data_chunks(&mut w, &image, 1, 10);
    assert!(r.is_ok());
    // chunk 0 reads at offset 10: bytes 10..60 of the image, zero-padded;
    // chunk 1 reads at offset 62, wholly past the end: zeros
    let chunk0: Vec<u8> = (10..60u8).chain(std::iter::repeat(0).take(2)).collect();
    assert_eq!(&w.sent[0][8..60], &chunk0[..]);
    assert!(w.sent[1][8..60].iter().all(|b| *b == 0));
    assert_eq!(w.sent[1][1], 8); // the last chunk's true payload length
}

#[test]
fn undecodable_response_maps_to_byte_conversion_error() {
    let mut bad = vec![0u8; 16];
    bad[4] = 0x77; // not a content status
    let responses = vec![bad];
    let mut w = ScriptedWriter::new(responses);
    let mut updater = CfuUpdater {};
    let image = counting_image(10);

    let r = updater.write_data_chunks(&mut w, &image, 1, 0);
    assert_eq!(
        r,
        Err(CfuProtocolError::WriterError(CfuWriterError::ByteConversionError))
    );
}

/// A transport whose round trips always fail.
struct BrokenWriter;

impl CfuWriterSync for BrokenWriter {
    fn cfu_write_read(
        &mut self,
        _mem_offset: Option<usize>,
        _data: &[u8],
        _read: &mut Vec<u8>,
    ) -> Result<(), CfuWriterError> {
        Err(CfuWriterError::Other)
    }

    fn cfu_read(&mut self, _mem_offset: Option<usize>, _read: &mut Vec<u8>) -> Result<
        (),
        CfuWriterError,
    > {
        Err(CfuWriterError::Other)
    }

    fn cfu_write(&mut self, _mem_offset: Option<usize>, _data: &[u8]) -> Result<
        (),
        CfuWriterError,
    > {
        Err(CfuWriterError::Other)
    }

    fn cfu_storage(&mut self, _mem_offset: usize, _data: &[u8]) -> Result<(), CfuWriterError> {
        Err(CfuWriterError::Other)
    }
}

#[test]
fn transport_failure_surfaces_as_writer_error() {
    let mut w = BrokenWriter;
    let mut updater = CfuUpdater {};
    let image = counting_image(40);

    let r = updater.write_data_chunks(&mut w, &image, 1, 0);
    assert_eq!(r, Err(CfuProtocolError::WriterError(CfuWriterError::Other)));
    let (verdict, _) = updater.offer_component(&mut w, &offer_for(1), 3);
    assert_eq!(verdict, Err(CfuProtocolError::WriterError(CfuWriterError::Other)));
    let r = updater.start_transaction(&mut w);
    assert_eq!(r, Err(CfuProtocolError::WriterError(CfuWriterError::Other)));
    // the block helpers hand the transport's own kind through
    let (r, _) = updater.process_first_data_block(&mut w, [0u8; 52]);
    assert_eq!(r, Err(CfuWriterError::Other));
}

#[test]
fn verify_all_updates_completed_checks_every_status() {
    let all_accept = vec![
        FwUpdateOfferResponse::new_accept(HostToken::Driver),
        FwUpdateOfferResponse::new_accept(HostToken::Tool),
    ];
    assert_eq!(CfuUpdater::verify_all_updates_completed(&all_accept), Ok(true));

    let mixed = vec![
        FwUpdateOfferResponse::new_accept(HostToken::Driver),
        FwUpdateOfferResponse::new_with_failure(
            HostToken::Driver,
            RejectReason::RejectOldFw,
            CfuOfferStatus::Reject,
        ),
    ];
    assert_eq!(CfuUpdater::verify_all_updates_completed(&mixed), Ok(false));
    let none: Vec<FwUpdateOfferResponse> = Vec::new();
    assert_eq!(CfuUpdater::verify_all_updates_completed(&none), Ok(true));
}

#[test]
fn transaction_report_carries_one_verdict_per_component() {
    let accept = offer_response_bytes(0x01, 0x00);
    let responses = vec![
        accept.clone(),                  // start entire transaction
        accept.clone(),                  // start offer list
        offer_response_bytes(0x02, 0x00), // first offer: reject, old firmware
        accept.clone(),                  // second offer
        content_response_bytes(0, 0x00),
        content_response_bytes(1, 0x00),
        accept.clone(), // end offer list
    ];
    let mut w = ScriptedWriter::new(responses);
    let mut updater = CfuUpdater {};
    let items = vec![
        (offer_for(1), counting_image(40)),
        (offer_for(2), counting_image(104)),
    ];

    let report = updater.update_all_components(&mut w, &items, 3).unwrap();
    assert_eq!(
        report,
        vec![
            Ok(OfferOutcome::Rejected(RejectReason::RejectOldFw)),
            Ok(OfferOutcome::Accepted),
        ]
    );
    // the rejected component got no content command: offers at frames 2
    // and 3, content only for the second component
    assert_eq!(w.sent.len(), 7);
    assert_eq!(w.sent[2][2], 1); // offer for component 1
    assert_eq!(w.sent[3][2], 2); // offer for component 2
    assert_eq!(w.sent[4].len(), 60);
    assert_eq!(w.sent[5].len(), 60);
    assert_eq!(w.sent[6][0], 0x02); // end offer list
}

#[test]
fn transaction_keeps_going_past_a_failed_component() {
    let accept = offer_response_bytes(0x01, 0x00);
    let responses = vec![
        accept.clone(),                   // start entire transaction
        accept.clone(),                   // start offer list
        accept.clone(),                   // first offer accepted
        content_response_bytes(0, 0x03),  // completion error on its block
        accept.clone(),                   // second offer
        content_response_bytes(0, 0x00),  // its single block succeeds
        accept.clone(),                   // end offer list
    ];
    let mut w = ScriptedWriter::new(responses);
    let mut updater = CfuUpdater {};
    let items = vec![
        (offer_for(1), counting_image(40)),
        (offer_for(2), counting_image(40)),
    ];

    let report = updater.update_all_components(&mut w, &items, 3).unwrap();
    assert_eq!(
        report,
        vec![
            Err(CfuProtocolError::CfuResponseError(CfuOfferResponseStatus::ErrorComplete)),
            Ok(OfferOutcome::Accepted),
        ]
    );
}

#[test]
fn nop_writer_accepts_everything() {
    let mut w = CfuWriterNop;
    let mut read = vec![0u8; 4];
    assert!(w.cfu_write_read(None, &[1, 2], &mut read).is_ok());
    assert!(w.cfu_read(Some(0), &mut read).is_ok());
    assert!(w.cfu_write(None, &[1, 2]).is_ok());
    assert!(w.cfu_storage(0, &[1, 2]).is_ok());
}

#[test]
fn process_block_helpers_send_fixed_headers() {
    let responses = vec![
        content_response_bytes(0, 0x00),
        content_response_bytes(1, 0x00),
        content_response_bytes(2, 0x00),
    ];
    let mut w = ScriptedWriter::new(responses);
    let mut updater = CfuUpdater {};
    let chunk = [7u8; 52];

    let (r, _) = updater.process_first_data_block(&mut w, chunk);
    assert_eq!(r.unwrap().sequence, 0);
    let (r, _) = updater.process_middle_data_block(&mut w, chunk, 1);
    assert_eq!(r.unwrap().sequence, 1);
    let (r, _) = updater.process_last_data_block(&mut w, chunk, 2);
    assert_eq!(r.unwrap().sequence, 2);

    assert_eq!(w.sent[0][0], 0x80);
    assert_eq!(w.sent[1][0], 0x00);
    assert_eq!(w.sent[2][0], 0x40);
    assert_eq!(&w.sent[1][2..4], &[1, 0]);
    assert_eq!(w.offsets[2], Some(104));
    assert!(w.sent.iter().all(|f| f.len() == 60 && f[1] == 52));
}
