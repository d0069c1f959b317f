use shell_relay::buffer::WriterBuffer;
use shell_relay::stream::{classify_read, classify_write, IoFailure, ReadOutcome, WriteOutcome};
use shell_relay::translate::{do_translate, translate_buffer, LineEndingTranslation};

#[test]
fn lf_to_crlf_inserts_carriage_returns() {
    let out = do_translate(b"a\nb\n".to_vec(), LineEndingTranslation::LFtoCRLF);
    assert_eq!(out, b"a\r\nb\r\n".to_vec());
}

#[test]
fn lf_to_crlf_adds_a_second_cr_to_crlf() {
    let out = do_translate(b"x\r\n".to_vec(), LineEndingTranslation::LFtoCRLF);
    assert_eq!(out, b"x\r\r\n".to_vec());
    let twice = do_translate(out.clone(), LineEndingTranslation::LFtoCRLF);
    assert_ne!(twice, out);
}

#[test]
fn lf_to_crlf_is_idempotent_without_line_feeds() {
    let once = do_translate(b"plain\rtext".to_vec(), LineEndingTranslation::LFtoCRLF);
    assert_eq!(once, b"plain\rtext".to_vec());
    let twice = do_translate(once.clone(), LineEndingTranslation::LFtoCRLF);
    assert_eq!(twice, once);
}

#[test]
fn lf_to_crlf_round_trip_drops_inserted_bytes() {
    let input = b"one\ntwo\n\nthree".to_vec();
    let out = do_translate(input.clone(), LineEndingTranslation::LFtoCRLF);
    let back: Vec<u8> = out.iter().copied().filter(|b| *b != 13).collect();
    assert_eq!(back, input);
    let as_lf = do_translate(out, LineEndingTranslation::CRtoLF);
    assert_eq!(as_lf, b"one\n\ntwo\n\n\n\nthree".to_vec());
}

#[test]
fn cr_to_crlf_duplicates_carriage_returns() {
    let input = b"ls\r\rx".to_vec();
    let out = do_translate(input.clone(), LineEndingTranslation::CRtoCRLF);
    assert_eq!(out, b"ls\r\n\r\nx".to_vec());
    assert!(out.len() >= input.len());
    assert_eq!(out.len(), input.len() + 2);
}

#[test]
fn cr_to_crlf_keeps_other_bytes() {
    let out = do_translate(b"a\nb".to_vec(), LineEndingTranslation::CRtoCRLF);
    assert_eq!(out, b"a\nb".to_vec());
}

#[test]
fn cr_to_lf_replaces_carriage_returns() {
    let out = do_translate(b"ls\r".to_vec(), LineEndingTranslation::CRtoLF);
    assert_eq!(out, vec![0x6c, 0x73, 0x0a]);
}

#[test]
fn identity_keeps_bytes() {
    let out = do_translate(vec![13, 10, 3, 4, 255], LineEndingTranslation::Identity);
    assert_eq!(out, vec![13, 10, 3, 4, 255]);
}

#[test]
fn translation_of_empty_input_is_empty() {
    for t in [
        LineEndingTranslation::Identity,
        LineEndingTranslation::CRtoLF,
        LineEndingTranslation::CRtoCRLF,
        LineEndingTranslation::LFtoCRLF,
    ] {
        assert!(do_translate(Vec::new(), t).is_empty());
    }
}

#[test]
fn translate_buffer_on_a_slice() {
    assert_eq!(translate_buffer(b"\nx\n"), b"\r\nx\r\n".to_vec());
}

#[test]
fn buffer_hands_out_pushed_bytes_in_order() {
    let mut buf = WriterBuffer::new();
    assert!(!buf.has_content());
    assert_eq!(buf.get_next(), None);
    buf.push_into(b"abc".to_vec());
    buf.push_into(b"de".to_vec());
    buf.push(b"f\n".to_vec(), LineEndingTranslation::LFtoCRLF);
    assert_eq!(buf.len(), 8);
    let mut handed = Vec::new();
    for n in [3usize, 1, 0, 4] {
        handed.extend_from_slice(&buf.get_some()[..n]);
        buf.consume(n);
    }
    assert_eq!(handed, b"abcdef\r\n".to_vec());
    assert!(!buf.has_content());
    assert!(buf.get_some().is_empty());
}

#[test]
fn buffer_peeks_front_byte() {
    let mut buf = WriterBuffer::new();
    buf.push_into(vec![3, 7]);
    assert_eq!(buf.get_next(), Some(3));
    buf.consume(1);
    assert_eq!(buf.get_next(), Some(7));
    buf.clear();
    assert_eq!(buf.get_next(), None);
}

#[test]
fn read_of_zero_bytes_is_end_of_stream() {
    assert!(matches!(classify_read(Ok(Vec::new())), Ok(ReadOutcome::EndOfStream)));
}

#[test]
fn read_of_bytes_is_data() {
    match classify_read(Ok(vec![1, 2])) {
        Ok(ReadOutcome::Data(d)) => assert_eq!(d, vec![1, 2]),
        _ => panic!("expected data"),
    }
}

#[test]
fn read_would_block_and_failures() {
    assert!(matches!(classify_read(Err(IoFailure::WouldBlock)), Ok(ReadOutcome::WouldBlock)));
    assert!(matches!(classify_read(Err(IoFailure::Other(5))), Err(IoFailure::Other(5))));
    assert!(matches!(classify_read(Err(IoFailure::BrokenPipe)), Err(IoFailure::BrokenPipe)));
}

#[test]
fn write_outcomes_are_sorted() {
    assert_eq!(classify_write(Ok(7)), Ok(WriteOutcome::Wrote(7)));
    assert_eq!(classify_write(Err(IoFailure::WouldBlock)), Ok(WriteOutcome::WouldBlock));
    assert_eq!(classify_write(Err(IoFailure::BrokenPipe)), Ok(WriteOutcome::BrokenPipe));
    assert_eq!(classify_write(Err(IoFailure::Other(9))), Err(IoFailure::Other(9)));
}

#[test]
fn cr_to_crlf_output_has_lf_after_every_cr() {
    let input = b"\r\ra\n\r".to_vec();
    let out = do_translate(input.clone(), LineEndingTranslation::CRtoCRLF);
    assert_eq!(out, b"\r\n\r\na\n\r\n".to_vec());
    let mut back = Vec::new();
    let mut i = 0;
    while i < out.len() {
        back.push(out[i]);
        if out[i] == 13 {
            assert_eq!(out[i + 1], 10);
            i += 1;
        }
        i += 1;
    }
    assert_eq!(back, input);
}

#[test]
fn buffer_interleaved_pushes_and_consumes_keep_order() {
    let mut buf = WriterBuffer::new();
    let mut handed = Vec::new();
    buf.push_into(b"ab".to_vec());
    handed.extend_from_slice(&buf.get_some()[..1]);
    buf.consume(1);
    buf.push_into(b"cde".to_vec());
    handed.extend_from_slice(&buf.get_some()[..3]);
    buf.consume(3);
    buf.push_into(b"f".to_vec());
    handed.extend_from_slice(&buf.get_some()[..2]);
    buf.consume(2);
    assert_eq!(handed, b"abcdef".to_vec());
    assert!(!buf.has_content());
}
