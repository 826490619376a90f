use codec_stream::buffer::PartialBuffer;
use codec_stream::codec::{CodecError, Encode};
use codec_stream::flate::FlateEncoder;

fn inflate_all(data: &[u8], zlib_header: bool, cap: usize) -> Vec<u8> {
    let mut d = flate2::Decompress::new(zlib_header);
    let mut out = vec![0u8; cap];
    let status = d
        .decompress(data, &mut out, flate2::FlushDecompress::Finish)
        .expect("inflate failed");
    assert!(matches!(status, flate2::Status::StreamEnd));
    out.truncate(d.total_out() as usize);
    out
}

#[test]
fn flush_twice_emits_no_second_boundary() {
    let mut enc = FlateEncoder::new(6, true);
    let mut input = PartialBuffer::new(b"some bytes to buffer".to_vec());
    let mut output = PartialBuffer::new(vec![0u8; 256]);
    enc.encode(&mut input, &mut output).expect("encode failed");

    let done = enc.flush(&mut output).expect("first flush failed");
    assert!(done);
    let after_first = output.written_len();
    assert!(after_first > 0);

    let done_again = enc.flush(&mut output).expect("second flush failed");
    assert!(done_again);
    assert_eq!(output.written_len(), after_first);
}

#[test]
fn flush_on_fresh_codec_is_a_no_op() {
    let mut enc = FlateEncoder::new(6, true);
    let mut output = PartialBuffer::new(vec![0u8; 64]);
    let done = enc.flush(&mut output).expect("flush failed");
    assert!(done);
    assert_eq!(output.written_len(), 0);
}

#[test]
fn encode_then_finish_round_trips() {
    let payload = b"the quick brown fox jumps over the lazy dog".to_vec();
    let mut enc = FlateEncoder::new(6, true);
    let mut input = PartialBuffer::new(payload.clone());
    let mut output = PartialBuffer::new(vec![0u8; 512]);
    enc.encode(&mut input, &mut output).expect("encode failed");
    assert_eq!(input.written_len(), payload.len());

    let done = enc.finish(&mut output).expect("finish failed");
    assert!(done);
    let produced = output.into_written();
    assert!(!produced.is_empty());
    assert_ne!(produced, payload);
    assert_eq!(inflate_all(&produced, true, 4096), payload);
}

#[test]
fn finish_with_one_byte_polls_completes_eventually() {
    let payload = b"abcdabcdabcdabcdabcdabcd".to_vec();
    let mut enc = FlateEncoder::new(6, false);
    let mut input = PartialBuffer::new(payload.clone());
    let mut big = PartialBuffer::new(vec![0u8; 128]);
    enc.encode(&mut input, &mut big).expect("encode failed");
    let mut produced = big.into_written();

    let mut rounds = 0usize;
    loop {
        let mut out = PartialBuffer::new(vec![0u8; 1]);
        let done = enc.finish(&mut out).expect("finish failed");
        produced.extend(out.into_written());
        rounds += 1;
        assert!(rounds < 10_000, "finish made no progress");
        if done {
            break;
        }
    }
    assert_eq!(inflate_all(&produced, false, 4096), payload);
}

#[test]
fn empty_session_raw_frame_is_shorter_than_zlib_frame() {
    let mut raw_out = PartialBuffer::new(vec![0u8; 64]);
    let mut raw = FlateEncoder::new(6, false);
    assert!(raw.finish(&mut raw_out).expect("finish failed"));
    let raw_frame = raw_out.into_written();

    let mut zlib_out = PartialBuffer::new(vec![0u8; 64]);
    let mut zlib = FlateEncoder::new(6, true);
    assert!(zlib.finish(&mut zlib_out).expect("finish failed"));
    let zlib_frame = zlib_out.into_written();

    assert!(!raw_frame.is_empty());
    assert!(raw_frame.len() < zlib_frame.len());
    assert_eq!(inflate_all(&raw_frame, false, 64), Vec::<u8>::new());
    assert_eq!(inflate_all(&zlib_frame, true, 64), Vec::<u8>::new());
}

#[test]
fn empty_input_transform_is_benign() {
    // nothing owed with no input: not a starvation fault
    let mut enc = FlateEncoder::new(6, true);
    let mut input = PartialBuffer::new(Vec::new());
    let mut output = PartialBuffer::new(vec![0u8; 16]);
    assert_eq!(enc.encode(&mut input, &mut output), Ok(()));
    assert_eq!(input.written_len(), 0);
    assert_eq!(output.written_len(), 0);
}

#[test]
fn transform_after_session_end_reports_starvation() {
    let mut enc = FlateEncoder::new(6, true);
    let mut output = PartialBuffer::new(vec![0u8; 64]);
    assert!(enc.finish(&mut output).expect("finish failed"));
    // the session is over: the engine refuses further work outright
    let mut late_in = PartialBuffer::new(b"more".to_vec());
    let mut late_out = PartialBuffer::new(vec![0u8; 16]);
    assert_eq!(enc.encode(&mut late_in, &mut late_out), Err(CodecError::Starved));
}
