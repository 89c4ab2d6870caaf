use flate2::read::GzDecoder;
use flate2::{Compress, Compression, FlushCompress, Status};
use gzip_header::{
    compress_gz, gz_header, Action, DeflateConfig, Event, Flush, GzError, GzHeaderData, Input,
};
use std::io::Read;

struct Outcome {
    result: Option<Result<Vec<u8>, GzError>>,
    deflate_calls: usize,
    inits: usize,
    teardowns: usize,
}

fn flush_mode(flush: Flush) -> FlushCompress {
    match flush {
        Flush::NoFlush => FlushCompress::None,
        Flush::SyncFlush => FlushCompress::Sync,
        Flush::FullFlush => FlushCompress::Full,
        Flush::Finish => FlushCompress::Finish,
    }
}

fn acceptable(level: i32, method: i32, window_bits: i32, mem_level: i32, strategy: i32) -> bool {
    let bits = if window_bits < 0 { -window_bits } else { window_bits };
    method == 8
        && (-1..=9).contains(&level)
        && (1..=9).contains(&mem_level)
        && (0..=4).contains(&strategy)
        && (9..=15).contains(&bits)
}

// Performs every action the driver asks for on zlib.
fn encode(input: Input) -> Outcome {
    let mut enc = compress_gz(input);
    let mut engine: Option<Compress> = None;
    let mut out = Outcome { result: None, deflate_calls: 0, inits: 0, teardowns: 0 };
    loop {
        let event = match enc.action() {
            Action::Init { level, method, window_bits, mem_level, strategy } => {
                if acceptable(level, method, window_bits, mem_level, strategy) {
                    let lvl = if level < 0 { Compression::default() } else { Compression::new(level as u32) };
                    let raw = window_bits < 0;
                    let bits = if raw { -window_bits } else { window_bits };
                    engine = Some(Compress::new_with_window_bits(lvl, !raw, bits as u8));
                    out.inits += 1;
                    Event::Status(0)
                } else {
                    Event::Status(-2)
                }
            }
            Action::Bound { source_len } => {
                Event::Bound(source_len + (source_len >> 3) + (source_len >> 8) + 64)
            }
            Action::Deflate { offset: _, len, room, flush } => {
                out.deflate_calls += 1;
                let e = engine.as_mut().unwrap();
                let window = enc.input_window();
                assert_eq!(window.len(), len as usize);
                let mut buf = vec![0u8; room as usize];
                let in_before = e.total_in();
                let out_before = e.total_out();
                let status = match e.compress(window, &mut buf, flush_mode(flush)) {
                    Ok(Status::Ok) => 0,
                    Ok(Status::StreamEnd) => 1,
                    Ok(Status::BufError) => -5,
                    Err(_) => -2,
                };
                let consumed = (e.total_in() - in_before) as u32;
                let written = (e.total_out() - out_before) as usize;
                buf.truncate(written);
                Event::Deflated { status, consumed, produced: buf }
            }
            Action::End => {
                assert!(engine.is_some());
                engine = None;
                out.teardowns += 1;
                Event::Status(0)
            }
            Action::Done => break,
        };
        enc = enc.step(event);
    }
    assert!(engine.is_none());
    out.result = enc.finish();
    out
}

struct Decoded {
    payload: Vec<u8>,
    name: Option<Vec<u8>>,
    comment: Option<Vec<u8>>,
    extra: Option<Vec<u8>>,
    mtime: u32,
    os: u8,
}

fn decode(member: &[u8]) -> Decoded {
    let mut d = GzDecoder::new(member);
    let mut payload = Vec::new();
    d.read_to_end(&mut payload).unwrap();
    let h = d.header().unwrap();
    Decoded {
        payload,
        name: h.filename().map(|b| b.to_vec()),
        comment: h.comment().map(|b| b.to_vec()),
        extra: h.extra().map(|b| b.to_vec()),
        mtime: h.mtime(),
        os: h.operating_system(),
    }
}

fn varied(n: usize) -> Vec<u8> {
    let mut v = Vec::with_capacity(n);
    let mut x: u32 = 12345;
    for i in 0..n {
        x = x.wrapping_mul(1103515245).wrapping_add(12345);
        v.push(if i % 3 == 0 { (x >> 16) as u8 } else { (i % 7) as u8 });
    }
    v
}

fn input_for(source: Vec<u8>, chunk: u64, flush: Flush, header: GzHeaderData) -> Input {
    Input {
        source,
        config: DeflateConfig { level: 6, method: 8, window_bits: 31, mem_level: 8, strategy: 0 },
        chunk,
        flush,
        header,
    }
}

fn bare() -> GzHeaderData {
    GzHeaderData { text: false, time: 0, os: 255, extra: None, name: None, comment: None, hcrc: false }
}

#[test]
fn fixture_decodes_to_the_greeting_and_its_header() {
    let outcome = encode(gz_header());
    let member = outcome.result.unwrap().unwrap();
    let d = decode(&member);
    assert_eq!(d.payload, b"Hello, world!".to_vec());
    assert_eq!(d.name, Some(b"hello_world.gz".to_vec()));
    assert_eq!(d.comment, Some(b"just some random comment".to_vec()));
    assert_eq!(d.extra, Some(b"Hello, world!".to_vec()));
    assert_eq!(d.mtime, 123);
    assert_eq!(d.os, 3);
    assert_eq!(outcome.deflate_calls, 1);
    assert_eq!(outcome.inits, 1);
    assert_eq!(outcome.teardowns, 1);
}

#[test]
fn fixture_member_ends_with_checksum_and_length() {
    let member = encode(gz_header()).result.unwrap().unwrap();
    assert_eq!(&member[member.len() - 8..], &[230, 198, 230, 235, 13, 0, 0, 0]);
    assert_eq!(&member[..4], &[31, 139, 8, 31]);
}

#[test]
fn round_trip_with_every_header_shape() {
    let payload = varied(3000);
    for shape in 0..32u32 {
        let header = GzHeaderData {
            text: shape & 1 != 0,
            hcrc: shape & 2 != 0,
            extra: if shape & 4 != 0 { Some(vec![0, 1, 2, 0, 255]) } else { None },
            name: if shape & 8 != 0 { Some(b"file.txt".to_vec()) } else { None },
            comment: if shape & 16 != 0 { Some(b"a comment".to_vec()) } else { None },
            time: 1_700_000_000 + shape,
            os: shape as u8,
        };
        let expected = header.clone();
        let member = encode(input_for(payload.clone(), 0, Flush::NoFlush, header)).result.unwrap().unwrap();
        let d = decode(&member);
        assert_eq!(d.payload, payload);
        assert_eq!(d.name, expected.name);
        assert_eq!(d.comment, expected.comment);
        assert_eq!(d.extra, expected.extra);
        assert_eq!(d.mtime, expected.time);
        assert_eq!(d.os, expected.os);
        assert_eq!(member[3], shape as u8);
    }
}

#[test]
fn empty_payload_round_trips() {
    let outcome = encode(input_for(Vec::new(), 0, Flush::NoFlush, bare()));
    let member = outcome.result.unwrap().unwrap();
    assert_eq!(&member[..10], &[31, 139, 8, 0, 0, 0, 0, 0, 0, 255]);
    assert_eq!(&member[member.len() - 8..], &[0u8; 8]);
    assert!(member.len() > 18);
    let d = decode(&member);
    assert_eq!(d.payload, Vec::<u8>::new());
    assert_eq!(outcome.teardowns, 1);
}

#[test]
fn payload_longer_than_the_window_round_trips() {
    let payload = varied(5000);
    let outcome = encode(input_for(payload.clone(), 7, Flush::NoFlush, gz_header().header));
    assert!(outcome.deflate_calls > 5000 / 7);
    let member = outcome.result.unwrap().unwrap();
    let d = decode(&member);
    assert_eq!(d.payload, payload);
    assert_eq!(d.name, Some(b"hello_world.gz".to_vec()));
    assert_eq!(outcome.teardowns, 1);
}

#[test]
fn window_of_one_byte_round_trips() {
    let payload = varied(300);
    let outcome = encode(input_for(payload.clone(), 1, Flush::NoFlush, bare()));
    assert!(outcome.deflate_calls >= 300);
    let d = decode(&outcome.result.unwrap().unwrap());
    assert_eq!(d.payload, payload);
}

#[test]
fn chunking_does_not_change_what_is_decoded() {
    let payload = varied(4096);
    let whole = encode(input_for(payload.clone(), 0, Flush::NoFlush, bare())).result.unwrap().unwrap();
    let pieces = encode(input_for(payload.clone(), 100, Flush::NoFlush, bare())).result.unwrap().unwrap();
    assert_eq!(decode(&whole).payload, payload);
    assert_eq!(decode(&pieces).payload, payload);
    assert_eq!(&whole[..10], &pieces[..10]);
    assert_eq!(&whole[whole.len() - 8..], &pieces[pieces.len() - 8..]);
}

#[test]
fn sync_flush_policy_round_trips() {
    let payload = varied(2000);
    let outcome = encode(input_for(payload.clone(), 256, Flush::SyncFlush, bare()));
    let d = decode(&outcome.result.unwrap().unwrap());
    assert_eq!(d.payload, payload);
}

#[test]
fn full_flush_policy_round_trips() {
    let payload = varied(2000);
    let outcome = encode(input_for(payload.clone(), 256, Flush::FullFlush, bare()));
    let d = decode(&outcome.result.unwrap().unwrap());
    assert_eq!(d.payload, payload);
}

#[test]
fn finish_policy_on_chunked_input_is_a_failure_not_a_short_member() {
    let payload = varied(2000);
    let outcome = encode(input_for(payload, 256, Flush::Finish, bare()));
    assert_eq!(outcome.result, Some(Err(GzError::CompressionFailed)));
    assert_eq!(outcome.inits, 1);
    assert_eq!(outcome.teardowns, 1);
}

#[test]
fn trailer_length_is_the_payload_length() {
    let payload = varied(70000);
    let member = encode(input_for(payload.clone(), 0, Flush::NoFlush, bare())).result.unwrap().unwrap();
    let n = member.len();
    let len = u32::from_le_bytes([member[n - 4], member[n - 3], member[n - 2], member[n - 1]]);
    let crc = u32::from_le_bytes([member[n - 8], member[n - 7], member[n - 6], member[n - 5]]);
    assert_eq!(len, 70000);
    assert_eq!(crc, gzip_header::crc32(&payload));
}

#[test]
fn embedded_nul_in_name_produces_nothing() {
    let mut header = bare();
    header.name = Some(b"bad\0name".to_vec());
    let outcome = encode(input_for(b"data".to_vec(), 0, Flush::NoFlush, header));
    assert_eq!(outcome.result, Some(Err(GzError::InvalidHeaderField)));
    assert_eq!(outcome.inits, 0);
    assert_eq!(outcome.deflate_calls, 0);
    assert_eq!(outcome.teardowns, 0);
}

#[test]
fn embedded_nul_in_comment_produces_nothing() {
    let mut header = bare();
    header.comment = Some(b"\0".to_vec());
    let outcome = encode(input_for(b"data".to_vec(), 0, Flush::NoFlush, header));
    assert_eq!(outcome.result, Some(Err(GzError::InvalidHeaderField)));
    assert_eq!(outcome.inits, 0);
}

#[test]
fn wrong_container_is_rejected_and_engine_released() {
    for bits in [15, 9, -15, -9] {
        let mut input = gz_header();
        input.config.window_bits = bits;
        let outcome = encode(input);
        assert_eq!(outcome.result, Some(Err(GzError::HeaderRejected)));
        assert_eq!(outcome.inits, 1);
        assert_eq!(outcome.teardowns, 1);
        assert_eq!(outcome.deflate_calls, 0);
    }
}

#[test]
fn parameters_the_engine_refuses_are_reported() {
    let mut input = gz_header();
    input.config.mem_level = 0;
    let outcome = encode(input);
    assert_eq!(outcome.result, Some(Err(GzError::InvalidParameters)));
    assert_eq!(outcome.teardowns, 0);

    let mut input = gz_header();
    input.config.window_bits = 24;
    assert_eq!(encode(input).result, Some(Err(GzError::InvalidParameters)));

    let mut input = gz_header();
    input.config.method = 7;
    assert_eq!(encode(input).result, Some(Err(GzError::InvalidParameters)));
}

// Lets zlib write a whole gzip member by itself, with the header it writes when none is set.
fn zlib_member(payload: &[u8], level: u32, window_bits: u8) -> Vec<u8> {
    let mut e = Compress::new_gzip(Compression::new(level), window_bits);
    let mut out = vec![0u8; payload.len() * 2 + 256];
    let status = e.compress(payload, &mut out, FlushCompress::Finish).unwrap();
    assert_eq!(status, Status::StreamEnd);
    out.truncate(e.total_out() as usize);
    out
}

fn unix_header() -> GzHeaderData {
    GzHeaderData { text: false, time: 0, os: 3, extra: None, name: None, comment: None, hcrc: false }
}

#[test]
fn member_equals_what_zlib_writes_itself() {
    let payload = varied(3000);
    for (level, bits, xflags) in [(6u32, 15u8, 0u8), (9, 15, 2), (1, 15, 4), (0, 15, 4), (6, 12, 0), (3, 9, 0)] {
        let mut input = input_for(payload.clone(), 0, Flush::NoFlush, unix_header());
        input.config.level = level as i32;
        input.config.window_bits = 16 + bits as i32;
        let ours = encode(input).result.unwrap().unwrap();
        assert_eq!(ours[8], xflags);
        assert_eq!(ours, zlib_member(&payload, level, bits));
    }
}

#[test]
fn greeting_member_equals_what_zlib_writes_itself() {
    let mut input = gz_header();
    input.header = unix_header();
    let ours = encode(input).result.unwrap().unwrap();
    assert_eq!(ours, zlib_member(b"Hello, world!", 6, 15));
    assert_eq!(&ours[10..25], &[243, 72, 205, 201, 201, 215, 81, 40, 207, 47, 202, 73, 81, 4, 0]);
}

#[test]
fn empty_member_equals_what_zlib_writes_itself() {
    let input = input_for(Vec::new(), 0, Flush::NoFlush, unix_header());
    let ours = encode(input).result.unwrap().unwrap();
    assert_eq!(ours, zlib_member(b"", 6, 15));
    assert_eq!(ours, vec![31, 139, 8, 0, 0, 0, 0, 0, 0, 3, 3, 0, 0, 0, 0, 0, 0, 0, 0, 0]);
}

#[test]
fn small_windows_give_the_same_member_as_one_window() {
    let payload = varied(3000);
    let ours = encode(input_for(payload.clone(), 5, Flush::NoFlush, unix_header())).result.unwrap().unwrap();
    assert_eq!(ours, zlib_member(&payload, 6, 15));
}
