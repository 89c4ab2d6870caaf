use gzip_header::{gz_header, DeflateConfig, Flush, GzError, GzHeaderData};

fn bare() -> GzHeaderData {
    GzHeaderData { text: false, time: 0, os: 255, extra: None, name: None, comment: None, hcrc: false }
}

fn config(level: i32, strategy: i32) -> DeflateConfig {
    DeflateConfig { level, method: 8, window_bits: 31, mem_level: 8, strategy }
}

#[test]
fn bare_header_is_ten_bytes() {
    let bytes = bare().as_gz_header(0).unwrap();
    assert_eq!(bytes, vec![31, 139, 8, 0, 0, 0, 0, 0, 0, 255]);
}

#[test]
fn fixture_header_bytes_are_exact() {
    let input = gz_header();
    let bytes = input.header.as_gz_header(input.config.extra_flags()).unwrap();
    let expected: Vec<u8> = vec![
        31, 139, 8, 31, 123, 0, 0, 0, 0, 3, 13, 0, 72, 101, 108, 108, 111, 44, 32, 119, 111, 114,
        108, 100, 33, 104, 101, 108, 108, 111, 95, 119, 111, 114, 108, 100, 46, 103, 122, 0, 106,
        117, 115, 116, 32, 115, 111, 109, 101, 32, 114, 97, 110, 100, 111, 109, 32, 99, 111, 109,
        109, 101, 110, 116, 0, 18, 202,
    ];
    assert_eq!(bytes, expected);
}

#[test]
fn empty_optional_fields_are_still_written() {
    let h = GzHeaderData {
        text: false,
        time: 0xDEAD_BEEF,
        os: 255,
        extra: Some(Vec::new()),
        name: Some(Vec::new()),
        comment: None,
        hcrc: true,
    };
    let bytes = h.as_gz_header(2).unwrap();
    assert_eq!(bytes, vec![31, 139, 8, 14, 239, 190, 173, 222, 2, 255, 0, 0, 0, 186, 63]);
}

#[test]
fn serialising_twice_gives_the_same_bytes() {
    let h = gz_header().header;
    let first = h.as_gz_header(0).unwrap();
    let second = h.as_gz_header(0).unwrap();
    assert_eq!(first, second);
    let copy = h.clone();
    assert_eq!(copy.as_gz_header(0).unwrap(), first);
}

#[test]
fn flag_byte_has_one_bit_per_field() {
    let mut h = bare();
    assert_eq!(h.flag_byte(), 0);
    h.text = true;
    assert_eq!(h.flag_byte(), 1);
    h.hcrc = true;
    assert_eq!(h.flag_byte(), 3);
    h.extra = Some(vec![1]);
    assert_eq!(h.flag_byte(), 7);
    h.name = Some(vec![b'n']);
    assert_eq!(h.flag_byte(), 15);
    h.comment = Some(vec![b'c']);
    assert_eq!(h.flag_byte(), 31);
}

#[test]
fn name_with_nul_is_rejected() {
    let mut h = bare();
    h.name = Some(vec![b'a', 0, b'b']);
    assert!(!h.is_valid());
    assert_eq!(h.as_gz_header(0), Err(GzError::InvalidHeaderField));
}

#[test]
fn comment_with_nul_is_rejected() {
    let mut h = bare();
    h.comment = Some(vec![0]);
    assert!(!h.is_valid());
    assert_eq!(h.as_gz_header(0), Err(GzError::InvalidHeaderField));
}

#[test]
fn extra_may_hold_nul() {
    let mut h = bare();
    h.extra = Some(vec![0, 0, 0]);
    assert!(h.is_valid());
    assert_eq!(h.as_gz_header(0).unwrap(), vec![31, 139, 8, 4, 0, 0, 0, 0, 0, 255, 3, 0, 0, 0, 0]);
}

#[test]
fn longest_extra_is_accepted() {
    let mut h = bare();
    h.extra = Some(vec![7u8; 65535]);
    let bytes = h.as_gz_header(0).unwrap();
    assert_eq!(bytes.len(), 10 + 2 + 65535);
    assert_eq!(&bytes[10..12], &[0xFF, 0xFF]);
    assert_eq!(bytes[12], 7);
    assert_eq!(bytes[bytes.len() - 1], 7);
}

#[test]
fn oversized_extra_is_rejected() {
    let mut h = bare();
    h.extra = Some(vec![7u8; 65536]);
    assert!(!h.is_valid());
    assert_eq!(h.as_gz_header(0), Err(GzError::InvalidHeaderField));
}

#[test]
fn header_checksum_is_low_half_of_crc32() {
    let mut h = bare();
    h.hcrc = true;
    let bytes = h.as_gz_header(0).unwrap();
    assert_eq!(bytes.len(), 12);
    let crc = gzip_header::crc32(&bytes[..10]);
    assert_eq!(bytes[10], (crc & 0xFF) as u8);
    assert_eq!(bytes[11], ((crc >> 8) & 0xFF) as u8);
}

#[test]
fn extra_flags_follow_level_and_strategy() {
    assert_eq!(config(-1, 0).extra_flags(), 0);
    assert_eq!(config(6, 0).extra_flags(), 0);
    assert_eq!(config(9, 0).extra_flags(), 2);
    assert_eq!(config(9, 2).extra_flags(), 2);
    assert_eq!(config(1, 0).extra_flags(), 4);
    assert_eq!(config(0, 0).extra_flags(), 4);
    assert_eq!(config(5, 2).extra_flags(), 4);
    assert_eq!(config(5, 1).extra_flags(), 0);
    assert_eq!(config(2, 0).extra_flags(), 0);
}

#[test]
fn window_bits_select_the_container() {
    let mut c = config(-1, 0);
    assert!(c.selects_gzip());
    assert_eq!(c.engine_window_bits(), -15);
    c.window_bits = 25;
    assert!(c.selects_gzip());
    assert_eq!(c.engine_window_bits(), -9);
    c.window_bits = 16;
    assert!(c.selects_gzip());
    assert_eq!(c.engine_window_bits(), 0);
    c.window_bits = 15;
    assert!(!c.selects_gzip());
    assert_eq!(c.engine_window_bits(), 15);
    c.window_bits = -15;
    assert!(!c.selects_gzip());
    assert_eq!(c.engine_window_bits(), -15);
}

#[test]
fn flush_codes_are_the_engines() {
    assert_eq!(Flush::NoFlush.code(), 0);
    assert_eq!(Flush::SyncFlush.code(), 2);
    assert_eq!(Flush::FullFlush.code(), 3);
    assert_eq!(Flush::Finish.code(), 4);
}

#[test]
fn fixture_input_is_as_described() {
    let input = gz_header();
    assert_eq!(input.source, b"Hello, world!".to_vec());
    assert_eq!(input.config, config(-1, 0));
    assert_eq!(input.chunk, 1024);
    assert_eq!(input.flush, Flush::Finish);
    assert!(input.header.text);
    assert_eq!(input.header.time, 123);
    assert_eq!(input.header.os, 3);
    assert_eq!(input.header.extra, Some(b"Hello, world!".to_vec()));
    assert_eq!(input.header.name, Some(b"hello_world.gz".to_vec()));
    assert_eq!(input.header.comment, Some(b"just some random comment".to_vec()));
    assert!(input.header.hcrc);
}
