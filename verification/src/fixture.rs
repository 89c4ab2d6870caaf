//! The hand-picked member: a short greeting under a header that uses every
//! optional field.

use crate::config::{DeflateConfig, Flush, DEFAULT_COMPRESSION, DEFAULT_STRATEGY, DEFLATED};
use crate::driver::Input;
use crate::header::{GzHeaderData, HeaderFields};
use vstd::prelude::*;

verus! {

/// The bytes of `Hello, world!`.
pub open spec fn greeting() -> Seq<u8> {
    seq![
        0x48u8, 0x65u8, 0x6cu8, 0x6cu8, 0x6fu8, 0x2cu8, 0x20u8, 0x77u8, 0x6fu8, 0x72u8, 0x6cu8,
        0x64u8, 0x21u8,
    ]
}

/// The bytes of `hello_world.gz`.
pub open spec fn fixture_name() -> Seq<u8> {
    seq![
        0x68u8, 0x65u8, 0x6cu8, 0x6cu8, 0x6fu8, 0x5fu8, 0x77u8, 0x6fu8, 0x72u8, 0x6cu8, 0x64u8,
        0x2eu8, 0x67u8, 0x7au8,
    ]
}

/// The bytes of `just some random comment`.
pub open spec fn fixture_comment() -> Seq<u8> {
    seq![
        0x6au8, 0x75u8, 0x73u8, 0x74u8, 0x20u8, 0x73u8, 0x6fu8, 0x6du8, 0x65u8, 0x20u8, 0x72u8,
        0x61u8, 0x6eu8, 0x64u8, 0x6fu8, 0x6du8, 0x20u8, 0x63u8, 0x6fu8, 0x6du8, 0x6du8, 0x65u8,
        0x6eu8, 0x74u8,
    ]
}

/// The header fields of the hand-picked member.
pub open spec fn fixture_header() -> HeaderFields {
    HeaderFields {
        text: true,
        time: 123,
        os: 3,
        extra: Some(greeting()),
        name: Some(fixture_name()),
        comment: Some(fixture_comment()),
        hcrc: true,
    }
}

/// The engine parameters of the hand-picked member: the default level and
/// strategy, the largest window, and the gzip container.
pub open spec fn fixture_config() -> DeflateConfig {
    DeflateConfig {
        level: DEFAULT_COMPRESSION,
        method: DEFLATED,
        window_bits: 31,
        mem_level: 8,
        strategy: DEFAULT_STRATEGY,
    }
}

fn greeting_bytes() -> (v: Vec<u8>)
    ensures
        v@ == greeting(),
{
    let v: Vec<u8> = vec![
        0x48u8, 0x65u8, 0x6cu8, 0x6cu8, 0x6fu8, 0x2cu8, 0x20u8, 0x77u8, 0x6fu8, 0x72u8, 0x6cu8,
        0x64u8, 0x21u8,
    ];
    v
}

/// The input of the encode call that makes the hand-picked member: the
/// greeting, compressed in one piece and finished at once, under a header
/// that carries the greeting as extra field, a file name, a comment, a
/// modification time, the text hint and a header checksum.
pub fn gz_header() -> (input: Input)
    ensures
        input.source@ == greeting(),
        input.config == fixture_config(),
        input.chunk == 1024,
        input.flush == Flush::Finish,
        input.header@ == fixture_header(),
        input.header@.valid(),
        input.config.selects_gzip(),
{
    let name: Vec<u8> = vec![
        0x68u8, 0x65u8, 0x6cu8, 0x6cu8, 0x6fu8, 0x5fu8, 0x77u8, 0x6fu8, 0x72u8, 0x6cu8, 0x64u8,
        0x2eu8, 0x67u8, 0x7au8,
    ];
    let comment: Vec<u8> = vec![
        0x6au8, 0x75u8, 0x73u8, 0x74u8, 0x20u8, 0x73u8, 0x6fu8, 0x6du8, 0x65u8, 0x20u8, 0x72u8,
        0x61u8, 0x6eu8, 0x64u8, 0x6fu8, 0x6du8, 0x20u8, 0x63u8, 0x6fu8, 0x6du8, 0x6du8, 0x65u8,
        0x6eu8, 0x74u8,
    ];
    Input {
        source: greeting_bytes(),
        config: DeflateConfig {
            level: DEFAULT_COMPRESSION,
            method: DEFLATED,
            window_bits: 31,
            mem_level: 8,
            strategy: DEFAULT_STRATEGY,
        },
        chunk: 1024,
        flush: Flush::Finish,
        header: GzHeaderData {
            text: true,
            time: 123,
            os: 3,
            extra: Some(greeting_bytes()),
            name: Some(name),
            comment: Some(comment),
            hcrc: true,
        },
    }
}

} // verus!
