use vstd::prelude::*;

verus! {

/// The compression level that asks the engine for its own default.
pub const DEFAULT_COMPRESSION: i32 = -1;

/// The level the engine uses when asked for its default.
pub const DEFAULT_LEVEL: i32 = 6;

/// The only compression method gzip defines.
pub const DEFLATED: i32 = 8;

/// The strategy that leaves match finding untuned.
pub const DEFAULT_STRATEGY: i32 = 0;

/// The first strategy that gives up string matching altogether.
pub const HUFFMAN_ONLY: i32 = 2;

/// Added to a window size to select the gzip container.
pub const GZIP_WINDOW_OFFSET: i32 = 16;

/// Parameters of the DEFLATE engine.
#[derive(Clone, Copy, Debug, PartialEq, Eq, Structural)]
pub struct DeflateConfig {
    /// Speed against ratio: 0 to 9, or -1 for the engine's default.
    pub level: i32,
    /// The compression method; only 8 (deflate) exists.
    pub method: i32,
    /// Base-two logarithm of the history window, which also selects the
    /// container: negative for a bare stream, 8 to 15 for the zlib
    /// container, 16 more than that for gzip.
    pub window_bits: i32,
    /// How much memory the engine may spend on its internal state.
    pub mem_level: i32,
    /// Tuning of the match finder.
    pub strategy: i32,
}

/// When the engine is told to flush what it holds back.
#[derive(Clone, Copy, Debug, PartialEq, Eq, Structural)]
pub enum Flush {
    /// Let the engine decide how much to buffer.
    NoFlush,
    /// Flush to a byte boundary after each chunk.
    SyncFlush,
    /// As `SyncFlush`, and forget the history so that decoding can restart.
    FullFlush,
    /// Terminate the stream.
    Finish,
}

impl Flush {
    /// The number by which the engine knows this flush mode.
    pub open spec fn spec_code(self) -> i32 {
        match self {
            Flush::NoFlush => 0i32,
            Flush::SyncFlush => 2i32,
            Flush::FullFlush => 3i32,
            Flush::Finish => 4i32,
        }
    }

    /// The number by which the engine knows this flush mode.
    #[verifier::when_used_as_spec(spec_code)]
    pub fn code(self) -> (r: i32)
        ensures
            r == self.spec_code(),
    {
        match self {
            Flush::NoFlush => 0i32,
            Flush::SyncFlush => 2i32,
            Flush::FullFlush => 3i32,
            Flush::Finish => 4i32,
        }
    }
}

impl DeflateConfig {
    /// Whether the window bits ask for the gzip container.
    pub open spec fn spec_selects_gzip(&self) -> bool {
        self.window_bits > 15
    }

    /// Whether the window bits ask for the gzip container.
    #[verifier::when_used_as_spec(spec_selects_gzip)]
    pub fn selects_gzip(&self) -> (r: bool)
        ensures
            r == self.spec_selects_gzip(),
    {
        self.window_bits > 15
    }

    /// The window bits handed to the engine. The gzip container is written by
    /// this crate, so for gzip the engine is asked for a bare stream with the
    /// same window; any other value is passed on untouched.
    pub open spec fn spec_engine_window_bits(&self) -> int {
        if self.window_bits > 15 {
            GZIP_WINDOW_OFFSET - self.window_bits
        } else {
            self.window_bits as int
        }
    }

    /// The window bits handed to the engine.
    pub fn engine_window_bits(&self) -> (r: i32)
        ensures
            r == self.spec_engine_window_bits(),
    {
        if self.window_bits > 15 {
            GZIP_WINDOW_OFFSET - self.window_bits
        } else {
            self.window_bits
        }
    }

    /// The level the engine works at: the default level stands for 6.
    pub open spec fn spec_effective_level(&self) -> i32 {
        if self.level == DEFAULT_COMPRESSION {
            DEFAULT_LEVEL
        } else {
            self.level
        }
    }

    /// The extra-flags byte of the header: 2 for the strongest level, 4
    /// where the engine runs its fastest algorithm, 0 otherwise.
    pub open spec fn spec_extra_flags(&self) -> u8 {
        if self.spec_effective_level() == 9 {
            2u8
        } else if self.strategy >= HUFFMAN_ONLY || self.spec_effective_level() < 2 {
            4u8
        } else {
            0u8
        }
    }

    /// The extra-flags byte of the header.
    #[verifier::when_used_as_spec(spec_extra_flags)]
    pub fn extra_flags(&self) -> (r: u8)
        ensures
            r == self.spec_extra_flags(),
    {
        let level: i32 = if self.level == DEFAULT_COMPRESSION {
            DEFAULT_LEVEL
        } else {
            self.level
        };
        if level == 9 {
            2u8
        } else if self.strategy >= HUFFMAN_ONLY || level < 2 {
            4u8
        } else {
            0u8
        }
    }
}

} // verus!
