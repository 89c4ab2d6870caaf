//! The stream driver: it decides how the engine is driven, one report at a
//! time, and assembles the gzip member.

use crate::config::{DeflateConfig, Flush};
use crate::error::GzError;
use crate::header::{push_all, GzHeaderData};
use crate::model::{
    least, lemma_initial_wf, lemma_step_wf, room_for, Action, EncoderState, Event, EventModel,
    Phase, MAX_WINDOW, STATUS_OK, STATUS_STREAM_END,
};
use crate::trailer::push_trailer;
use vstd::prelude::*;
use vstd::slice::slice_subrange;

verus! {

/// Everything one encode call works on.
#[derive(Debug)]
pub struct Input {
    /// The payload to compress.
    pub source: Vec<u8>,
    /// The engine's parameters.
    pub config: DeflateConfig,
    /// The greatest number of bytes handed to the engine at once, for input
    /// and for output room alike; zero sets no limit.
    pub chunk: u64,
    /// The flush mode for every engine call but those on the last of the
    /// payload, which finish the stream.
    pub flush: Flush,
    /// The fields of the member header.
    pub header: GzHeaderData,
}

/// One encode call in progress.
///
/// The caller performs [`Encoder::action`], reports the outcome to
/// [`Encoder::step`], and repeats until the action is [`Action::Done`];
/// [`Encoder::finish`] then gives the result.
#[derive(Debug)]
pub struct Encoder {
    source: Vec<u8>,
    config: DeflateConfig,
    policy: Flush,
    window: u32,
    /// The header followed by everything the engine has written.
    out: Vec<u8>,
    header_len: usize,
    phase: Phase,
    next_in: usize,
    avail_in: u32,
    source_left: usize,
    avail_out: u32,
    room_left: usize,
    room: usize,
    verdict: Option<GzError>,
}

impl View for Encoder {
    type V = EncoderState;

    closed spec fn view(&self) -> EncoderState {
        EncoderState {
            source: self.source@,
            config: self.config,
            policy: self.policy,
            window: self.window as nat,
            header: self.out@.take(self.header_len as int),
            phase: self.phase,
            produced: self.out@.skip(self.header_len as int),
            fed: self.source@.take(self.next_in as int),
            next_in: self.next_in as nat,
            avail_in: self.avail_in as nat,
            source_left: self.source_left as nat,
            avail_out: self.avail_out as nat,
            room_left: self.room_left as nat,
            room: self.room as nat,
            verdict: self.verdict,
        }
    }
}

/// The content of a result that may not be there yet.
pub open spec fn result_view(r: Option<Result<Vec<u8>, GzError>>) -> Option<
    Result<Seq<u8>, GzError>,
> {
    match r {
        None => None,
        Some(Err(e)) => Some(Err(e)),
        Some(Ok(bytes)) => Some(Ok(bytes@)),
    }
}

/// The window limit for a caller's chunk size.
fn window_limit(chunk: u64) -> (w: u32)
    ensures
        w == crate::model::window_for(chunk),
{
    if chunk == 0 || chunk > MAX_WINDOW as u64 {
        MAX_WINDOW
    } else {
        chunk as u32
    }
}

/// The room for engine output that follows from the engine's bound.
fn output_room(bound: u64, header_len: usize) -> (r: usize)
    ensures
        r == room_for(bound, header_len as nat),
{
    let wrap: u128 = header_len as u128 + 8u128;
    let doubled: u128 = 2u128 * (bound as u128 + wrap);
    let capacity: u128 = if doubled > usize::MAX as u128 {
        usize::MAX as u128
    } else {
        doubled
    };
    if capacity > wrap {
        (capacity - wrap) as usize
    } else {
        0
    }
}

/// Replaces an exhausted window by a fresh one taken from what is left.
/// Gives the window and what is left after it.
fn refill(avail: u32, left: usize, window: u32) -> (r: (u32, usize))
    requires
        avail as nat + left as nat <= usize::MAX,
    ensures
        r.0 == (if avail == 0 {
            least(left as nat, window as nat)
        } else {
            avail as nat
        }),
        r.1 == left + avail - r.0,
{
    if avail == 0 {
        if left <= window as usize {
            (left as u32, 0)
        } else {
            (window, left - window as usize)
        }
    } else {
        (avail, left)
    }
}

/// Starts an encode call.
///
/// The header is serialised first: invalid fields end the call at once
/// with `InvalidHeaderField`, before the engine is touched.
pub fn compress_gz(input: Input) -> (enc: Encoder)
    ensures
        enc@ == EncoderState::initial(
            input.source@,
            input.config,
            input.chunk,
            input.flush,
            input.header@,
        ),
        enc@.wf(),
{
    let Input { source, config, chunk, flush, header } = input;
    let window: u32 = window_limit(chunk);
    let source_left: usize = source.len();
    proof {
        lemma_initial_wf(source@, config, chunk, flush, header@);
        assert(source@.take(0) =~= Seq::<u8>::empty());
    }
    match header.as_gz_header(config.extra_flags()) {
        Ok(out) => {
            let header_len: usize = out.len();
            proof {
                assert(out@.take(header_len as int) =~= out@);
                assert(out@.skip(header_len as int) =~= Seq::<u8>::empty());
            }
            Encoder {
                source,
                config,
                policy: flush,
                window,
                out,
                header_len,
                phase: Phase::Init,
                next_in: 0,
                avail_in: 0,
                source_left,
                avail_out: 0,
                room_left: 0,
                room: 0,
                verdict: None,
            }
        },
        Err(_) => {
            let out: Vec<u8> = Vec::new();
            proof {
                assert(out@.take(0) =~= Seq::<u8>::empty());
                assert(out@.skip(0) =~= Seq::<u8>::empty());
            }
            Encoder {
                source,
                config,
                policy: flush,
                window,
                out,
                header_len: 0,
                phase: Phase::Done,
                next_in: 0,
                avail_in: 0,
                source_left,
                avail_out: 0,
                room_left: 0,
                room: 0,
                verdict: Some(GzError::InvalidHeaderField),
            }
        },
    }
}

impl Encoder {
    #[verifier::type_invariant]
    spec fn inv(&self) -> bool {
        &&& self.header_len <= self.out@.len()
        &&& self@.wf()
    }

    /// What the caller is to do next.
    pub fn action(&self) -> (a: Action)
        ensures
            a == self@.action(),
            self@.wf(),
    {
        proof {
            use_type_invariant(self);
        }
        match self.phase {
            Phase::Init => Action::Init {
                level: self.config.level,
                method: self.config.method,
                window_bits: self.config.engine_window_bits(),
                mem_level: self.config.mem_level,
                strategy: self.config.strategy,
            },
            Phase::Bound => Action::Bound { source_len: self.source.len() as u64 },
            Phase::Deflate => Action::Deflate {
                offset: self.next_in,
                len: self.avail_in,
                room: self.avail_out,
                flush: if self.source_left > 0 {
                    self.policy
                } else {
                    Flush::Finish
                },
            },
            Phase::End => Action::End,
            Phase::Done => Action::Done,
        }
    }

    /// The part of the payload the engine may read in its next call.
    pub fn input_window(&self) -> (w: &[u8])
        ensures
            w@ == self@.input_window(),
    {
        proof {
            use_type_invariant(self);
        }
        slice_subrange(self.source.as_slice(), self.next_in, self.next_in + self.avail_in as usize)
    }

    /// Takes the caller's report of the action it performed and moves on
    /// to the state that follows.
    pub fn step(self, event: Event) -> (next: Encoder)
        ensures
            next@ == self@.step(event@),
            next@.wf(),
    {
        proof {
            use_type_invariant(&self);
            lemma_step_wf(self@, event@);
        }
        let ghost before = self@;
        let Encoder {
            source,
            config,
            policy,
            window,
            mut out,
            header_len,
            mut phase,
            mut next_in,
            mut avail_in,
            mut source_left,
            mut avail_out,
            mut room_left,
            mut room,
            mut verdict,
        } = self;
        let ghost old_out = out@;
        let awaited: Phase = phase;
        match awaited {
            Phase::Init => match event {
                Event::Status(status) => {
                    if status != STATUS_OK {
                        phase = Phase::Done;
                        verdict = Some(GzError::InvalidParameters);
                    } else if !config.selects_gzip() {
                        phase = Phase::End;
                        verdict = Some(GzError::HeaderRejected);
                    } else {
                        phase = Phase::Bound;
                    }
                },
                _ => {
                    phase = Phase::Done;
                    verdict = Some(GzError::CompressionFailed);
                },
            },
            Phase::Bound => match event {
                Event::Bound(bound) => {
                    room = output_room(bound, header_len);
                    let (fresh_out, rest_out): (u32, usize) = refill(0, room, window);
                    let (fresh_in, rest_in): (u32, usize) = refill(0, source_left, window);
                    phase = Phase::Deflate;
                    avail_out = fresh_out;
                    room_left = rest_out;
                    avail_in = fresh_in;
                    source_left = rest_in;
                },
                _ => {
                    phase = Phase::End;
                    verdict = Some(GzError::CompressionFailed);
                },
            },
            Phase::Deflate => match event {
                Event::Deflated { status, consumed, produced } => {
                    if consumed > avail_in || produced.len() > avail_out as usize {
                        phase = Phase::End;
                        verdict = Some(GzError::CompressionFailed);
                    } else {
                        let written: u32 = produced.len() as u32;
                        push_all(&mut out, produced.as_slice());
                        proof {
                            assert(source@.take(next_in + consumed) =~= source@.take(
                                next_in as int,
                            ) + before.input_window().take(consumed as int));
                            assert(out@.skip(header_len as int) =~= old_out.skip(
                                header_len as int,
                            ) + produced@);
                        }
                        next_in = next_in + consumed as usize;
                        avail_in = avail_in - consumed;
                        avail_out = avail_out - written;
                        if status == STATUS_OK && !(consumed == 0 && written == 0) {
                            let (fresh_out, rest_out): (u32, usize) = refill(
                                avail_out,
                                room_left,
                                window,
                            );
                            let (fresh_in, rest_in): (u32, usize) = refill(
                                avail_in,
                                source_left,
                                window,
                            );
                            avail_out = fresh_out;
                            room_left = rest_out;
                            avail_in = fresh_in;
                            source_left = rest_in;
                        } else {
                            phase = Phase::End;
                            if !(status == STATUS_STREAM_END && next_in == source.len()) {
                                verdict = Some(GzError::CompressionFailed);
                            }
                        }
                    }
                },
                _ => {
                    phase = Phase::End;
                    verdict = Some(GzError::CompressionFailed);
                },
            },
            Phase::End => {
                let clean: bool = match event {
                    Event::Status(status) => status == STATUS_OK,
                    _ => false,
                };
                phase = Phase::Done;
                if verdict.is_none() && !clean {
                    verdict = Some(GzError::TeardownFailed);
                }
            },
            Phase::Done => {},
        }
        proof {
            assert(out@.take(header_len as int) =~= old_out.take(header_len as int));
            assert(out@.skip(header_len as int) =~= self@.step(event@).produced);
        }
        Encoder {
            source,
            config,
            policy,
            window,
            out,
            header_len,
            phase,
            next_in,
            avail_in,
            source_left,
            avail_out,
            room_left,
            room,
            verdict,
        }
    }

    /// The result of the call: nothing while the call is not over, then
    /// the error found or the finished gzip member.
    pub fn finish(self) -> (r: Option<Result<Vec<u8>, GzError>>)
        ensures
            result_view(r) == self@.result(),
    {
        proof {
            use_type_invariant(&self);
        }
        let Encoder { source, mut out, header_len, phase, verdict, .. } = self;
        match phase {
            Phase::Done => match verdict {
                Some(e) => Some(Err(e)),
                None => {
                    let ghost old_out = out@;
                    push_trailer(&mut out, source.as_slice());
                    proof {
                        assert(old_out =~= old_out.take(header_len as int) + old_out.skip(
                            header_len as int,
                        ));
                    }
                    Some(Ok(out))
                },
            },
            _ => None,
        }
    }
}

} // verus!
