//! The mathematical model of one encode call: the state of the driver, the
//! action it asks for in each state, and the state that follows each event.

use crate::config::{DeflateConfig, Flush};
use crate::error::GzError;
use crate::header::{header_bytes, HeaderFields};
use crate::trailer::member_bytes;
use vstd::prelude::*;

verus! {

/// The status by which the engine reports that a call went well and more
/// calls may follow.
pub const STATUS_OK: i32 = 0;

/// The status by which the engine reports that the stream is complete.
pub const STATUS_STREAM_END: i32 = 1;

/// The largest window the engine's counters can describe.
pub const MAX_WINDOW: u32 = 0xFFFF_FFFFu32;

/// The bytes of the container that do not come from the engine and are not
/// part of the header: the trailer.
pub const TRAILER_LEN: usize = 8;

/// What the driver asks its caller to do with the engine next.
#[derive(Clone, Copy, Debug, PartialEq, Eq, Structural)]
pub enum Action {
    /// Initialise the engine with these parameters and report its status.
    Init { level: i32, method: i32, window_bits: i32, mem_level: i32, strategy: i32 },
    /// Ask the engine for an upper bound on the compressed size of
    /// `source_len` bytes and report it.
    Bound { source_len: u64 },
    /// Call the engine once on the `len` bytes of the driver's input window,
    /// which starts at `offset` in the payload, with room for `room` bytes
    /// of output and flush mode `flush`; report the status, how many bytes
    /// were read and the bytes that were written.
    Deflate { offset: usize, len: u32, room: u32, flush: Flush },
    /// Tear the engine down and report its status.
    End,
    /// Nothing is left to do: the result is ready.
    Done,
}

/// What the caller reports back after it performed an action.
#[derive(Clone, Debug)]
pub enum Event {
    /// The status returned by initialisation or teardown.
    Status(i32),
    /// The engine's upper bound on the compressed size.
    Bound(u64),
    /// The outcome of one call of the engine.
    Deflated { status: i32, consumed: u32, produced: Vec<u8> },
}

/// The mathematical content of an [`Event`].
pub enum EventModel {
    Status(i32),
    Bound(u64),
    Deflated { status: i32, consumed: u32, produced: Seq<u8> },
}

impl View for Event {
    type V = EventModel;

    open spec fn view(&self) -> EventModel {
        match *self {
            Event::Status(s) => EventModel::Status(s),
            Event::Bound(b) => EventModel::Bound(b),
            Event::Deflated { status, consumed, produced } => EventModel::Deflated {
                status,
                consumed,
                produced: produced@,
            },
        }
    }
}

/// Which report the driver is waiting for.
#[derive(Clone, Copy, Debug, PartialEq, Eq, Structural)]
pub enum Phase {
    /// The engine has not been initialised yet.
    Init,
    /// The engine is initialised; its bound is awaited.
    Bound,
    /// The engine is compressing.
    Deflate,
    /// The engine is to be torn down.
    End,
    /// The call is over.
    Done,
}

/// The greatest window handed to the engine for a caller's chunk size: the
/// chunk size itself, or the largest window there is when the caller set no
/// limit (zero) or one beyond it.
pub open spec fn window_for(chunk: u64) -> nat {
    if chunk == 0 || chunk > MAX_WINDOW {
        MAX_WINDOW as nat
    } else {
        chunk as nat
    }
}

/// The room for engine output that follows from the engine's bound: the
/// whole member is given twice the bound plus twice the container's own
/// bytes, cut off at what a buffer can hold, and the engine gets what the
/// container leaves of that.
pub open spec fn room_for(bound: u64, header_len: nat) -> nat {
    let wrap = header_len + TRAILER_LEN;
    let doubled = 2 * (bound + wrap);
    let capacity = if doubled > usize::MAX { usize::MAX as int } else { doubled };
    if capacity > wrap {
        (capacity - wrap) as nat
    } else {
        0
    }
}

/// The smaller of two numbers.
pub open spec fn least(a: nat, b: nat) -> nat {
    if a <= b {
        a
    } else {
        b
    }
}

/// The state of one encode call.
pub struct EncoderState {
    /// The payload.
    pub source: Seq<u8>,
    /// The engine's parameters.
    pub config: DeflateConfig,
    /// The flush mode for every call but those on the last of the input.
    pub policy: Flush,
    /// The greatest window handed to the engine.
    pub window: nat,
    /// The serialised header.
    pub header: Seq<u8>,
    /// Which report is awaited.
    pub phase: Phase,
    /// Everything the engine has written so far.
    pub produced: Seq<u8>,
    /// Everything the engine has read so far.
    pub fed: Seq<u8>,
    /// Where in the payload the engine reads next.
    pub next_in: nat,
    /// How much of the current input window the engine has not read.
    pub avail_in: nat,
    /// How much of the payload lies beyond the current input window.
    pub source_left: nat,
    /// How much of the current output window the engine has not filled.
    pub avail_out: nat,
    /// How much output room lies beyond the current output window.
    pub room_left: nat,
    /// How much output room the engine was granted in all.
    pub room: nat,
    /// The error found so far, if any.
    pub verdict: Option<GzError>,
}

impl EncoderState {
    /// The state in which an encode call with these inputs starts. Invalid
    /// header fields end the call before the engine is touched.
    pub open spec fn initial(
        source: Seq<u8>,
        config: DeflateConfig,
        chunk: u64,
        policy: Flush,
        header: HeaderFields,
    ) -> EncoderState {
        EncoderState {
            source,
            config,
            policy,
            window: window_for(chunk),
            header: if header.valid() {
                header_bytes(header, config.extra_flags())
            } else {
                Seq::empty()
            },
            phase: if header.valid() {
                Phase::Init
            } else {
                Phase::Done
            },
            produced: Seq::empty(),
            fed: Seq::empty(),
            next_in: 0,
            avail_in: 0,
            source_left: source.len(),
            avail_out: 0,
            room_left: 0,
            room: 0,
            verdict: if header.valid() {
                None
            } else {
                Some(GzError::InvalidHeaderField)
            },
        }
    }

    /// What holds of the windows in every state: they lie within the
    /// payload and the output room, and no window exceeds the limit.
    pub open spec fn windows_ok(self) -> bool {
        &&& 1 <= self.window <= MAX_WINDOW
        &&& self.source.len() <= usize::MAX
        &&& self.next_in + self.avail_in + self.source_left == self.source.len()
        &&& self.fed == self.source.take(self.next_in as int)
        &&& self.avail_in <= self.window
        &&& self.avail_out <= self.window
        &&& self.produced.len() + self.avail_out + self.room_left == self.room
        &&& self.room <= usize::MAX
    }

    /// What holds of every state an encode call can reach.
    pub open spec fn wf(self) -> bool {
        &&& self.windows_ok()
        &&& (self.phase is Init || self.phase is Bound) ==> {
            &&& self.verdict is None
            &&& self.next_in == 0
            &&& self.avail_in == 0
            &&& self.avail_out == 0
            &&& self.room == 0
        }
        &&& self.phase is Bound ==> self.config.selects_gzip()
        &&& self.phase is Deflate ==> {
            &&& self.verdict is None
            &&& self.config.selects_gzip()
            &&& self.avail_in == 0 ==> self.source_left == 0
            &&& self.avail_out == 0 ==> self.room_left == 0
        }
        &&& (self.phase is End || self.phase is Done) && self.verdict is None ==> {
            &&& self.next_in == self.source.len()
            &&& self.config.selects_gzip()
        }
    }

    /// Whether the engine holds resources: it has been initialised and not
    /// yet torn down.
    pub open spec fn live(self) -> bool {
        self.phase is Bound || self.phase is Deflate || self.phase is End
    }

    /// The part of the payload the engine may read in its next call.
    pub open spec fn input_window(self) -> Seq<u8> {
        self.source.subrange(self.next_in as int, (self.next_in + self.avail_in) as int)
    }

    /// The flush mode of the next call: the caller's policy while payload
    /// lies beyond the current window, and `Finish` on the last of it.
    pub open spec fn next_flush(self) -> Flush {
        if self.source_left > 0 {
            self.policy
        } else {
            Flush::Finish
        }
    }

    /// What the caller is to do in this state.
    pub open spec fn action(self) -> Action {
        match self.phase {
            Phase::Init => Action::Init {
                level: self.config.level,
                method: self.config.method,
                window_bits: self.config.spec_engine_window_bits() as i32,
                mem_level: self.config.mem_level,
                strategy: self.config.strategy,
            },
            Phase::Bound => Action::Bound { source_len: self.source.len() as u64 },
            Phase::Deflate => Action::Deflate {
                offset: self.next_in as usize,
                len: self.avail_in as u32,
                room: self.avail_out as u32,
                flush: self.next_flush(),
            },
            Phase::End => Action::End,
            Phase::Done => Action::Done,
        }
    }

    /// The state in which the engine is to be torn down because of `e`.
    pub open spec fn failed(self, e: GzError) -> EncoderState {
        EncoderState { phase: Phase::End, verdict: Some(e), ..self }
    }

    /// The state with both windows refilled: an exhausted window is
    /// replaced by a fresh one, as large as the window limit and what is
    /// left allow.
    pub open spec fn refilled(self) -> EncoderState {
        let avail_out = if self.avail_out == 0 {
            least(self.room_left, self.window)
        } else {
            self.avail_out
        };
        let avail_in = if self.avail_in == 0 {
            least(self.source_left, self.window)
        } else {
            self.avail_in
        };
        EncoderState {
            avail_out,
            room_left: (self.room_left + self.avail_out - avail_out) as nat,
            avail_in,
            source_left: (self.source_left + self.avail_in - avail_in) as nat,
            ..self
        }
    }

    /// The state after the engine reported `status` from its
    /// initialisation. A refusal ends the call; a header that the
    /// configured container cannot carry has the engine torn down.
    pub open spec fn after_init(self, status: i32) -> EncoderState {
        if status != STATUS_OK {
            EncoderState {
                phase: Phase::Done,
                verdict: Some(GzError::InvalidParameters),
                ..self
            }
        } else if !self.config.selects_gzip() {
            self.failed(GzError::HeaderRejected)
        } else {
            EncoderState { phase: Phase::Bound, ..self }
        }
    }

    /// The state after the engine reported its bound: the output room is
    /// fixed and the first windows are handed out.
    pub open spec fn after_bound(self, bound: u64) -> EncoderState {
        EncoderState {
            phase: Phase::Deflate,
            room_left: room_for(bound, self.header.len()),
            room: room_for(bound, self.header.len()),
            ..self
        }.refilled()
    }

    /// The state after one call of the engine.
    ///
    /// A report that does not fit the windows is a failure. Otherwise the
    /// windows shrink by what was read and written. On status OK the call
    /// must have made progress, and the loop goes on with refilled windows.
    /// On the end of the stream the call succeeds if all of the payload was
    /// read. Every other status is a failure.
    pub open spec fn after_deflate(self, status: i32, consumed: u32, produced: Seq<u8>) -> EncoderState {
        if consumed > self.avail_in || produced.len() > self.avail_out {
            self.failed(GzError::CompressionFailed)
        } else {
            let moved = EncoderState {
                produced: self.produced + produced,
                fed: self.fed + self.input_window().take(consumed as int),
                next_in: self.next_in + consumed as nat,
                avail_in: (self.avail_in - consumed) as nat,
                avail_out: (self.avail_out - produced.len()) as nat,
                ..self
            };
            if status == STATUS_OK {
                if consumed == 0 && produced.len() == 0 {
                    moved.failed(GzError::CompressionFailed)
                } else {
                    moved.refilled()
                }
            } else if status == STATUS_STREAM_END && moved.next_in == moved.source.len() {
                EncoderState { phase: Phase::End, ..moved }
            } else {
                moved.failed(GzError::CompressionFailed)
            }
        }
    }

    /// The state after the engine was torn down. An error found earlier
    /// stands; otherwise the call succeeds if the teardown did.
    pub open spec fn after_end(self, clean: bool) -> EncoderState {
        EncoderState {
            phase: Phase::Done,
            verdict: if self.verdict is Some {
                self.verdict
            } else if clean {
                None
            } else {
                Some(GzError::TeardownFailed)
            },
            ..self
        }
    }

    /// The state that follows this one when the caller reports `event`.
    ///
    /// A report of the wrong kind is a failure: before initialisation it
    /// ends the call, while the engine is live it has the engine torn
    /// down, and in place of a teardown status it counts as a failed
    /// teardown. Once the call is over nothing changes any more.
    pub open spec fn step(self, event: EventModel) -> EncoderState {
        match self.phase {
            Phase::Init => match event {
                EventModel::Status(status) => self.after_init(status),
                _ => EncoderState {
                    phase: Phase::Done,
                    verdict: Some(GzError::CompressionFailed),
                    ..self
                },
            },
            Phase::Bound => match event {
                EventModel::Bound(bound) => self.after_bound(bound),
                _ => self.failed(GzError::CompressionFailed),
            },
            Phase::Deflate => match event {
                EventModel::Deflated { status, consumed, produced } => self.after_deflate(
                    status,
                    consumed,
                    produced,
                ),
                _ => self.failed(GzError::CompressionFailed),
            },
            Phase::End => match event {
                EventModel::Status(status) => self.after_end(status == STATUS_OK),
                _ => self.after_end(false),
            },
            Phase::Done => self,
        }
    }

    /// The result of the call, once it is over: the error found, or the
    /// gzip member made of the header, the engine's output and the trailer
    /// of the payload.
    pub open spec fn result(self) -> Option<Result<Seq<u8>, GzError>> {
        if !(self.phase is Done) {
            None
        } else {
            match self.verdict {
                Some(e) => Some(Err(e)),
                None => Some(Ok(member_bytes(self.header, self.produced, self.source))),
            }
        }
    }

    /// An upper bound on the number of reports the call can still take.
    pub open spec fn fuel(self) -> nat {
        match self.phase {
            Phase::Init => self.source.len() + usize::MAX as nat + 4,
            Phase::Bound => self.source.len() + usize::MAX as nat + 3,
            Phase::Deflate => ((self.source.len() - self.next_in) + self.avail_out
                + self.room_left + 2) as nat,
            Phase::End => 1,
            Phase::Done => 0,
        }
    }
}

/// Every encode call starts in a well-formed state.
pub proof fn lemma_initial_wf(
    source: Seq<u8>,
    config: DeflateConfig,
    chunk: u64,
    policy: Flush,
    header: HeaderFields,
)
    requires
        source.len() <= usize::MAX,
    ensures
        EncoderState::initial(source, config, chunk, policy, header).wf(),
{
    let s = EncoderState::initial(source, config, chunk, policy, header);
    assert(s.fed =~= s.source.take(0));
}

/// Refilling keeps the windows in order and leaves no exhausted window
/// while there is something to refill it from.
pub proof fn lemma_refilled(s: EncoderState)
    requires
        s.windows_ok(),
    ensures
        s.refilled().windows_ok(),
        s.refilled().avail_in == 0 ==> s.refilled().source_left == 0,
        s.refilled().avail_out == 0 ==> s.refilled().room_left == 0,
        s.refilled().avail_out + s.refilled().room_left == s.avail_out + s.room_left,
        s.refilled().avail_in + s.refilled().source_left == s.avail_in + s.source_left,
        s.refilled().next_in == s.next_in,
{
}

/// Every report leads from a well-formed state to a well-formed state.
pub proof fn lemma_step_wf(s: EncoderState, event: EventModel)
    requires
        s.wf(),
    ensures
        s.step(event).wf(),
{
    match s.phase {
        Phase::Init => {},
        Phase::Bound => {
            if let EventModel::Bound(bound) = event {
                let t = EncoderState {
                    phase: Phase::Deflate,
                    room_left: room_for(bound, s.header.len()),
                    room: room_for(bound, s.header.len()),
                    ..s
                };
                lemma_refilled(t);
            }
        },
        Phase::Deflate => {
            if let EventModel::Deflated { status, consumed, produced } = event {
                if !(consumed > s.avail_in || produced.len() > s.avail_out) {
                    let moved = EncoderState {
                        produced: s.produced + produced,
                        fed: s.fed + s.input_window().take(consumed as int),
                        next_in: s.next_in + consumed as nat,
                        avail_in: (s.avail_in - consumed) as nat,
                        avail_out: (s.avail_out - produced.len()) as nat,
                        ..s
                    };
                    assert(moved.fed =~= moved.source.take(moved.next_in as int));
                    lemma_refilled(moved);
                }
            }
        },
        Phase::End => {},
        Phase::Done => {},
    }
}

/// Every report but one made after the call is over brings the call
/// closer to its end.
pub proof fn lemma_step_uses_fuel(s: EncoderState, event: EventModel)
    requires
        s.wf(),
        !(s.phase is Done),
    ensures
        s.step(event).fuel() < s.fuel(),
{
    lemma_step_wf(s, event);
}

} // verus!
