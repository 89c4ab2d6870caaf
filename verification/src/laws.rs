//! What holds of every encode call, whatever the engine reports.
//!
//! A call is a sequence of reports fed to the driver one after the other.
//! The statements below are about all such sequences.

use crate::config::{DeflateConfig, Flush};
use crate::error::GzError;
use crate::header::{header_bytes, HeaderFields};
use crate::model::{
    lemma_initial_wf, lemma_step_uses_fuel, lemma_step_wf, Action, EncoderState, EventModel,
    MAX_WINDOW, STATUS_OK,
};
use crate::reader::{
    lemma_header_round_trip, lemma_member_round_trip, parse_header, read_member, ParsedHeader,
};
use crate::trailer::{member_bytes, trailer_bytes};
use vstd::prelude::*;

verus! {

/// The state reached from `s` after the reports `events`, first one first.
pub open spec fn run(s: EncoderState, events: Seq<EventModel>) -> EncoderState
    decreases events.len(),
{
    if events.len() == 0 {
        s
    } else {
        run(s.step(events[0]), events.drop_first())
    }
}

/// How often the engine comes to life on the way from `s` through
/// `events`: the number of initialisations that the engine reports as
/// successful.
pub open spec fn starts(s: EncoderState, events: Seq<EventModel>) -> nat
    decreases events.len(),
{
    if events.len() == 0 {
        0
    } else {
        let here: nat = if s.phase is Init && events[0] == EventModel::Status(STATUS_OK) {
            1
        } else {
            0
        };
        here + starts(s.step(events[0]), events.drop_first())
    }
}

/// How often the engine is torn down on the way from `s` through `events`:
/// the number of reports taken while the driver asks for a teardown.
pub open spec fn teardowns(s: EncoderState, events: Seq<EventModel>) -> nat
    decreases events.len(),
{
    if events.len() == 0 {
        0
    } else {
        let here: nat = if s.phase is End {
            1
        } else {
            0
        };
        here + teardowns(s.step(events[0]), events.drop_first())
    }
}

/// One if the engine holds resources in `s`, zero otherwise.
pub open spec fn held(s: EncoderState) -> nat {
    if s.live() {
        1
    } else {
        0
    }
}

/// The driver asks for work on the engine exactly while the engine holds
/// resources, asks for an initialisation only before that, and declares
/// the call over only after it.
pub proof fn lemma_actions_follow_engine_life(s: EncoderState)
    ensures
        s.action() is Init <==> s.phase is Init,
        (s.action() is Bound || s.action() is Deflate || s.action() is End) <==> s.live(),
        s.action() is Done <==> s.phase is Done,
        s.action() is Done ==> !s.live(),
{
}

/// Every window handed to the engine lies within the payload, starts
/// where the engine stopped reading, and is no larger than the window
/// limit, as is the room for output; an empty input window is handed out
/// only when the payload is used up, and the stream is finished exactly on
/// calls that hold the last of the payload.
pub proof fn lemma_windows_within_limits(s: EncoderState)
    requires
        s.wf(),
        s.phase is Deflate,
    ensures
        s.action() == (Action::Deflate {
            offset: s.next_in as usize,
            len: s.avail_in as u32,
            room: s.avail_out as u32,
            flush: s.next_flush(),
        }),
        s.next_in + s.avail_in <= s.source.len(),
        s.fed + s.input_window() == s.source.take((s.next_in + s.avail_in) as int),
        s.avail_in <= s.window <= MAX_WINDOW,
        s.avail_out <= s.window,
        s.avail_in == 0 ==> s.next_in == s.source.len(),
        s.next_in + s.avail_in == s.source.len() ==> s.next_flush() == Flush::Finish,
        s.next_in + s.avail_in < s.source.len() ==> s.next_flush() == s.policy,
{
}

/// Every state a call reaches is well formed.
pub proof fn lemma_run_wf(s: EncoderState, events: Seq<EventModel>)
    requires
        s.wf(),
    ensures
        run(s, events).wf(),
    decreases events.len(),
{
    if events.len() > 0 {
        lemma_step_wf(s, events[0]);
        lemma_run_wf(s.step(events[0]), events.drop_first());
    }
}

/// Once a call is over, further reports change nothing.
pub proof fn lemma_done_is_final(s: EncoderState, events: Seq<EventModel>)
    requires
        s.phase is Done,
    ensures
        run(s, events) == s,
        starts(s, events) == 0,
        teardowns(s, events) == 0,
    decreases events.len(),
{
    if events.len() > 0 {
        lemma_done_is_final(s, events.drop_first());
    }
}

/// The payload, the parameters, the window limit and the header never
/// change during a call, and the engine's output only grows.
pub proof fn lemma_run_keeps_inputs(s: EncoderState, events: Seq<EventModel>)
    ensures
        run(s, events).source == s.source,
        run(s, events).config == s.config,
        run(s, events).policy == s.policy,
        run(s, events).window == s.window,
        run(s, events).header == s.header,
        s.produced.is_prefix_of(run(s, events).produced),
    decreases events.len(),
{
    if events.len() > 0 {
        let t = s.step(events[0]);
        lemma_run_keeps_inputs(t, events.drop_first());
    }
}

/// The engine is torn down exactly once for each time it came to life:
/// over any stretch of a call, the starts plus the engine held at the
/// beginning equal the teardowns plus the engine held at the end.
pub proof fn lemma_teardown_balance(s: EncoderState, events: Seq<EventModel>)
    requires
        s.wf(),
    ensures
        starts(s, events) + held(s) == teardowns(s, events) + held(run(s, events)),
        starts(s, events) <= (if s.phase is Init { 1nat } else { 0nat }),
    decreases events.len(),
{
    if events.len() > 0 {
        lemma_step_wf(s, events[0]);
        lemma_teardown_balance(s.step(events[0]), events.drop_first());
    }
}

/// A call that is over has torn the engine down exactly as often as it
/// brought it to life, which is at most once: nothing is leaked and
/// nothing is released twice, on whatever path the call ended.
pub proof fn lemma_no_leak(
    source: Seq<u8>,
    config: DeflateConfig,
    chunk: u64,
    policy: Flush,
    header: HeaderFields,
    events: Seq<EventModel>,
)
    requires
        source.len() <= usize::MAX,
        run(EncoderState::initial(source, config, chunk, policy, header), events).phase is Done,
    ensures
        teardowns(EncoderState::initial(source, config, chunk, policy, header), events) == starts(
            EncoderState::initial(source, config, chunk, policy, header),
            events,
        ),
        starts(EncoderState::initial(source, config, chunk, policy, header), events) <= 1,
{
    let s = EncoderState::initial(source, config, chunk, policy, header);
    lemma_initial_wf(source, config, chunk, policy, header);
    lemma_teardown_balance(s, events);
}

/// No call goes on for ever: after as many reports as the state's fuel,
/// the call is over.
pub proof fn lemma_run_ends(s: EncoderState, events: Seq<EventModel>)
    requires
        s.wf(),
        events.len() >= s.fuel(),
    ensures
        run(s, events).phase is Done,
    decreases events.len(),
{
    if s.phase is Done {
        lemma_done_is_final(s, events);
    } else {
        lemma_step_wf(s, events[0]);
        lemma_step_uses_fuel(s, events[0]);
        lemma_run_ends(s.step(events[0]), events.drop_first());
    }
}

/// Invalid header fields fail the call with `InvalidHeaderField` before
/// anything is asked of the engine, and nothing is ever produced; no other
/// input fails that way.
pub proof fn lemma_invalid_header_field(
    source: Seq<u8>,
    config: DeflateConfig,
    chunk: u64,
    policy: Flush,
    header: HeaderFields,
    events: Seq<EventModel>,
)
    ensures
        !header.valid() ==> {
            &&& EncoderState::initial(source, config, chunk, policy, header).action() is Done
            &&& run(
                EncoderState::initial(source, config, chunk, policy, header),
                events,
            ).result() == Some(Err::<Seq<u8>, GzError>(GzError::InvalidHeaderField))
            &&& starts(EncoderState::initial(source, config, chunk, policy, header), events) == 0
        },
        header.valid() ==> run(
            EncoderState::initial(source, config, chunk, policy, header),
            events,
        ).verdict != Some(GzError::InvalidHeaderField),
{
    let s = EncoderState::initial(source, config, chunk, policy, header);
    if !header.valid() {
        lemma_done_is_final(s, events);
    } else {
        lemma_verdict_origin(s, events);
    }
}

/// `InvalidHeaderField` is never found during a run: a state has it only
/// if the run started with it.
proof fn lemma_verdict_origin(s: EncoderState, events: Seq<EventModel>)
    requires
        s.verdict != Some(GzError::InvalidHeaderField),
    ensures
        run(s, events).verdict != Some(GzError::InvalidHeaderField),
    decreases events.len(),
{
    if events.len() > 0 {
        lemma_verdict_origin(s.step(events[0]), events.drop_first());
    }
}

/// Once the engine has been asked to initialise, `InvalidParameters` is
/// never found later.
proof fn lemma_invalid_parameters_origin(s: EncoderState, events: Seq<EventModel>)
    requires
        !(s.phase is Init),
        s.verdict != Some(GzError::InvalidParameters),
    ensures
        run(s, events).verdict != Some(GzError::InvalidParameters),
    decreases events.len(),
{
    if events.len() > 0 {
        lemma_invalid_parameters_origin(s.step(events[0]), events.drop_first());
    }
}

/// With valid header fields, a call fails with `InvalidParameters` exactly
/// when the engine reports another status than OK from its initialisation;
/// the engine then never came to life and nothing is torn down.
pub proof fn lemma_invalid_parameters(
    source: Seq<u8>,
    config: DeflateConfig,
    chunk: u64,
    policy: Flush,
    header: HeaderFields,
    events: Seq<EventModel>,
)
    requires
        header.valid(),
        events.len() >= 1,
    ensures
        run(EncoderState::initial(source, config, chunk, policy, header), events).result()
            == Some(Err::<Seq<u8>, GzError>(GzError::InvalidParameters)) <==> (events[0] matches
            EventModel::Status(status) && status != STATUS_OK),
        (events[0] matches EventModel::Status(status) && status != STATUS_OK) ==> {
            &&& starts(EncoderState::initial(source, config, chunk, policy, header), events) == 0
            &&& teardowns(EncoderState::initial(source, config, chunk, policy, header), events)
                == 0
        },
{
    let s0 = EncoderState::initial(source, config, chunk, policy, header);
    let s1 = s0.step(events[0]);
    let rest = events.drop_first();
    assert(starts(s0, events) == starts(s1, rest) + (if events[0] == EventModel::Status(
        STATUS_OK,
    ) {
        1nat
    } else {
        0nat
    }));
    if events[0] matches EventModel::Status(status) && status != STATUS_OK {
        lemma_done_is_final(s1, rest);
    } else {
        lemma_invalid_parameters_origin(s1, rest);
    }
}

/// With valid header fields and window bits that do not select gzip, a
/// call whose engine accepts the parameters fails with `HeaderRejected`,
/// and the engine is torn down exactly once before the call ends.
pub proof fn lemma_header_rejected(
    source: Seq<u8>,
    config: DeflateConfig,
    chunk: u64,
    policy: Flush,
    header: HeaderFields,
    events: Seq<EventModel>,
)
    requires
        source.len() <= usize::MAX,
        header.valid(),
        !config.selects_gzip(),
        events.len() >= 2,
        events[0] == EventModel::Status(STATUS_OK),
    ensures
        EncoderState::initial(source, config, chunk, policy, header).step(events[0]).action()
            is End,
        run(EncoderState::initial(source, config, chunk, policy, header), events).result()
            == Some(Err::<Seq<u8>, GzError>(GzError::HeaderRejected)),
        teardowns(EncoderState::initial(source, config, chunk, policy, header), events) == 1,
{
    let s0 = EncoderState::initial(source, config, chunk, policy, header);
    let s1 = s0.step(events[0]);
    let rest1 = events.drop_first();
    let s2 = s1.step(rest1[0]);
    let rest2 = rest1.drop_first();
    lemma_done_is_final(s2, rest2);
    assert(run(s1, rest1) == run(s2, rest2));
    assert(teardowns(s1, rest1) == 1 + teardowns(s2, rest2));
}

/// `HeaderRejected` is the result only of calls whose window bits do not
/// select gzip.
pub proof fn lemma_header_rejected_only_without_gzip(s: EncoderState, events: Seq<EventModel>)
    requires
        s.config.selects_gzip(),
        s.verdict != Some(GzError::HeaderRejected),
    ensures
        run(s, events).verdict != Some(GzError::HeaderRejected),
    decreases events.len(),
{
    if events.len() > 0 {
        lemma_header_rejected_only_without_gzip(s.step(events[0]), events.drop_first());
    }
}

/// What a successful call returns, whatever the window limit and however
/// the engine split its work: the engine has read the whole payload, each
/// byte once and in order; the member is the serialised header, the
/// engine's output and the trailer of the payload; and a reader of the
/// member finds the header fields that were supplied.
pub proof fn lemma_success(
    source: Seq<u8>,
    config: DeflateConfig,
    chunk: u64,
    policy: Flush,
    header: HeaderFields,
    events: Seq<EventModel>,
    member: Seq<u8>,
)
    requires
        source.len() <= usize::MAX,
        run(EncoderState::initial(source, config, chunk, policy, header), events).result()
            == Some(Ok::<Seq<u8>, GzError>(member)),
    ensures
        header.valid(),
        config.selects_gzip(),
        run(EncoderState::initial(source, config, chunk, policy, header), events).fed == source,
        member == member_bytes(
            header_bytes(header, config.extra_flags()),
            run(EncoderState::initial(source, config, chunk, policy, header), events).produced,
            source,
        ),
        parse_header(member) == Some(
            ParsedHeader {
                fields: header,
                xflags: config.extra_flags(),
                len: header_bytes(header, config.extra_flags()).len() as int,
            },
        ),
        member.len() >= 8,
        member.skip(member.len() - 8) == trailer_bytes(source),
        member.len() <= header_bytes(header, config.extra_flags()).len() + run(
            EncoderState::initial(source, config, chunk, policy, header),
            events,
        ).room + 8,
{
    let s0 = EncoderState::initial(source, config, chunk, policy, header);
    let s = run(s0, events);
    lemma_initial_wf(source, config, chunk, policy, header);
    lemma_run_wf(s0, events);
    lemma_run_keeps_inputs(s0, events);
    if !header.valid() {
        lemma_done_is_final(s0, events);
    }
    let hb = header_bytes(header, config.extra_flags());
    let tail = s.produced + trailer_bytes(source);
    assert(member =~= hb + tail);
    lemma_header_round_trip(header, config.extra_flags(), tail);
}

/// Encoding and then decoding gives back what was put in: for a
/// successful call and every decompressor that turns the engine's output
/// back into what the engine read, a reader of the member finds the header
/// fields that were supplied and the payload.
pub proof fn lemma_call_round_trip(
    source: Seq<u8>,
    config: DeflateConfig,
    chunk: u64,
    policy: Flush,
    header: HeaderFields,
    events: Seq<EventModel>,
    member: Seq<u8>,
    inflate: spec_fn(Seq<u8>) -> Option<Seq<u8>>,
)
    requires
        source.len() <= usize::MAX,
        run(EncoderState::initial(source, config, chunk, policy, header), events).result()
            == Some(Ok::<Seq<u8>, GzError>(member)),
        inflate(run(EncoderState::initial(source, config, chunk, policy, header), events).produced)
            == Some(run(EncoderState::initial(source, config, chunk, policy, header), events).fed),
    ensures
        read_member(member, inflate) == Some(
            (
                ParsedHeader {
                    fields: header,
                    xflags: config.extra_flags(),
                    len: header_bytes(header, config.extra_flags()).len() as int,
                },
                source,
            ),
        ),
{
    let s = run(EncoderState::initial(source, config, chunk, policy, header), events);
    lemma_success(source, config, chunk, policy, header, events, member);
    lemma_member_round_trip(header, config.extra_flags(), s.produced, source, inflate);
}

} // verus!
