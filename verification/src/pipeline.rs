//! The whole pipeline over a delivered event stream: events are folded into
//! element trees; each completed top-level `Profile` element is decoded into
//! an aggregate, any other top-level element only yields diagnostic lines;
//! the first fatal error halts consumption, keeping what was accumulated.

use vstd::prelude::*;
use crate::builder::{builder_step, ElementBuilder, StepResult};
use crate::events::{BuildError, BuildErrorValue, EventValue, ParseEvent};
use crate::mapper::{elem_diag_lines, handle_element, handle_root, profile_of_children};
use crate::profile::{profile_values, Profile, ProfileValue};
use crate::text::str_eq;
use crate::tree::ElemValue;

verus! {

broadcast use vstd::std_specs::vec::group_vec_axioms;

/// The whole pipeline's state after some prefix of the event stream: the
/// builder's stack of open elements, the profiles decoded from completed
/// `Profile` elements, the diagnostic lines of other completed elements, and
/// the fatal error if one arrived.
#[verifier::ext_equal]
pub ghost struct PipelineState {
    pub stack: Seq<ElemValue>,
    pub profiles: Seq<ProfileValue>,
    pub diagnostics: Seq<Seq<char>>,
    pub error: Option<BuildErrorValue>,
}

/// The state before any event: everything empty, no error.
pub open spec fn pipeline_init() -> PipelineState {
    PipelineState {
        stack: Seq::empty(),
        profiles: Seq::empty(),
        diagnostics: Seq::empty(),
        error: None,
    }
}

/// How one event advances the pipeline. Once a fatal error is recorded no
/// further event changes anything: consumption has stopped.
pub open spec fn pipeline_step(st: PipelineState, ev: EventValue) -> PipelineState {
    if st.error is Some {
        st
    } else {
        match builder_step(st.stack, ev) {
            StepResult::Continue { stack } => PipelineState { stack, ..st },
            StepResult::Complete { stack, element } => {
                if element.name == "Profile"@ {
                    PipelineState {
                        stack,
                        profiles: st.profiles.push(profile_of_children(element.children)),
                        ..st
                    }
                } else {
                    PipelineState {
                        stack,
                        diagnostics: st.diagnostics + elem_diag_lines(element),
                        ..st
                    }
                }
            },
            StepResult::Halt { stack, error } => PipelineState { stack, error: Some(error), ..st },
        }
    }
}

/// The pipeline's state after a whole event sequence.
pub open spec fn pipeline_run(events: Seq<EventValue>) -> PipelineState
    decreases events.len(),
{
    if events.len() == 0 {
        pipeline_init()
    } else {
        pipeline_step(pipeline_run(events.drop_last()), events.last())
    }
}

/// After a fatal error, the rest of the stream changes nothing.
pub proof fn lemma_pipeline_halted(events: Seq<EventValue>, k: int)
    requires
        0 <= k <= events.len(),
        pipeline_run(events.take(k)).error is Some,
    ensures
        pipeline_run(events) == pipeline_run(events.take(k)),
    decreases events.len() - k,
{
    if k < events.len() {
        assert(events.take(k + 1).drop_last() =~= events.take(k));
        assert(events.take(k + 1).last() == events[k]);
        lemma_pipeline_halted(events, k + 1);
    } else {
        assert(events.take(k) =~= events);
    }
}

/// Everything a parse invocation yields: the profiles decoded from completed
/// `Profile` elements, diagnostic lines for other completed top-level
/// elements, and the fatal error that halted consumption, if one did. A
/// failed parse still hands back what was accumulated before the failure.
pub struct ParseOutcome {
    pub profiles: Vec<Profile>,
    pub diagnostics: Vec<String>,
    pub error: Option<BuildError>,
}

/// The mathematical values of a delivered event sequence.
pub open spec fn event_values(events: Seq<ParseEvent>) -> Seq<EventValue> {
    events.map_values(|ev: ParseEvent| ev@)
}

/// Consumes a delivered event stream in order: each event is folded into the
/// element stack; a completed top-level `Profile` element is decoded into a
/// profile, any other completed element yields diagnostic lines; the first
/// fatal error stops consumption and is reported beside whatever was
/// accumulated before it.
pub fn process_events(events: Vec<ParseEvent>) -> (out: ParseOutcome)
    ensures
        ({
            let st = pipeline_run(event_values(events@));
            &&& profile_values(out.profiles@) == st.profiles
            &&& out.diagnostics.deep_view() == st.diagnostics
            &&& match st.error {
                Some(err) => out.error matches Some(e) && e@ == err,
                None => out.error is None,
            }
        }),
{
    let ghost evs = event_values(events@);
    let mut remaining = events;
    let mut builder = ElementBuilder::new();
    let mut profiles: Vec<Profile> = Vec::new();
    let mut diagnostics: Vec<String> = Vec::new();
    let ghost mut k: int = 0;
    proof {
        assert(event_values(remaining@) =~= evs.skip(0));
        assert(evs.take(0) =~= Seq::<EventValue>::empty());
        assert(profile_values(profiles@) =~= Seq::<ProfileValue>::empty());
        assert(diagnostics.deep_view() =~= Seq::<Seq<char>>::empty());
    }
    while remaining.len() > 0
        invariant
            evs == event_values(events@),
            0 <= k <= evs.len(),
            event_values(remaining@) == evs.skip(k),
            pipeline_run(evs.take(k)).error is None,
            builder@ == pipeline_run(evs.take(k)).stack,
            profile_values(profiles@) == pipeline_run(evs.take(k)).profiles,
            diagnostics.deep_view() == pipeline_run(evs.take(k)).diagnostics,
        decreases remaining@.len(),
    {
        let ghost st = pipeline_run(evs.take(k));
        let ghost remaining0 = remaining@;
        proof {
            assert(event_values(remaining0).len() == evs.skip(k).len());
        }
        let ev = remaining.remove(0);
        proof {
            assert(event_values(remaining0)[0] == remaining0[0]@);
            assert(evs.skip(k)[0] == evs[k]);
            assert(ev@ == evs[k]);
            assert(event_values(remaining@) =~= evs.skip(k + 1)) by {
                assert(remaining@ == remaining0.remove(0));
                assert forall|i: int| 0 <= i < remaining@.len() implies event_values(
                    remaining@,
                )[i] == evs.skip(k + 1)[i] by {
                    assert(remaining@[i] == remaining0[i + 1]);
                    assert(event_values(remaining0)[i + 1] == evs.skip(k)[i + 1]);
                    assert(evs.skip(k)[i + 1] == evs[k + 1 + i]);
                    assert(evs.skip(k + 1)[i] == evs[k + 1 + i]);
                }
            }
            assert(evs.take(k + 1).drop_last() =~= evs.take(k));
            assert(evs.take(k + 1).last() == evs[k]);
        }
        let ghost st_next = pipeline_step(st, evs[k]);
        match builder.push_event(ev) {
            Ok(completed) => {
                match completed {
                    None => {},
                    Some(node) => {
                        if str_eq(node.name.as_str(), "Profile") {
                            let ghost profiles0 = profiles@;
                            let decoded = handle_root(&node);
                            profiles.push(decoded);
                            proof {
                                assert(profile_values(profiles@) =~= profile_values(
                                    profiles0,
                                ).push(decoded@));
                            }
                        } else {
                            let ghost diagnostics0 = diagnostics.deep_view();
                            let mut lines = handle_element(&node);
                            let ghost linesv = lines.deep_view();
                            diagnostics.append(&mut lines);
                            proof {
                                assert(diagnostics.deep_view() =~= diagnostics0 + linesv);
                            }
                        }
                    },
                }
            },
            Err(err) => {
                proof {
                    lemma_pipeline_halted(evs, k + 1);
                }
                return ParseOutcome { profiles, diagnostics, error: Some(err) };
            },
        }
        proof {
            k = k + 1;
        }
    }
    proof {
        assert(evs.skip(k).len() == 0);
        assert(evs.take(k) =~= evs);
    }
    ParseOutcome { profiles, diagnostics, error: None }
}

} // verus!
