//! The plan-execute-observe loop as a state machine. The host application
//! performs each returned action (screenshot, plan request, command run
//! followed by the stated delay) and feeds the outcome back as an event;
//! every transition — what enters the session, which action comes next,
//! when the loop finishes or gives up — is decided and verified here.
//!
//! The loop observes first, so the first plan request already carries the
//! screenshot taken at loop start. A `finish` plan ends the loop at once,
//! with no command run and no further screenshot; otherwise the plan's
//! commands run in order, a note about the executed plan and a fresh
//! screenshot enter the session, and the next round begins. After
//! `MAX_STEPS` plan requests without a `finish`, the loop ends exhausted.

use vstd::prelude::*;
use vstd::string::*;
use crate::errors::AgentError;
use crate::qutebrowser::{command_accepted, command_delay_ms, spec_command_delay, validate_command};
use crate::text::str_eq;
use crate::types::{
    BrowserCommand, BrowserPlan, GeminiContent, Session, conversation_matches, pushed_message,
};

verus! {

/// The most plan requests one instruction may make.
pub const MAX_STEPS: u64 = 10;

/// The fixed answer when the step budget runs out.
pub open spec fn exhausted_text() -> Seq<char> {
    "Maximum steps reached. Task may be incomplete."@
}

/// The note stored in the session after a plan's commands have run.
pub open spec fn executed_note(thought: Seq<char>) -> Seq<char> {
    "Executed plan: "@ + thought
}

/// Where the loop stands: waiting for a screenshot, waiting for a plan,
/// running a plan's commands (with the one at `next` in flight), or done.
#[derive(Debug)]
pub enum AgentPhase {
    Observing,
    Planning,
    Executing { steps: Vec<BrowserCommand>, next: usize, thought: String },
    Done,
}

/// One instruction's run: the live instruction, how many plan requests were
/// made, and the current phase.
#[derive(Debug)]
pub struct AgentRun {
    pub instruction: String,
    pub plan_calls: u64,
    pub phase: AgentPhase,
}

/// What the host application reports back: a captured screenshot, a parsed
/// and validated plan, or a finished command run.
#[derive(Debug)]
pub enum AgentEvent {
    Screenshot { image: String },
    Plan { plan: BrowserPlan },
    CommandDone,
}

/// What the host application is asked to do next.
#[derive(Debug)]
pub enum AgentAction {
    TakeScreenshot,
    RequestPlan { conversation: Vec<GeminiContent> },
    RunCommand { command: String, delay_ms: u64 },
    Finish { result: String },
}

/// The run's invariant: the budget is never exceeded, a plan is only
/// awaited while budget remains, and the in-flight command index is in
/// range.
pub open spec fn run_wf(r: AgentRun) -> bool {
    &&& r.plan_calls <= MAX_STEPS
    &&& (r.phase is Planning ==> r.plan_calls < MAX_STEPS)
    &&& (r.phase matches AgentPhase::Executing { steps, next, .. } ==> next < steps@.len())
}

/// Which event answers which phase.
pub open spec fn event_fits(phase: AgentPhase, ev: AgentEvent) -> bool {
    match ev {
        AgentEvent::Screenshot { .. } => phase is Observing,
        AgentEvent::Plan { .. } => phase is Planning,
        AgentEvent::CommandDone => phase is Executing,
    }
}

/// A finished iteration: the note about the executed plan enters the
/// session and the loop goes back to observing.
pub open spec fn iteration_closed(
    s0: Session,
    s1: Session,
    r1: AgentRun,
    thought: Seq<char>,
    out: Result<AgentAction, AgentError>,
) -> bool {
    &&& pushed_message(s0, s1, "assistant"@, executed_note(thought))
    &&& r1.phase is Observing
    &&& out matches Ok(a) && a is TakeScreenshot
}

/// The loop aborts on a command that lacks the `:` prefix, before any
/// external process would be invoked.
pub open spec fn rejected_command(
    s0: Session,
    s1: Session,
    r1: AgentRun,
    cmd: Seq<char>,
    out: Result<AgentAction, AgentError>,
) -> bool {
    &&& s1 == s0
    &&& r1.phase is Done
    &&& out matches Err(e) && e matches AgentError::Validation { command } && command@ == cmd
}

/// The next command goes out, with the delay its class calls for.
pub open spec fn command_dispatched(
    steps: Seq<BrowserCommand>,
    at: int,
    thought: Seq<char>,
    r1: AgentRun,
    out: Result<AgentAction, AgentError>,
) -> bool {
    &&& r1.phase matches AgentPhase::Executing { steps: st, next, thought: th } && st@ == steps
        && next == at && th@ == thought
    &&& out matches Ok(a) && a matches AgentAction::RunCommand { command, delay_ms } && command@
        == steps[at].command@ && delay_ms == spec_command_delay(steps[at].command@)
}

/// The screenshot enters the session; then either the budget is spent and
/// the loop ends exhausted, or the conversation goes out for planning.
pub open spec fn observe_step(
    r0: AgentRun,
    s0: Session,
    image: String,
    r1: AgentRun,
    s1: Session,
    out: Result<AgentAction, AgentError>,
) -> bool {
    &&& s1.id == s0.id
    &&& s1.messages == s0.messages
    &&& s1.images@ == s0.images@.push(image)
    &&& r1.plan_calls == r0.plan_calls
    &&& if r0.plan_calls == MAX_STEPS {
        &&& r1.phase is Done
        &&& out matches Ok(a) && a matches AgentAction::Finish { result } && result@
            == exhausted_text()
    } else {
        &&& r1.phase is Planning
        &&& out matches Ok(a) && a matches AgentAction::RequestPlan { conversation }
            && conversation_matches(conversation@, s1.messages@, s1.images@, r0.instruction@)
    }
}

/// The plan request is counted; a `finish` plan ends the loop with its
/// thought, a plan with steps dispatches the first command (or is rejected
/// on a bad prefix), and a plan without steps closes the iteration with no
/// command run.
pub open spec fn plan_step(
    r0: AgentRun,
    s0: Session,
    plan: BrowserPlan,
    r1: AgentRun,
    s1: Session,
    out: Result<AgentAction, AgentError>,
) -> bool {
    &&& r1.plan_calls == r0.plan_calls + 1
    &&& if plan.action@ == "finish"@ {
        &&& s1 == s0
        &&& r1.phase is Done
        &&& out matches Ok(a) && a matches AgentAction::Finish { result } && result
            == plan.thought
    } else {
        match plan.steps {
            Some(steps) => {
                if steps@.len() > 0 {
                    if command_accepted(steps@[0].command@) {
                        &&& s1 == s0
                        &&& command_dispatched(steps@, 0, plan.thought@, r1, out)
                    } else {
                        rejected_command(s0, s1, r1, steps@[0].command@, out)
                    }
                } else {
                    iteration_closed(s0, s1, r1, plan.thought@, out)
                }
            },
            None => iteration_closed(s0, s1, r1, plan.thought@, out),
        }
    }
}

/// The finished command either advances to the next one (validated and
/// dispatched with its delay) or, after the last one, closes the iteration.
pub open spec fn command_step(
    r0: AgentRun,
    s0: Session,
    r1: AgentRun,
    s1: Session,
    out: Result<AgentAction, AgentError>,
) -> bool {
    match r0.phase {
        AgentPhase::Executing { steps, next, thought } => {
            &&& r1.plan_calls == r0.plan_calls
            &&& if next + 1 < steps@.len() {
                if command_accepted(steps@[next + 1].command@) {
                    &&& s1 == s0
                    &&& command_dispatched(steps@, next + 1, thought@, r1, out)
                } else {
                    rejected_command(s0, s1, r1, steps@[next + 1].command@, out)
                }
            } else {
                iteration_closed(s0, s1, r1, thought@, out)
            }
        },
        _ => false,
    }
}

/// One transition of the loop, by the event that arrived.
pub open spec fn step_spec(
    r0: AgentRun,
    s0: Session,
    ev: AgentEvent,
    r1: AgentRun,
    s1: Session,
    out: Result<AgentAction, AgentError>,
) -> bool {
    &&& r1.instruction == r0.instruction
    &&& match ev {
        AgentEvent::Screenshot { image } => observe_step(r0, s0, image, r1, s1, out),
        AgentEvent::Plan { plan } => plan_step(r0, s0, plan, r1, s1, out),
        AgentEvent::CommandDone => command_step(r0, s0, r1, s1, out),
    }
}

/// Starts a run: no plan requested yet, and the first thing the loop does
/// is observe, so the first plan request will carry this screenshot.
pub fn agent_start(instruction: String) -> (r: (AgentRun, AgentAction))
    ensures
        r.0.instruction == instruction,
        r.0.plan_calls == 0,
        r.0.phase is Observing,
        run_wf(r.0),
        r.1 is TakeScreenshot,
{
    (
        AgentRun { instruction, plan_calls: 0, phase: AgentPhase::Observing },
        AgentAction::TakeScreenshot,
    )
}

/// Feeds one event into the run and decides the next action; the session
/// gains exactly what the transition says (a screenshot, or the note about
/// an executed plan). An `Err` aborts the run, as a capture or plan error
/// does; a failed command run is the host's business and is never reported
/// here.
pub fn agent_step(run: &mut AgentRun, session: &mut Session, event: AgentEvent) -> (r: Result<
    AgentAction,
    AgentError,
>)
    requires
        run_wf(*old(run)),
        event_fits(old(run).phase, event),
    ensures
        run_wf(*final(run)),
        step_spec(*old(run), *old(session), event, *final(run), *final(session), r),
{
    match event {
        AgentEvent::Screenshot { image } => {
            session.add_image(image);
            if run.plan_calls == MAX_STEPS {
                run.phase = AgentPhase::Done;
                Ok(AgentAction::Finish {
                    result: String::from_str("Maximum steps reached. Task may be incomplete."),
                })
            } else {
                run.phase = AgentPhase::Planning;
                let conversation = session.build_gemini_conversation(run.instruction.as_str());
                Ok(AgentAction::RequestPlan { conversation })
            }
        },
        AgentEvent::Plan { plan } => {
            run.plan_calls = run.plan_calls + 1;
            let BrowserPlan { action, thought, witty_message: _, steps } = plan;
            if str_eq(action.as_str(), "finish") {
                run.phase = AgentPhase::Done;
                Ok(AgentAction::Finish { result: thought })
            } else {
                match steps {
                    Some(steps) => {
                        if steps.len() > 0 {
                            dispatch_command(run, steps, 0, thought)
                        } else {
                            close_iteration(run, session, thought)
                        }
                    },
                    None => close_iteration(run, session, thought),
                }
            }
        },
        AgentEvent::CommandDone => {
            let mut ph = AgentPhase::Observing;
            core::mem::swap(&mut ph, &mut run.phase);
            match ph {
                AgentPhase::Executing { steps, next, thought } => {
                    proof {
                        assert(ph == old(run).phase);
                        assert(next < steps@.len());
                    }
                    let n = steps.len();
                    if next + 1 < n {
                        dispatch_command(run, steps, next + 1, thought)
                    } else {
                        close_iteration(run, session, thought)
                    }
                },
                _ => {
                    proof {
                        assert(false);
                    }
                    Ok(AgentAction::TakeScreenshot)
                },
            }
        },
    }
}

/// Validates the command at `at` and hands it out with its delay, or
/// rejects it and ends the run.
fn dispatch_command(run: &mut AgentRun, steps: Vec<BrowserCommand>, at: usize, thought: String)
    -> (r: Result<AgentAction, AgentError>)
    requires
        at < steps@.len(),
    ensures
        final(run).instruction == old(run).instruction,
        final(run).plan_calls == old(run).plan_calls,
        !(final(run).phase is Planning),
        final(run).phase matches AgentPhase::Executing { steps: st, next, .. } ==> next
            < st@.len(),
        if command_accepted(steps@[at as int].command@) {
            command_dispatched(steps@, at as int, thought@, *final(run), r)
        } else {
            &&& final(run).phase is Done
            &&& r matches Err(e) && e matches AgentError::Validation { command } && command@
                == steps@[at as int].command@
        },
{
    let command = steps[at].command.clone();
    match validate_command(command.as_str()) {
        Ok(()) => {
            let delay_ms = command_delay_ms(command.as_str());
            run.phase = AgentPhase::Executing { steps, next: at, thought };
            Ok(AgentAction::RunCommand { command, delay_ms })
        },
        Err(e) => {
            run.phase = AgentPhase::Done;
            Err(e)
        },
    }
}

/// Closes an iteration: stores the note about the executed plan and asks
/// for the next screenshot.
fn close_iteration(run: &mut AgentRun, session: &mut Session, thought: String) -> (r: Result<
    AgentAction,
    AgentError,
>)
    ensures
        final(run).instruction == old(run).instruction,
        final(run).plan_calls == old(run).plan_calls,
        final(run).phase is Observing,
        pushed_message(*old(session), *final(session), "assistant"@, executed_note(thought@)),
        r matches Ok(a) && a is TakeScreenshot,
{
    let mut note = String::from_str("Executed plan: ");
    note.append(thought.as_str());
    session.add_assistant_message(note);
    run.phase = AgentPhase::Observing;
    Ok(AgentAction::TakeScreenshot)
}

/// The number of plan requests answered in a run's event sequence.
pub open spec fn plan_event_count(events: Seq<AgentEvent>) -> int
    decreases events.len(),
{
    if events.len() == 0 {
        0
    } else {
        plan_event_count(events.drop_last()) + match events.last() {
            AgentEvent::Plan { .. } => 1int,
            _ => 0int,
        }
    }
}

/// A whole run of the loop: a chain of transitions, each starting
/// well-formed, answering the phase it stands in, and satisfying the step
/// relation.
pub open spec fn run_trace(
    runs: Seq<AgentRun>,
    sessions: Seq<Session>,
    events: Seq<AgentEvent>,
    outs: Seq<Result<AgentAction, AgentError>>,
) -> bool {
    &&& runs.len() == events.len() + 1
    &&& sessions.len() == events.len() + 1
    &&& outs.len() == events.len()
    &&& forall|i: int|
        0 <= i < events.len() ==> run_wf(#[trigger] runs[i]) && event_fits(
            runs[i].phase,
            events[i],
        ) && step_spec(runs[i], sessions[i], events[i], runs[i + 1], sessions[i + 1], outs[i])
}

/// The loop's answer when the budget ran out.
pub open spec fn exhausted_finish(out: Result<AgentAction, AgentError>) -> bool {
    out matches Ok(a) && a matches AgentAction::Finish { result } && result@ == exhausted_text()
}

/// Along any run that starts fresh, the budget counter equals the number
/// of plan requests answered so far.
proof fn lemma_plan_calls_track(
    runs: Seq<AgentRun>,
    sessions: Seq<Session>,
    events: Seq<AgentEvent>,
    outs: Seq<Result<AgentAction, AgentError>>,
    i: int,
)
    requires
        run_trace(runs, sessions, events, outs),
        runs[0].plan_calls == 0,
        0 <= i <= events.len(),
    ensures
        runs[i].plan_calls == plan_event_count(events.take(i)),
    decreases i,
{
    if i == 0 {
        assert(events.take(0) =~~= Seq::<AgentEvent>::empty());
    } else {
        lemma_plan_calls_track(runs, sessions, events, outs, i - 1);
        assert(events.take(i).drop_last() =~~= events.take(i - 1));
        assert(events.take(i).last() == events[i - 1]);
        assert(step_spec(
            runs[i - 1],
            sessions[i - 1],
            events[i - 1],
            runs[i],
            sessions[i],
            outs[i - 1],
        ));
        match events[i - 1] {
            AgentEvent::Screenshot { image } => {
                assert(runs[i].plan_calls == runs[i - 1].plan_calls);
            },
            AgentEvent::Plan { plan } => {
                assert(runs[i].plan_calls == runs[i - 1].plan_calls + 1);
            },
            AgentEvent::CommandDone => {
                assert(runs[i].plan_calls == runs[i - 1].plan_calls);
            },
        }
    }
}

/// Over any whole run that starts fresh and is never handed a `finish`
/// plan, the loop makes at most `MAX_STEPS` plan requests; and when the
/// run ends with the exhaustion answer, exactly `MAX_STEPS` plan requests
/// were made — the budget is spent in full and never exceeded by one.
pub proof fn lemma_exhaustion_after_max_plan_calls(
    runs: Seq<AgentRun>,
    sessions: Seq<Session>,
    events: Seq<AgentEvent>,
    outs: Seq<Result<AgentAction, AgentError>>,
)
    requires
        run_trace(runs, sessions, events, outs),
        runs[0].plan_calls == 0,
        forall|i: int|
            0 <= i < events.len() ==> match #[trigger] events[i] {
                AgentEvent::Plan { plan } => plan.action@ != "finish"@,
                _ => true,
            },
    ensures
        plan_event_count(events) <= MAX_STEPS,
        events.len() > 0 && exhausted_finish(outs.last()) ==> plan_event_count(events)
            == MAX_STEPS,
{
    let n = events.len() as int;
    assert(events.take(n) =~~= events);
    if n == 0 {
        assert(plan_event_count(events) == 0);
    } else {
        lemma_plan_calls_track(runs, sessions, events, outs, n);
        lemma_plan_calls_track(runs, sessions, events, outs, n - 1);
        assert(step_spec(
            runs[n - 1],
            sessions[n - 1],
            events[n - 1],
            runs[n],
            sessions[n],
            outs[n - 1],
        ));
        assert(run_wf(runs[n - 1]));
        // The last step cannot push the counter past the budget.
        match events[n - 1] {
            AgentEvent::Screenshot { image } => {
                assert(runs[n].plan_calls <= MAX_STEPS);
            },
            AgentEvent::Plan { plan } => {
                assert(runs[n - 1].phase is Planning);
                assert(runs[n - 1].plan_calls < MAX_STEPS);
                assert(runs[n].plan_calls <= MAX_STEPS);
            },
            AgentEvent::CommandDone => {
                assert(runs[n].plan_calls <= MAX_STEPS);
            },
        }
        if exhausted_finish(outs.last()) {
            assert(outs.last() == outs[n - 1]);
            // Only the observation step with the budget already spent can
            // answer with the exhaustion text.
            match events[n - 1] {
                AgentEvent::Screenshot { image } => {
                    assert(runs[n - 1].plan_calls == MAX_STEPS);
                    assert(events.drop_last() =~~= events.take(n - 1));
                    assert(plan_event_count(events) == plan_event_count(events.take(n - 1)));
                },
                AgentEvent::Plan { plan } => {
                    assert(plan.action@ != "finish"@);
                    assert(false);
                },
                AgentEvent::CommandDone => {
                    assert(false);
                },
            }
        }
    }
}

} // verus!
