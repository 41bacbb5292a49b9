//! The runtime worker: one prompt in flight at a time, raced against the
//! notification stream, the outcome assembled from the agent's reply and the
//! whole accumulated text.
//!
//! The surrounding program owns the subprocess, the command queue and the
//! live connection; it feeds what those yield into `PromptRace` as events.
//! `run_prompt` and `run_worker` state the algorithm over complete event
//! histories: a finite event list that ends without the prompt resolving
//! models the notification stream closing first.

use vstd::prelude::*;
use crate::errors::AcpError;
use crate::session::Notification;
use crate::session::SessionId;
use crate::session::ContentBlock;
use crate::session::accumulated;
use crate::session::chunk_text;
use crate::session::drain_buffered;
use crate::session::handle_notification;

verus! {

/// Why the agent ended a turn, as the protocol enumerates it.
#[derive(Clone, Copy, PartialEq, Eq, Structural, Debug)]
pub enum StopReason {
    EndTurn,
    MaxTokens,
    MaxTurnRequests,
    Refusal,
    Cancelled,
}

/// What the agent's prompt request resolves to: a stop reason and an
/// optional structured payload, carried through untouched.
pub struct PromptReply {
    pub stop_reason: StopReason,
    pub meta: Option<serde_json::Value>,
}

/// The aggregated answer delivered to the caller: the reply's stop reason
/// and payload, together with the entire text accumulated during the race.
#[derive(Debug)]
pub struct PromptResult {
    pub stop_reason: StopReason,
    pub meta: Option<serde_json::Value>,
    pub text: String,
}

/// A command dequeued by the worker.
pub enum Command {
    Prompt { text: String },
}

/// The prompt text a command carries.
pub open spec fn command_text(cmd: Command) -> Seq<char> {
    match cmd {
        Command::Prompt { text } => text@,
    }
}

/// One observation made while a prompt is in flight: a streamed
/// notification, the notification stream closing, or the prompt request
/// resolving.
pub enum RaceEvent {
    Notification(Notification),
    Closed,
    Resolved(Result<PromptReply, AcpError>),
}

/// The outbound prompt request: the active session and a single text
/// content block holding the caller's prompt.
pub struct PromptCall {
    pub session_id: SessionId,
    pub content: Vec<ContentBlock>,
}

/// Exactly one content block, a text block reading `t`.
pub open spec fn single_text_content(content: Seq<ContentBlock>, t: Seq<char>) -> bool {
    &&& content.len() == 1
    &&& match content[0] {
        ContentBlock::Text(s) => s@ == t,
        _ => false,
    }
}

/// Build the request issued for one prompt command.
pub fn build_prompt_call(session_id: &SessionId, text: String) -> (c: PromptCall)
    ensures
        c.session_id@ == session_id@,
        single_text_content(c.content@, text@),
{
    let mut content: Vec<ContentBlock> = Vec::new();
    content.push(ContentBlock::Text(text));
    PromptCall { session_id: session_id.duplicate(), content }
}

/// The race between the pending prompt request and the notification
/// stream, with the accumulator it fills.
pub struct PromptRace {
    pub session_id: SessionId,
    pub text: String,
    pub outcome: Option<Result<PromptReply, AcpError>>,
}

/// What assembling the result after the race yields: the reply's stop
/// reason and payload with the full accumulated text on success, the
/// reply's error unchanged on failure, and a synthesized cancellation
/// error when the request never resolved.
pub open spec fn race_finish_holds(race: PromptRace, r: Result<PromptResult, AcpError>) -> bool {
    match race.outcome {
        Some(Ok(reply)) => r matches Ok(p) && p.stop_reason == reply.stop_reason && p.meta
            == reply.meta && p.text@ == race.text@,
        Some(Err(e)) => r matches Err(e2) && e2 == e,
        None => r matches Err(e) && e.is_internal("Prompt cancelled"@),
    }
}

impl PromptRace {
    pub fn new(session_id: SessionId) -> (r: PromptRace)
        ensures
            r.session_id@ == session_id@,
            r.text@ == Seq::<char>::empty(),
            r.outcome is None,
    {
        PromptRace { session_id, text: String::new(), outcome: None }
    }

    /// Advance the race by one observation. Returns whether the race is
    /// over. A notification only ever adds its contribution for the active
    /// session to the accumulator; resolution captures the outcome and
    /// changes no text.
    pub fn on_event(&mut self, ev: RaceEvent) -> (done: bool)
        requires
            old(self).outcome is None,
        ensures
            final(self).session_id@ == old(self).session_id@,
            match ev {
                RaceEvent::Notification(n) => {
                    &&& !done
                    &&& final(self).text@ == old(self).text@ + chunk_text(
                        old(self).session_id@,
                        n,
                    )
                    &&& final(self).outcome is None
                },
                RaceEvent::Closed => {
                    &&& done
                    &&& final(self).text@ == old(self).text@
                    &&& final(self).outcome is None
                },
                RaceEvent::Resolved(r) => {
                    &&& done
                    &&& final(self).text@ == old(self).text@
                    &&& final(self).outcome == Some(r)
                },
            },
    {
        match ev {
            RaceEvent::Notification(n) => {
                let sid = self.session_id.duplicate();
                handle_notification(&n, &sid, &mut self.text);
                false
            },
            RaceEvent::Closed => true,
            RaceEvent::Resolved(r) => {
                self.outcome = Some(r);
                true
            },
        }
    }

    /// Drain notifications already buffered when the race concluded, so
    /// trailing chunks delivered concurrently with completion are kept.
    pub fn drain(&mut self, trailing: &Vec<Notification>)
        ensures
            final(self).session_id@ == old(self).session_id@,
            final(self).outcome == old(self).outcome,
            final(self).text@ == old(self).text@ + accumulated(old(self).session_id@, trailing@),
    {
        let sid = self.session_id.duplicate();
        drain_buffered(trailing, &sid, &mut self.text);
    }

    /// Assemble the prompt's outcome.
    pub fn finish(self) -> (r: Result<PromptResult, AcpError>)
        ensures
            race_finish_holds(self, r),
    {
        let PromptRace { session_id: _session_id, text, outcome } = self;
        match outcome {
            Some(Ok(reply)) => Ok(
                PromptResult { stop_reason: reply.stop_reason, meta: reply.meta, text },
            ),
            Some(Err(e)) => Err(e),
            None => Err(AcpError::internal("Prompt cancelled")),
        }
    }
}

/// The text accumulated during the race: contributions of the
/// notifications observed before the first terminating event, in arrival
/// order.
pub open spec fn race_text(sid: Seq<char>, events: Seq<RaceEvent>) -> Seq<char>
    decreases events.len(),
{
    if events.len() == 0 {
        Seq::empty()
    } else {
        match events.first() {
            RaceEvent::Notification(n) => chunk_text(sid, n) + race_text(
                sid,
                events.drop_first(),
            ),
            _ => Seq::empty(),
        }
    }
}

/// How the race ends: the first resolution captured, `None` when the
/// stream closes (or yields nothing further) before the prompt resolves.
pub open spec fn race_outcome(events: Seq<RaceEvent>) -> Option<Result<PromptReply, AcpError>>
    decreases events.len(),
{
    if events.len() == 0 {
        None
    } else {
        match events.first() {
            RaceEvent::Notification(_) => race_outcome(events.drop_first()),
            RaceEvent::Closed => None,
            RaceEvent::Resolved(r) => Some(r),
        }
    }
}

/// Law: a notification tagged with another session is never reflected in
/// the race, wherever in the event order it arrives: neither the text nor
/// the outcome changes.
pub proof fn lemma_race_foreign_invisible(
    sid: Seq<char>,
    events: Seq<RaceEvent>,
    i: int,
    n: Notification,
)
    requires
        0 <= i <= events.len(),
        n.session_id@ != sid,
    ensures
        race_text(sid, events.insert(i, RaceEvent::Notification(n))) == race_text(sid, events),
        race_outcome(events.insert(i, RaceEvent::Notification(n))) == race_outcome(events),
    decreases i,
{
    let ins = events.insert(i, RaceEvent::Notification(n));
    if i == 0 {
        assert(ins.first() == RaceEvent::Notification(n));
        assert(ins.drop_first() =~= events);
        assert(chunk_text(sid, n) =~= Seq::<char>::empty());
        assert(race_text(sid, ins) == chunk_text(sid, n) + race_text(sid, events));
        assert(chunk_text(sid, n) + race_text(sid, events) =~= race_text(sid, events));
    } else {
        assert(ins.first() == events.first());
        match events.first() {
            RaceEvent::Notification(m) => {
                lemma_race_foreign_invisible(sid, events.drop_first(), i - 1, n);
                assert(ins.drop_first() =~= events.drop_first().insert(
                    i - 1,
                    RaceEvent::Notification(n),
                ));
            },
            RaceEvent::Closed => {},
            RaceEvent::Resolved(_) => {},
        }
    }
}

/// The exact result of one prompt, given the events observed during the
/// race and the buffer drained after it: on success the reply's stop
/// reason and payload with the entire accumulated text; the reply's error
/// unchanged on failure; a cancellation error when the stream closed
/// before the prompt resolved.
pub open spec fn prompt_spec_holds(
    sid: Seq<char>,
    events: Seq<RaceEvent>,
    trailing: Seq<Notification>,
    r: Result<PromptResult, AcpError>,
) -> bool {
    let text = race_text(sid, events) + accumulated(sid, trailing);
    match race_outcome(events) {
        Some(Ok(reply)) => r matches Ok(p) && p.stop_reason == reply.stop_reason && p.meta
            == reply.meta && p.text@ == text,
        Some(Err(e)) => r matches Err(e2) && e2 == e,
        None => r matches Err(e) && e.is_internal("Prompt cancelled"@),
    }
}

/// Drive one prompt to completion over a complete event history.
pub fn run_prompt(session_id: &SessionId, events: Vec<RaceEvent>, trailing: &Vec<Notification>) -> (r:
    Result<PromptResult, AcpError>)
    ensures
        prompt_spec_holds(session_id@, events@, trailing@, r),
{
    let ghost events0 = events@;
    let mut events = events;
    let mut race = PromptRace::new(session_id.duplicate());
    let mut done = false;
    proof {
        assert(race.text@ + race_text(session_id@, events0) =~= race_text(session_id@, events0));
    }
    while !done && events.len() > 0
        invariant
            race.session_id@ == session_id@,
            !done ==> race.outcome is None,
            !done ==> race_text(session_id@, events0) == race.text@ + race_text(
                session_id@,
                events@,
            ),
            !done ==> race_outcome(events0) == race_outcome(events@),
            done ==> race_outcome(events0) == race.outcome,
            done ==> race_text(session_id@, events0) == race.text@,
        decreases events.len(),
    {
        let ghost prev = events@;
        let ev = events.remove(0);
        proof {
            assert(prev.remove(0) =~= prev.drop_first());
            assert(prev.first() == ev);
        }
        let ghost ev0 = ev;
        let ghost text_before = race.text@;
        done = race.on_event(ev);
        proof {
            match ev0 {
                RaceEvent::Notification(n) => {
                    assert(race_text(session_id@, prev) == chunk_text(session_id@, n) + race_text(
                        session_id@,
                        events@,
                    ));
                    assert(text_before + (chunk_text(session_id@, n) + race_text(
                        session_id@,
                        events@,
                    )) =~= (text_before + chunk_text(session_id@, n)) + race_text(
                        session_id@,
                        events@,
                    ));
                },
                RaceEvent::Closed => {
                    assert(race_text(session_id@, prev) =~= Seq::<char>::empty());
                    assert(text_before + race_text(session_id@, prev) =~= text_before);
                },
                RaceEvent::Resolved(r) => {
                    assert(race_text(session_id@, prev) =~= Seq::<char>::empty());
                    assert(text_before + race_text(session_id@, prev) =~= text_before);
                },
            }
        }
    }
    proof {
        if !done {
            assert(race_text(session_id@, events@) =~= Seq::<char>::empty());
            assert(race.text@ + race_text(session_id@, events@) =~= race.text@);
        }
        assert(race_text(session_id@, events0) == race.text@);
        assert(race_outcome(events0) == race.outcome);
    }
    race.drain(trailing);
    race.finish()
}

/// The worker's two externally visible states: waiting for the next
/// command, or shut down after the command queue closed.
#[derive(Clone, Copy, PartialEq, Eq, Structural, Debug)]
pub enum WorkerPhase {
    Idle,
    ShutDown,
}

/// What the worker asks of the subprocess when the queue closes.
#[derive(Clone, Copy, PartialEq, Eq, Structural, Debug)]
pub enum ShutdownAction {
    KillAndWait,
}

/// The command-processing loop's state: the negotiated session and the
/// current phase. The in-flight phase of a prompt lives in `PromptRace`,
/// owned for the span of one `handle_command` call.
pub struct Worker {
    pub session_id: SessionId,
    pub phase: WorkerPhase,
}

/// One dequeued command together with the complete event history its race
/// observes and the buffer drained after it.
pub struct PromptJob {
    pub command: Command,
    pub events: Vec<RaceEvent>,
    pub trailing: Vec<Notification>,
}

impl Worker {
    pub fn new(session_id: SessionId) -> (w: Worker)
        ensures
            w.session_id@ == session_id@,
            w.phase == WorkerPhase::Idle,
    {
        Worker { session_id, phase: WorkerPhase::Idle }
    }

    /// One full command cycle: issue the request built from the command's
    /// text, race it against the notification stream, and deliver exactly
    /// one outcome. The worker returns to `Idle` before the next command
    /// can be dequeued.
    pub fn handle_command(
        &mut self,
        command: Command,
        events: Vec<RaceEvent>,
        trailing: &Vec<Notification>,
    ) -> (out: (PromptCall, Result<PromptResult, AcpError>))
        requires
            old(self).phase == WorkerPhase::Idle,
        ensures
            final(self).phase == WorkerPhase::Idle,
            final(self).session_id@ == old(self).session_id@,
            out.0.session_id@ == old(self).session_id@,
            single_text_content(out.0.content@, command_text(command)),
            prompt_spec_holds(old(self).session_id@, events@, trailing@, out.1),
    {
        let text = match command {
            Command::Prompt { text } => text,
        };
        let call = build_prompt_call(&self.session_id, text);
        let reply = run_prompt(&self.session_id, events, trailing);
        (call, reply)
    }

    /// The queue has no senders left: the worker ends, asking that the
    /// subprocess be killed and waited on. No command is handled after
    /// this.
    pub fn queue_closed(&mut self) -> (a: ShutdownAction)
        requires
            old(self).phase == WorkerPhase::Idle,
        ensures
            final(self).phase == WorkerPhase::ShutDown,
            final(self).session_id@ == old(self).session_id@,
            a == ShutdownAction::KillAndWait,
    {
        self.phase = WorkerPhase::ShutDown;
        ShutdownAction::KillAndWait
    }
}

/// The worker's whole life after a successful setup, over the complete
/// history of commands it dequeues: every command is answered exactly
/// once, strictly in submission order, each answer determined by that
/// command's own events alone; when the queue closes the worker requests
/// subprocess termination.
pub fn run_worker(session_id: SessionId, jobs: Vec<PromptJob>) -> (out: (
    Vec<Result<PromptResult, AcpError>>,
    ShutdownAction,
))
    ensures
        out.0@.len() == jobs@.len(),
        forall|i: int|
            0 <= i < jobs@.len() ==> #[trigger] prompt_spec_holds(
                session_id@,
                jobs@[i].events@,
                jobs@[i].trailing@,
                out.0@[i],
            ),
        out.1 == ShutdownAction::KillAndWait,
{
    let ghost jobs0 = jobs@;
    let mut jobs = jobs;
    let mut worker = Worker::new(session_id);
    let mut replies: Vec<Result<PromptResult, AcpError>> = Vec::new();
    while jobs.len() > 0
        invariant
            worker.phase == WorkerPhase::Idle,
            worker.session_id@ == session_id@,
            jobs0.len() == replies@.len() + jobs@.len(),
            jobs@ =~= jobs0.skip(replies@.len() as int),
            forall|i: int|
                0 <= i < replies@.len() ==> #[trigger] prompt_spec_holds(
                    session_id@,
                    jobs0[i].events@,
                    jobs0[i].trailing@,
                    replies@[i],
                ),
        decreases jobs.len(),
    {
        let ghost k = replies@.len() as int;
        let job = jobs.remove(0);
        proof {
            assert(jobs0.skip(k).remove(0) =~= jobs0.skip(k + 1));
            assert(job == jobs0[k]);
        }
        let PromptJob { command, events, trailing } = job;
        // The call would be issued to the agent; over a recorded history
        // there is nobody to send it to.
        let (_call, reply) = worker.handle_command(command, events, &trailing);
        replies.push(reply);
    }
    let action = worker.queue_closed();
    (replies, action)
}

} // verus!
