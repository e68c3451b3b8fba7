use vstd::prelude::*;

use crate::conversation::{
    closed_messages, reply_answer, reply_calls, round_results, Conversation, ConversationV,
    MessageV, ModelReply, ReplyV, TurnStep,
};
use crate::dispatch::{
    finished_round, fresh_round, lemma_in_flight_bounded, round_complete, round_wf,
    started_round, RoundV, ToolRound, MAX_IN_FLIGHT,
};
use crate::text::{same_text, strip_prompt_marks, trim_text, trimmed, without_marks};
use crate::tools::{result_payload_of, OutcomeV, ToolInvocation, ToolOutcome};

verus! {

/// The line that ends the session, whether the user types it or the model
/// answers with it.
pub const EXIT_COMMAND: &'static str = "exit";

/// What a line of input asks for.
pub enum LineAction {
    /// End the session.
    Exit,
    /// Nothing: the line is blank once trimmed.
    Skip,
    /// Put this request to the model.
    Ask(String),
}

/// The mathematical value of a `LineAction`.
pub enum LineActionV {
    Exit,
    Skip,
    Ask(Seq<char>),
}

impl View for LineAction {
    type V = LineActionV;

    open spec fn view(&self) -> LineActionV {
        match self {
            LineAction::Exit => LineActionV::Exit,
            LineAction::Skip => LineActionV::Skip,
            LineAction::Ask(s) => LineActionV::Ask(s@),
        }
    }
}

/// A line is the exit command when it is `exit` once trimmed; otherwise
/// its request is what is left once the leading prompt marks are gone and the
/// rest is trimmed, and a blank request is skipped.
pub open spec fn line_action_of(line: Seq<char>) -> LineActionV {
    if trimmed(line) == EXIT_COMMAND@ {
        LineActionV::Exit
    } else {
        let request = trimmed(without_marks(line));
        if request.len() == 0 {
            LineActionV::Skip
        } else {
            LineActionV::Ask(request)
        }
    }
}

/// Reads what a line of input asks for.
pub fn read_line_action(line: &str) -> (r: LineAction)
    ensures
        r@ == line_action_of(line@),
{
    let whole = trim_text(line);
    if same_text(whole.as_str(), EXIT_COMMAND) {
        return LineAction::Exit;
    }
    let request = trim_text(strip_prompt_marks(line));
    if request.unicode_len() == 0 {
        LineAction::Skip
    } else {
        LineAction::Ask(request)
    }
}

/// Where a session stands.
pub enum Phase {
    /// Waiting for a line from the user.
    AwaitingInput,
    /// Waiting for the model's reply to the conversation.
    AwaitingModelReply,
    /// Running the calls of a round.
    DispatchingTools(ToolRound),
    /// The session is over.
    Finished,
}

/// The mathematical value of a `Phase`.
pub enum PhaseV {
    AwaitingInput,
    AwaitingModelReply,
    DispatchingTools(RoundV),
    Finished,
}

/// The state of a session.
pub struct SessionV {
    pub conversation: ConversationV,
    pub phase: PhaseV,
}

/// What the driver of a session does next.
#[derive(Clone, Copy, Debug, PartialEq, Eq, Structural)]
pub enum Step {
    /// Show the last answer, if there is one, and read a line.
    ReadLine,
    /// Send the conversation to the model.
    CallModel,
    /// Start the calls that can start and wait for one to end.
    RunTools,
    /// Show the last answer, if there is one, and stop.
    Stop,
    /// The event does not fit the phase; nothing changed.
    Ignored,
}

/// The state of a session with another transcript.
pub open spec fn with_messages(s: SessionV, ms: Seq<MessageV>, phase: PhaseV) -> SessionV {
    SessionV { conversation: ConversationV { messages: ms, ..s.conversation }, phase }
}

/// A session after a line of input. Only a session that waits for input
/// takes one: `exit` ends it, a blank line changes nothing, and a request is
/// appended and sent to the model.
pub open spec fn after_line(s: SessionV, line: Seq<char>) -> (SessionV, Step) {
    match s.phase {
        PhaseV::AwaitingInput => match line_action_of(line) {
            LineActionV::Exit => (SessionV { phase: PhaseV::Finished, ..s }, Step::Stop),
            LineActionV::Skip => (s, Step::ReadLine),
            LineActionV::Ask(q) => (
                with_messages(
                    s,
                    s.conversation.messages.push(MessageV::UserText(q)),
                    PhaseV::AwaitingModelReply,
                ),
                Step::CallModel,
            ),
        },
        _ => (s, Step::Ignored),
    }
}

/// A session after a model reply. An answer is appended and ends the turn;
/// an answer of `exit` ends the session too. Requests to call tools open a
/// round.
pub open spec fn after_reply(s: SessionV, reply: ReplyV) -> (SessionV, Step) {
    match s.phase {
        PhaseV::AwaitingModelReply => match reply_answer(reply) {
            Some(a) => {
                let ms = s.conversation.messages.push(MessageV::AssistantText(a));
                if a == EXIT_COMMAND@ {
                    (with_messages(s, ms, PhaseV::Finished), Step::Stop)
                } else {
                    (with_messages(s, ms, PhaseV::AwaitingInput), Step::ReadLine)
                }
            },
            None => (
                SessionV {
                    phase: PhaseV::DispatchingTools(
                        fresh_round(reply_calls(reply), MAX_IN_FLIGHT as nat),
                    ),
                    ..s
                },
                Step::RunTools,
            ),
        },
        _ => (s, Step::Ignored),
    }
}

/// A session after an attempt to start a call, with the position of the call
/// that started.
pub open spec fn after_start(s: SessionV) -> (SessionV, Option<nat>) {
    match s.phase {
        PhaseV::DispatchingTools(r) => if r.started < r.invocations.len() && r.running < r.limit {
            (SessionV { phase: PhaseV::DispatchingTools(started_round(r)), ..s }, Some(r.started))
        } else {
            (s, None)
        },
        _ => (s, None),
    }
}

/// A session after the call at `index` ended with `o`. Once every call of
/// the round has ended, the round is closed into the transcript and the
/// model is asked again, whatever the outcomes were.
pub open spec fn after_tool(s: SessionV, index: int, o: OutcomeV) -> (SessionV, Step) {
    match s.phase {
        PhaseV::DispatchingTools(r) => {
            let r2 = finished_round(r, index, o);
            if round_complete(r2) {
                (
                    with_messages(
                        s,
                        closed_messages(s.conversation.messages, r2),
                        PhaseV::AwaitingModelReply,
                    ),
                    Step::CallModel,
                )
            } else {
                (SessionV { phase: PhaseV::DispatchingTools(r2), ..s }, Step::RunTools)
            }
        },
        _ => (s, Step::Ignored),
    }
}

/// One user session: the conversation and the phase it is in. Every event
/// changes it as the `after_*` function of the old state and the event says,
/// so a run is fixed by the events it is fed.
pub struct Session {
    conversation: Conversation,
    phase: Phase,
}

impl View for Session {
    type V = SessionV;

    closed spec fn view(&self) -> SessionV {
        SessionV {
            conversation: self.conversation@,
            phase: match self.phase {
                Phase::AwaitingInput => PhaseV::AwaitingInput,
                Phase::AwaitingModelReply => PhaseV::AwaitingModelReply,
                Phase::DispatchingTools(r) => PhaseV::DispatchingTools(r@),
                Phase::Finished => PhaseV::Finished,
            },
        }
    }
}

impl Session {
    pub closed spec fn wf(&self) -> bool {
        &&& self.conversation.wf()
        &&& match self.phase {
            Phase::DispatchingTools(r) => {
                &&& r.wf()
                &&& !round_complete(r@)
                &&& r@.limit == MAX_IN_FLIGHT as nat
            },
            _ => true,
        }
    }

    /// A session that waits for its first line.
    pub fn new(conversation: Conversation) -> (r: Session)
        requires
            conversation.wf(),
        ensures
            r.wf(),
            r@ == (SessionV { conversation: conversation@, phase: PhaseV::AwaitingInput }),
    {
        Session { conversation, phase: Phase::AwaitingInput }
    }

    /// The conversation so far.
    pub fn conversation(&self) -> (r: &Conversation)
        ensures
            r@ == self@.conversation,
            self.wf() ==> r.wf(),
    {
        &self.conversation
    }

    /// Whether the session is over.
    pub fn is_finished(&self) -> (r: bool)
        ensures
            r == (self@.phase is Finished),
    {
        match self.phase {
            Phase::Finished => true,
            _ => false,
        }
    }

    /// Takes a line of input.
    pub fn on_line(&mut self, line: &str) -> (r: Step)
        requires
            old(self).wf(),
        ensures
            final(self).wf(),
            (final(self)@, r) == after_line(old(self)@, line@),
    {
        match self.phase {
            Phase::AwaitingInput => {},
            _ => {
                return Step::Ignored;
            },
        }
        match read_line_action(line) {
            LineAction::Exit => {
                self.phase = Phase::Finished;
                Step::Stop
            },
            LineAction::Skip => Step::ReadLine,
            LineAction::Ask(q) => {
                self.conversation.add_user_text(q);
                self.phase = Phase::AwaitingModelReply;
                Step::CallModel
            },
        }
    }

    /// Takes the model's reply.
    pub fn on_reply(&mut self, reply: ModelReply) -> (r: Step)
        requires
            old(self).wf(),
        ensures
            final(self).wf(),
            (final(self)@, r) == after_reply(old(self)@, reply@),
    {
        match self.phase {
            Phase::AwaitingModelReply => {},
            _ => {
                return Step::Ignored;
            },
        }
        match self.conversation.apply_reply(reply) {
            TurnStep::Done => {
                let ends = match self.conversation.last_answer() {
                    Some(a) => same_text(a.as_str(), EXIT_COMMAND),
                    None => false,
                };
                if ends {
                    self.phase = Phase::Finished;
                    Step::Stop
                } else {
                    self.phase = Phase::AwaitingInput;
                    Step::ReadLine
                }
            },
            TurnStep::Dispatch(round) => {
                proof {
                    assert(!round_complete(round@));
                }
                self.phase = Phase::DispatchingTools(round);
                Step::RunTools
            },
        }
    }

    /// Starts the next call of the round, if one is waiting and a slot is
    /// free, and gives its position.
    pub fn start_next_tool(&mut self) -> (r: Option<usize>)
        requires
            old(self).wf(),
        ensures
            final(self).wf(),
            final(self)@ == after_start(old(self)@).0,
            match r {
                Some(i) => after_start(old(self)@).1 == Some(i as nat),
                None => after_start(old(self)@).1 is None,
            },
    {
        match &mut self.phase {
            Phase::DispatchingTools(round) => round.start_next(),
            _ => None,
        }
    }

    /// The call at `index` of the running round.
    pub fn pending_call(&self, index: usize) -> (r: Option<&ToolInvocation>)
        ensures
            match r {
                Some(inv) => match self@.phase {
                    PhaseV::DispatchingTools(round) => index < round.invocations.len()
                        && *inv == round.invocations[index as int],
                    _ => false,
                },
                None => match self@.phase {
                    PhaseV::DispatchingTools(round) => index >= round.invocations.len(),
                    _ => true,
                },
            },
    {
        match &self.phase {
            Phase::DispatchingTools(round) => {
                if index < round.invocations().len() {
                    Some(&round.invocations()[index])
                } else {
                    None
                }
            },
            _ => None,
        }
    }

    /// Takes the outcome of the call at `index`.
    pub fn on_tool_done(&mut self, index: usize, outcome: ToolOutcome) -> (r: Step)
        requires
            old(self).wf(),
        ensures
            final(self).wf(),
            (final(self)@, r) == after_tool(old(self)@, index as int, outcome@),
    {
        let mut phase = Phase::Finished;
        std::mem::swap(&mut phase, &mut self.phase);
        match phase {
            Phase::DispatchingTools(mut round) => {
                round.finish(index, outcome);
                if round.is_complete() {
                    let closed = self.conversation.close_round(round);
                    proof {
                        assert(closed is Ok);
                    }
                    self.phase = Phase::AwaitingModelReply;
                    Step::CallModel
                } else {
                    self.phase = Phase::DispatchingTools(round);
                    Step::RunTools
                }
            },
            other => {
                self.phase = other;
                Step::Ignored
            },
        }
    }
}

/// While a round runs, no more than `MAX_IN_FLIGHT` of its calls are in
/// flight at once, however many calls it holds.
pub proof fn lemma_session_in_flight_bounded(s: Session)
    requires
        s.wf(),
    ensures
        match s@.phase {
            PhaseV::DispatchingTools(r) => r.running <= MAX_IN_FLIGHT && r.running <= r.started,
            _ => true,
        },
{
    if let Phase::DispatchingTools(r) = s.phase {
        lemma_in_flight_bounded(r);
    }
}

/// A call that failed (its provider answered with an error, or it was
/// refused) does not end the session: its failure is recorded like any
/// outcome, and once it was the last call running, the round is closed with
/// `{"error":...}` as that call's result and the model is asked again.
pub proof fn lemma_failure_continues(s: SessionV, index: int, d: Seq<char>)
    requires
        s.phase is DispatchingTools,
        round_wf(s.phase->DispatchingTools_0),
        0 <= index < s.phase->DispatchingTools_0.started,
        s.phase->DispatchingTools_0.outcomes[index] is None,
    ensures
        ({
            let r = s.phase->DispatchingTools_0;
            let (s2, step) = after_tool(s, index, OutcomeV::Failure(d));
            &&& step == Step::CallModel || step == Step::RunTools
            &&& !(s2.phase is Finished)
            &&& (r.started == r.invocations.len() && r.running == 1) ==> {
                &&& step == Step::CallModel
                &&& s2.phase is AwaitingModelReply
                &&& s2.conversation.messages[s.conversation.messages.len() + 1 + index]
                    == MessageV::ToolResult {
                    call_id: r.invocations[index].call_id@,
                    payload: result_payload_of(OutcomeV::Failure(d)),
                }
            }
        }),
{
    let r = s.phase->DispatchingTools_0;
    let r2 = finished_round(r, index, OutcomeV::Failure(d));
    let ms = s.conversation.messages;
    if round_complete(r2) {
        let out = closed_messages(ms, r2);
        assert(out[ms.len() + 1 + index] == round_results(r2)[index]);
    }
}

/// An event that a session takes.
pub enum EventV {
    Line(Seq<char>),
    Reply(ReplyV),
    StartTool,
    ToolDone(int, OutcomeV),
}

/// A session after one event.
pub open spec fn after_event(s: SessionV, e: EventV) -> SessionV {
    match e {
        EventV::Line(l) => after_line(s, l).0,
        EventV::Reply(r) => after_reply(s, r).0,
        EventV::StartTool => after_start(s).0,
        EventV::ToolDone(i, o) => after_tool(s, i, o).0,
    }
}

/// A session after a sequence of events, the first one first.
pub open spec fn replay(s: SessionV, events: Seq<EventV>) -> SessionV
    decreases events.len(),
{
    if events.len() == 0 {
        s
    } else {
        replay(after_event(s, events[0]), events.drop_first())
    }
}

/// Replaying the same input lines, model replies and provider outcomes from
/// the same state gives the same transcript: each handler of `Session`
/// changes the state exactly as `after_event` says.
pub proof fn lemma_replay_deterministic(s1: SessionV, s2: SessionV, events: Seq<EventV>)
    requires
        s1 == s2,
    ensures
        replay(s1, events).conversation == replay(s2, events).conversation,
    decreases events.len(),
{
    if events.len() > 0 {
        lemma_replay_deterministic(
            after_event(s1, events[0]),
            after_event(s2, events[0]),
            events.drop_first(),
        );
    }
}

/// A session's transcript only grows: whatever the events, the messages
/// before them stay, in place, at its start.
pub proof fn lemma_replay_appends(s: SessionV, events: Seq<EventV>)
    ensures
        s.conversation.messages.is_prefix_of(replay(s, events).conversation.messages),
        replay(s, events).conversation.system_prompt == s.conversation.system_prompt,
        replay(s, events).conversation.tools == s.conversation.tools,
    decreases events.len(),
{
    if events.len() > 0 {
        let s1 = after_event(s, events[0]);
        lemma_replay_appends(s1, events.drop_first());
        assert(s.conversation.messages.is_prefix_of(s1.conversation.messages));
    }
}

} // verus!
