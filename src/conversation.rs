use vstd::prelude::*;
use vstd::string::*;

use crate::dispatch::{fresh_round, round_complete, RoundV, ToolRound, MAX_IN_FLIGHT};
use crate::text::{trim_text, trimmed};
use crate::tools::{result_payload, result_payload_of, OutcomeV, ToolDeclaration, ToolInvocation};

verus! {

/// One entry of a conversation.
pub enum Message {
    /// What the user typed.
    UserText(String),
    /// A plain answer of the model.
    AssistantText(String),
    /// The model's request to call tools.
    AssistantToolRequest(Vec<ToolInvocation>),
    /// The result of one requested call, keyed by the call's id.
    ToolResult { call_id: String, payload: String },
}

/// The mathematical value of a `Message`.
pub enum MessageV {
    UserText(Seq<char>),
    AssistantText(Seq<char>),
    ToolRequest(Seq<ToolInvocation>),
    ToolResult { call_id: Seq<char>, payload: Seq<char> },
}

impl View for Message {
    type V = MessageV;

    open spec fn view(&self) -> MessageV {
        match self {
            Message::UserText(s) => MessageV::UserText(s@),
            Message::AssistantText(s) => MessageV::AssistantText(s@),
            Message::AssistantToolRequest(v) => MessageV::ToolRequest(v@),
            Message::ToolResult { call_id, payload } => MessageV::ToolResult {
                call_id: call_id@,
                payload: payload@,
            },
        }
    }
}

/// The call id of a tool result; `None` for any other message.
pub open spec fn result_id(m: MessageV) -> Option<Seq<char>> {
    match m {
        MessageV::ToolResult { call_id, .. } => Some(call_id),
        _ => None,
    }
}

/// Whether a message is a tool result.
pub open spec fn is_result(m: MessageV) -> bool {
    result_id(m) is Some
}

/// If the message at `i` requests `n` calls, the `n` messages after it are
/// the results of those calls, one each and in the order of the request, and
/// the message after them (if any) is not a tool result.
pub open spec fn answered(ms: Seq<MessageV>, i: int) -> bool {
    match ms[i] {
        MessageV::ToolRequest(invs) => {
            &&& i + invs.len() < ms.len()
            &&& forall|k: int|
                0 <= k < invs.len() ==> result_id(#[trigger] ms[i + 1 + k]) == Some(
                    invs[k].call_id@,
                )
            &&& i + 1 + invs.len() < ms.len() ==> !is_result(ms[i + 1 + invs.len()])
        },
        _ => true,
    }
}

/// A tool result at `i` comes straight after a request or after another
/// result.
pub open spec fn follows_request(ms: Seq<MessageV>, i: int) -> bool {
    is_result(ms[i]) ==> i > 0 && (is_result(ms[i - 1]) || ms[i - 1] is ToolRequest)
}

/// The shape of a transcript: every request is answered in full, and every
/// result belongs to the request before it.
pub open spec fn transcript_wf(ms: Seq<MessageV>) -> bool {
    forall|i: int| 0 <= i < ms.len() ==> answered(ms, i) && follows_request(ms, i)
}

/// The state of a conversation.
pub struct ConversationV {
    pub system_prompt: Seq<char>,
    pub tools: Seq<ToolDeclaration>,
    pub messages: Seq<MessageV>,
}

/// A reply of the model.
pub enum ModelReply {
    /// A plain answer.
    Text(String),
    /// Requests to call tools.
    ToolRequests(Vec<ToolInvocation>),
    /// A reply of a kind that the assistant does not handle.
    Unrecognized,
    /// No reply content at all.
    Empty,
}

/// The mathematical value of a `ModelReply`.
pub enum ReplyV {
    Text(Seq<char>),
    ToolRequests(Seq<ToolInvocation>),
    Unrecognized,
    Empty,
}

impl View for ModelReply {
    type V = ReplyV;

    open spec fn view(&self) -> ReplyV {
        match self {
            ModelReply::Text(t) => ReplyV::Text(t@),
            ModelReply::ToolRequests(v) => ReplyV::ToolRequests(v@),
            ModelReply::Unrecognized => ReplyV::Unrecognized,
            ModelReply::Empty => ReplyV::Empty,
        }
    }
}

/// The answer that a reply ends the turn with, or `None` where it asks for
/// tools: a plain answer trimmed, "No response" for no content or an empty
/// set of requests, "Unsupported response type" for any other kind.
pub open spec fn reply_answer(reply: ReplyV) -> Option<Seq<char>> {
    match reply {
        ReplyV::Text(t) => Some(trimmed(t)),
        ReplyV::ToolRequests(invs) => if invs.len() > 0 {
            None
        } else {
            Some("No response"@)
        },
        ReplyV::Unrecognized => Some("Unsupported response type"@),
        ReplyV::Empty => Some("No response"@),
    }
}

/// The calls that a reply asks for (empty for any other reply).
pub open spec fn reply_calls(reply: ReplyV) -> Seq<ToolInvocation> {
    match reply {
        ReplyV::ToolRequests(invs) => invs,
        _ => Seq::empty(),
    }
}

/// What the turn does next after a model reply.
pub enum TurnStep {
    /// The turn is over: the last message is the model's answer.
    Done,
    /// The requested calls have to be run; once the round is complete it is
    /// closed into the conversation and the model is asked again.
    Dispatch(ToolRound),
}

/// A transcript after a complete round is closed into it: the request, then
/// its results.
pub open spec fn closed_messages(ms: Seq<MessageV>, r: RoundV) -> Seq<MessageV> {
    ms.push(MessageV::ToolRequest(r.invocations)) + round_results(r)
}

/// The results that close a complete round, in the order of its calls.
pub open spec fn round_results(r: RoundV) -> Seq<MessageV> {
    Seq::new(
        r.invocations.len(),
        |k: int|
            MessageV::ToolResult {
                call_id: r.invocations[k].call_id@,
                payload: result_payload_of(r.outcomes[k]->Some_0),
            },
    )
}

/// A conversation: a fixed system prompt, the fixed tool declarations, and
/// the transcript, which only grows.
pub struct Conversation {
    system_prompt: String,
    tools: Vec<ToolDeclaration>,
    messages: Vec<Message>,
}

impl View for Conversation {
    type V = ConversationV;

    closed spec fn view(&self) -> ConversationV {
        ConversationV {
            system_prompt: self.system_prompt@,
            tools: self.tools@,
            messages: self.messages@.map_values(|m: Message| m@),
        }
    }
}

proof fn lemma_push_plain(ms: Seq<MessageV>, m: MessageV)
    requires
        transcript_wf(ms),
        !is_result(m),
        !(m is ToolRequest),
    ensures
        transcript_wf(ms.push(m)),
{
    let ms2 = ms.push(m);
    assert forall|i: int| 0 <= i < ms2.len() implies answered(ms2, i) && follows_request(
        ms2,
        i,
    ) by {
        if i < ms.len() {
            assert(answered(ms, i) && follows_request(ms, i));
            if let MessageV::ToolRequest(invs) = ms[i] {
                assert forall|k: int| 0 <= k < invs.len() implies result_id(
                    #[trigger] ms2[i + 1 + k],
                ) == Some(invs[k].call_id@) by {
                    assert(ms2[i + 1 + k] == ms[i + 1 + k]);
                }
            }
        }
    }
}

proof fn lemma_push_round(ms: Seq<MessageV>, invs: Seq<ToolInvocation>, results: Seq<MessageV>)
    requires
        transcript_wf(ms),
        results.len() == invs.len(),
        forall|k: int| 0 <= k < results.len() ==> result_id(#[trigger] results[k]) == Some(
            invs[k].call_id@,
        ),
    ensures
        transcript_wf(ms.push(MessageV::ToolRequest(invs)) + results),
{
    let n = ms.len();
    let ms2 = ms.push(MessageV::ToolRequest(invs)) + results;
    assert forall|i: int| 0 <= i < ms2.len() implies answered(ms2, i) && follows_request(
        ms2,
        i,
    ) by {
        if i < n {
            assert(ms2[i] == ms[i]);
            assert(answered(ms, i) && follows_request(ms, i));
            if let MessageV::ToolRequest(r) = ms[i] {
                assert forall|k: int| 0 <= k < r.len() implies result_id(
                    #[trigger] ms2[i + 1 + k],
                ) == Some(r[k].call_id@) by {
                    assert(ms2[i + 1 + k] == ms[i + 1 + k]);
                }
                if i + 1 + r.len() < ms2.len() {
                    if i + 1 + r.len() < n {
                        assert(ms2[i + 1 + r.len()] == ms[i + 1 + r.len()]);
                    } else {
                        assert(ms2[i + 1 + r.len()] == MessageV::ToolRequest(invs));
                    }
                }
            }
        } else if i == n {
            assert(ms2[i] == MessageV::ToolRequest(invs));
            assert forall|k: int| 0 <= k < invs.len() implies result_id(
                #[trigger] ms2[i + 1 + k],
            ) == Some(invs[k].call_id@) by {
                assert(ms2[i + 1 + k] == results[k]);
            }
        } else {
            assert(ms2[i] == results[i - n - 1]);
            assert(result_id(results[i - n - 1]) == Some(invs[i - n - 1].call_id@));
            if i - 1 > n {
                assert(ms2[i - 1] == results[i - n - 2]);
                assert(result_id(results[i - n - 2]) == Some(invs[i - n - 2].call_id@));
            }
        }
    }
}

impl Conversation {
    pub closed spec fn wf(&self) -> bool {
        transcript_wf(self@.messages)
    }

    /// A conversation with no messages yet.
    pub fn new(system_prompt: String, tools: Vec<ToolDeclaration>) -> (r: Conversation)
        ensures
            r.wf(),
            r@.system_prompt == system_prompt@,
            r@.tools == tools@,
            r@.messages == Seq::<MessageV>::empty(),
    {
        let r = Conversation { system_prompt, tools, messages: Vec::new() };
        proof {
            assert(r@.messages =~= Seq::<MessageV>::empty());
        }
        r
    }

    /// The system prompt.
    pub fn system_prompt(&self) -> (r: &String)
        ensures
            r@ == self@.system_prompt,
    {
        &self.system_prompt
    }

    /// The tools advertised to the model.
    pub fn tools(&self) -> (r: &Vec<ToolDeclaration>)
        ensures
            r@ == self@.tools,
    {
        &self.tools
    }

    /// The transcript, oldest first.
    pub fn messages(&self) -> (r: &Vec<Message>)
        ensures
            r@.map_values(|m: Message| m@) == self@.messages,
    {
        &self.messages
    }

    fn push_plain(&mut self, m: Message)
        requires
            old(self).wf(),
            !is_result(m@),
            !(m@ is ToolRequest),
        ensures
            final(self).wf(),
            final(self)@.system_prompt == old(self)@.system_prompt,
            final(self)@.tools == old(self)@.tools,
            final(self)@.messages == old(self)@.messages.push(m@),
    {
        proof {
            lemma_push_plain(self@.messages, m@);
        }
        self.messages.push(m);
        proof {
            assert(self@.messages =~= old(self)@.messages.push(m@));
        }
    }

    /// Appends what the user typed.
    pub fn add_user_text(&mut self, text: String)
        requires
            old(self).wf(),
        ensures
            final(self).wf(),
            final(self)@.system_prompt == old(self)@.system_prompt,
            final(self)@.tools == old(self)@.tools,
            final(self)@.messages == old(self)@.messages.push(MessageV::UserText(text@)),
    {
        self.push_plain(Message::UserText(text));
    }

    /// Takes in a reply of the model. A plain answer is appended, trimmed, and
    /// ends the turn. Requests to call tools open a round over those calls
    /// and leave the transcript as it is: the request enters it together with
    /// its results when the round is closed. A reply without content, or
    /// with an empty set of requests, is answered with "No response", and a
    /// reply of another kind with "Unsupported response type"; both end the
    /// turn.
    pub fn apply_reply(&mut self, reply: ModelReply) -> (r: TurnStep)
        requires
            old(self).wf(),
        ensures
            final(self).wf(),
            final(self)@.system_prompt == old(self)@.system_prompt,
            final(self)@.tools == old(self)@.tools,
            match reply_answer(reply@) {
                Some(answer) => {
                    &&& r is Done
                    &&& final(self)@.messages == old(self)@.messages.push(
                        MessageV::AssistantText(answer),
                    )
                },
                None => {
                    &&& final(self)@.messages == old(self)@.messages
                    &&& match r {
                        TurnStep::Dispatch(round) => {
                            &&& round.wf()
                            &&& round@ == fresh_round(reply_calls(reply@), MAX_IN_FLIGHT as nat)
                        },
                        TurnStep::Done => false,
                    }
                },
            },
    {
        match reply {
            ModelReply::Text(t) => {
                let answer = trim_text(t.as_str());
                self.push_plain(Message::AssistantText(answer));
                TurnStep::Done
            },
            ModelReply::ToolRequests(invs) => {
                if invs.len() > 0 {
                    TurnStep::Dispatch(ToolRound::new(invs, MAX_IN_FLIGHT))
                } else {
                    self.push_plain(Message::AssistantText(String::from_str("No response")));
                    TurnStep::Done
                }
            },
            ModelReply::Unrecognized => {
                self.push_plain(
                    Message::AssistantText(String::from_str("Unsupported response type")),
                );
                TurnStep::Done
            },
            ModelReply::Empty => {
                self.push_plain(Message::AssistantText(String::from_str("No response")));
                TurnStep::Done
            },
        }
    }

    /// Closes a complete round: appends the model's request, then one result
    /// per call, keyed by the call's id, in the order of the request. A round
    /// that is not complete is handed back and nothing changes.
    pub fn close_round(&mut self, round: ToolRound) -> (r: Result<(), ToolRound>)
        requires
            old(self).wf(),
            round.wf(),
        ensures
            final(self).wf(),
            final(self)@.system_prompt == old(self)@.system_prompt,
            final(self)@.tools == old(self)@.tools,
            round_complete(round@) ==> {
                &&& r is Ok
                &&& final(self)@.messages == closed_messages(old(self)@.messages, round@)
            },
            !round_complete(round@) ==> {
                &&& final(self)@ == old(self)@
                &&& match r {
                    Err(back) => back@ == round@ && back.wf(),
                    Ok(_) => false,
                }
            },
    {
        if !round.is_complete() {
            return Err(round);
        }
        let ghost before = self@.messages;
        let ghost rv = round@;
        let n = round.invocations().len();
        let mut results: Vec<Message> = Vec::new();
        let mut k: usize = 0;
        while k < n
            invariant
                round.wf(),
                round@ == rv,
                round_complete(rv),
                n == rv.invocations.len(),
                k <= n,
                results@.len() == k,
                forall|j: int|
                    0 <= j < k ==> (#[trigger] results@[j])@ == round_results(rv)[j],
            decreases n - k,
        {
            let call_id = round.invocations()[k].call_id.clone();
            let payload = result_payload(round.outcome(k));
            results.push(Message::ToolResult { call_id, payload });
            k += 1;
        }
        let invs = round.into_invocations();
        let ghost tail = results@.map_values(|m: Message| m@);
        proof {
            assert(tail =~= round_results(rv));
            lemma_push_round(before, rv.invocations, tail);
        }
        self.messages.push(Message::AssistantToolRequest(invs));
        self.messages.append(&mut results);
        proof {
            assert(self@.messages =~= before.push(MessageV::ToolRequest(rv.invocations)) + tail);
        }
        Ok(())
    }

    /// The last message, where it is a plain answer of the model.
    pub fn last_answer(&self) -> (r: Option<&String>)
        ensures
            match r {
                Some(s) => self@.messages.len() > 0 && self@.messages.last()
                    == MessageV::AssistantText(s@),
                None => self@.messages.len() == 0 || !(self@.messages.last() is AssistantText),
            },
    {
        let n = self.messages.len();
        if n == 0 {
            return None;
        }
        match &self.messages[n - 1] {
            Message::AssistantText(s) => Some(s),
            _ => None,
        }
    }
}

/// In every conversation, the results that follow a request to call tools
/// carry exactly the call ids of that request: one result per call, none
/// missing, and none beyond them.
pub proof fn lemma_results_match_request(c: Conversation, i: int)
    requires
        c.wf(),
        0 <= i < c@.messages.len(),
        c@.messages[i] is ToolRequest,
    ensures
        ({
            let ms = c@.messages;
            let invs = ms[i]->ToolRequest_0;
            let n = invs.len();
            &&& i + n < ms.len()
            &&& forall|k: int| 0 <= k < n ==> is_result(#[trigger] ms[i + 1 + k])
            &&& i + 1 + n < ms.len() ==> !is_result(ms[i + 1 + n])
            &&& Set::new(|id: Seq<char>| exists|k: int| 0 <= k < n && invs[k].call_id@ == id)
                == Set::new(
                |id: Seq<char>| exists|k: int| 0 <= k < n && result_id(#[trigger] ms[i + 1 + k]) == Some(id),
            )
        }),
{
    let ms = c@.messages;
    let invs = ms[i]->ToolRequest_0;
    let n = invs.len();
    assert(answered(ms, i));
    assert forall|k: int| 0 <= k < n implies is_result(#[trigger] ms[i + 1 + k]) by {
        assert(result_id(ms[i + 1 + k]) == Some(invs[k].call_id@));
    }
    let asked = Set::new(|id: Seq<char>| exists|k: int| 0 <= k < n && invs[k].call_id@ == id);
    let given = Set::new(
        |id: Seq<char>| exists|k: int| 0 <= k < n && result_id(#[trigger] ms[i + 1 + k]) == Some(id),
    );
    assert forall|id: Seq<char>| asked.contains(id) implies given.contains(id) by {
        let k = choose|k: int| 0 <= k < n && invs[k].call_id@ == id;
        assert(result_id(ms[i + 1 + k]) == Some(invs[k].call_id@));
    }
    assert forall|id: Seq<char>| given.contains(id) implies asked.contains(id) by {
        let k = choose|k: int| 0 <= k < n && result_id(#[trigger] ms[i + 1 + k]) == Some(id);
        assert(result_id(ms[i + 1 + k]) == Some(invs[k].call_id@));
    }
    assert(asked =~= given);
}

} // verus!
