//! The reply as a function of what arrives: which text the chunks of an answer add up
//! to, and that this text, no more and no less, is what the client sees and what is
//! kept.

use crate::error::Error;
use crate::inference::{
    empty_reply, extended, piece, prompt_of, spec_step, TurnActionView, TurnEventView,
    TurnStateView,
};
use crate::delta::DeltaView;
use crate::models::{ConversationView, MessageView, PromptSubmissionView};
use crate::ollama::{chat_request, OllamaChatResponseStreamView, OllamaMessageView};
use crate::stamp::Stamp;
use crate::trace::{appended, replaced, stored, turn_actions, Input};
use vstd::prelude::*;

verus! {

/// One chunk as it arrives.
pub ghost enum Arrival {
    /// A chunk that decoded, with this message.
    Fragment(OllamaMessageView),
    /// A chunk that did not decode.
    Garbled,
}

/// The text that the chunks add up to: the fragments in their order, the first of them
/// without its leading whitespace if `first` holds, and nothing for a chunk that did
/// not decode.
pub open spec fn joined(arrivals: Seq<Arrival>, first: bool) -> Seq<char>
    decreases arrivals.len(),
{
    if arrivals.len() == 0 {
        Seq::empty()
    } else {
        match arrivals[0] {
            Arrival::Fragment(message) => piece(message.content, first) + joined(
                arrivals.drop_first(),
                false,
            ),
            Arrival::Garbled => joined(arrivals.drop_first(), first),
        }
    }
}

/// Whether the next fragment is still the first, after `arrivals`.
pub open spec fn still_first(arrivals: Seq<Arrival>, first: bool) -> bool
    decreases arrivals.len(),
{
    if arrivals.len() == 0 {
        first
    } else {
        match arrivals[0] {
            Arrival::Fragment(_) => false,
            Arrival::Garbled => still_first(arrivals.drop_first(), first),
        }
    }
}

/// The states of `reply` that the client is sent while `arrivals` come in: one for
/// each fragment, with all the text up to it.
pub open spec fn partials(reply: MessageView, arrivals: Seq<Arrival>, first: bool) -> Seq<
    MessageView,
>
    decreases arrivals.len(),
{
    if arrivals.len() == 0 {
        Seq::empty()
    } else {
        match arrivals[0] {
            Arrival::Fragment(message) => {
                let next = extended(reply, piece(message.content, first));
                seq![next] + partials(next, arrivals.drop_first(), false)
            },
            Arrival::Garbled => partials(reply, arrivals.drop_first(), first),
        }
    }
}

/// What comes in while `arrivals` arrive, none of them closing the answer, and the
/// delta queue takes every delta.
pub open spec fn relayed(arrivals: Seq<Arrival>, stamp: Stamp) -> Seq<Input>
    decreases arrivals.len(),
{
    if arrivals.len() == 0 {
        Seq::empty()
    } else {
        match arrivals[0] {
            Arrival::Fragment(message) => seq![
                Input {
                    event: TurnEventView::Chunk(
                        OllamaChatResponseStreamView { message, done: false },
                    ),
                    stamp,
                },
                Input { event: TurnEventView::Pushed, stamp },
            ] + relayed(arrivals.drop_first(), stamp),
            Arrival::Garbled => seq![Input { event: TurnEventView::Garbled, stamp }] + relayed(
                arrivals.drop_first(),
                stamp,
            ),
        }
    }
}

/// The ways in which an answer stops.
pub ghost enum Ending {
    /// The stream ends.
    Ended,
    /// A chunk closes the answer, and the delta queue takes the delta for it.
    Closed(OllamaMessageView),
    /// The delta queue refuses the delta for a chunk.
    Refused(OllamaChatResponseStreamView),
}

/// What comes in when an answer stops.
pub open spec fn closing(ending: Ending, stamp: Stamp) -> Seq<Input> {
    match ending {
        Ending::Ended => seq![Input { event: TurnEventView::StreamEnded, stamp }],
        Ending::Closed(message) => seq![
            Input {
                event: TurnEventView::Chunk(OllamaChatResponseStreamView { message, done: true }),
                stamp,
            },
            Input { event: TurnEventView::Pushed, stamp },
        ],
        Ending::Refused(chunk) => seq![
            Input { event: TurnEventView::Chunk(chunk), stamp },
            Input { event: TurnEventView::PushRefused, stamp },
        ],
    }
}

/// The chunk that was taken in when an answer stopped, if one was.
pub open spec fn last_arrival(ending: Ending) -> Seq<Arrival> {
    match ending {
        Ending::Ended => Seq::empty(),
        Ending::Closed(message) => seq![Arrival::Fragment(message)],
        Ending::Refused(chunk) => seq![Arrival::Fragment(chunk.message)],
    }
}

proof fn lemma_extended_twice(reply: MessageView, a: Seq<char>, b: Seq<char>)
    ensures
        extended(extended(reply, a), b) == extended(reply, a + b),
        extended(reply, Seq::empty()) == reply,
{
    assert((reply.content + a) + b =~= reply.content + (a + b));
}

/// Once a fragment has been taken in, no later one is the first.
pub proof fn lemma_first_only_once(arrivals: Seq<Arrival>)
    ensures
        !still_first(arrivals, false),
    decreases arrivals.len(),
{
    if arrivals.len() > 0 {
        lemma_first_only_once(arrivals.drop_first());
    }
}

/// The text of `arrivals` followed by `more` is the text of `arrivals` followed by the
/// text of `more`, and so are the states that the client is sent.
pub proof fn lemma_joined_append(
    reply: MessageView,
    arrivals: Seq<Arrival>,
    more: Seq<Arrival>,
    first: bool,
)
    ensures
        joined(arrivals + more, first) == joined(arrivals, first) + joined(
            more,
            still_first(arrivals, first),
        ),
        still_first(arrivals + more, first) == still_first(more, still_first(arrivals, first)),
        partials(reply, arrivals + more, first) == partials(reply, arrivals, first) + partials(
            extended(reply, joined(arrivals, first)),
            more,
            still_first(arrivals, first),
        ),
    decreases arrivals.len(),
{
    if arrivals.len() == 0 {
        lemma_extended_twice(reply, Seq::empty(), Seq::empty());
    } else {
        let rest = arrivals.drop_first();
        assert((arrivals + more).drop_first() =~= rest + more);
        match arrivals[0] {
            Arrival::Fragment(message) => {
                let next = extended(reply, piece(message.content, first));
                lemma_joined_append(next, rest, more, false);
                lemma_first_only_once(rest);
                lemma_first_only_once(more);
                lemma_extended_twice(reply, piece(message.content, first), joined(rest, false));
            },
            Arrival::Garbled => {
                lemma_joined_append(reply, rest, more, first);
            },
        }
    }
}

/// While chunks arrive and the delta queue takes every delta, the worker asks for each
/// next chunk and keeps nothing yet; the client is sent one state of the reply for
/// each chunk that decoded; and what follows is what would follow with all their text
/// in the reply from the start.
pub proof fn lemma_while_relayed(
    reply: MessageView,
    first: bool,
    arrivals: Seq<Arrival>,
    then: Seq<Input>,
    stamp: Stamp,
    model: Seq<char>,
)
    ensures
        ({
            let from = TurnStateView::Streaming { reply, first };
            let to = TurnStateView::Streaming {
                reply: extended(reply, joined(arrivals, first)),
                first: still_first(arrivals, first),
            };
            let all = turn_actions(from, relayed(arrivals, stamp) + then, model);
            let after = turn_actions(to, then, model);
            &&& stored(all) == stored(after)
            &&& appended(all) == appended(after)
            &&& replaced(all) == partials(reply, arrivals, first) + replaced(after)
        }),
    decreases arrivals.len(),
{
    let from = TurnStateView::Streaming { reply, first };
    let inputs = relayed(arrivals, stamp) + then;
    if arrivals.len() == 0 {
        lemma_extended_twice(reply, Seq::empty(), Seq::empty());
    } else {
        let rest = arrivals.drop_first();
        match arrivals[0] {
            Arrival::Fragment(message) => {
                let next = extended(reply, piece(message.content, first));
                let tail = relayed(rest, stamp) + then;
                assert(inputs.drop_first().drop_first() =~= tail);
                let (s1, a1) = spec_step(from, inputs[0].event, model, inputs[0].stamp);
                let (s2, a2) = spec_step(
                    s1,
                    inputs.drop_first()[0].event,
                    model,
                    inputs.drop_first()[0].stamp,
                );
                let after2 = turn_actions(s2, tail, model);
                let after1 = turn_actions(s1, inputs.drop_first(), model);
                crate::trace::lemma_cons(a2, after2);
                crate::trace::lemma_cons(a1, after1);
                lemma_while_relayed(next, false, rest, then, stamp, model);
                lemma_first_only_once(rest);
                lemma_extended_twice(reply, piece(message.content, first), joined(rest, false));
            },
            Arrival::Garbled => {
                let tail = relayed(rest, stamp) + then;
                assert(inputs.drop_first() =~= tail);
                let (s1, a1) = spec_step(from, inputs[0].event, model, inputs[0].stamp);
                let after1 = turn_actions(s1, tail, model);
                crate::trace::lemma_cons(a1, after1);
                lemma_while_relayed(reply, first, rest, then, stamp, model);
            },
        }
    }
}

/// One chunk that is the last to be taken in, because it closes the answer or because
/// the delta queue refuses the delta for it: the client is sent the reply with the
/// chunk's text, if the queue takes it, and storage is asked to keep that reply.
proof fn lemma_last_chunk(
    reply: MessageView,
    first: bool,
    chunk: OllamaChatResponseStreamView,
    taken: bool,
    stamp: Stamp,
    model: Seq<char>,
)
    requires
        taken ==> chunk.done,
    ensures
        ({
            let after = if taken {
                TurnEventView::Pushed
            } else {
                TurnEventView::PushRefused
            };
            let actions = turn_actions(
                TurnStateView::Streaming { reply, first },
                seq![
                    Input { event: TurnEventView::Chunk(chunk), stamp },
                    Input { event: after, stamp },
                ],
                model,
            );
            let last = extended(reply, piece(chunk.message.content, first));
            &&& stored(actions) == seq![last]
            &&& replaced(actions) == seq![last]
            &&& appended(actions).len() == 0
            &&& joined(seq![Arrival::Fragment(chunk.message)], first) == piece(
                chunk.message.content,
                first,
            )
            &&& partials(reply, seq![Arrival::Fragment(chunk.message)], first) == seq![last]
        }),
{
    let after = if taken {
        TurnEventView::Pushed
    } else {
        TurnEventView::PushRefused
    };
    let inputs = seq![
        Input { event: TurnEventView::Chunk(chunk), stamp },
        Input { event: after, stamp },
    ];
    let from = TurnStateView::Streaming { reply, first };
    let (s1, a1) = spec_step(from, inputs[0].event, model, inputs[0].stamp);
    let (s2, a2) = spec_step(s1, inputs.drop_first()[0].event, model, inputs.drop_first()[0].stamp);
    let after2 = turn_actions(s2, inputs.drop_first().drop_first(), model);
    let after1 = turn_actions(s1, inputs.drop_first(), model);
    crate::trace::lemma_cons(a2, after2);
    crate::trace::lemma_cons(a1, after1);
    let one = seq![Arrival::Fragment(chunk.message)];
    let none = Seq::<Arrival>::empty();
    let last = extended(reply, piece(chunk.message.content, first));
    assert(one.drop_first() =~= none);
    assert(joined(none, false) =~= Seq::<char>::empty());
    assert(partials(last, none, false) =~= Seq::<MessageView>::empty());
    assert(joined(one, first) =~= piece(chunk.message.content, first));
    assert(partials(reply, one, first) =~= seq![last]);
}

/// The chunk that an ending takes in last, and whether the delta queue takes the
/// delta for it.
pub open spec fn last_chunk(ending: Ending) -> Option<(OllamaChatResponseStreamView, bool)> {
    match ending {
        Ending::Ended => None,
        Ending::Closed(message) => Some((OllamaChatResponseStreamView { message, done: true }, true)),
        Ending::Refused(chunk) => Some((chunk, false)),
    }
}

/// However an answer stops (the stream ends, a chunk closes it, or the delta queue
/// refuses a delta), storage is asked exactly once to keep the reply, with the text of
/// all the chunks that were taken in, the last one included, and with nothing else. The
/// client has been sent that text growing chunk by chunk, and the last state that was
/// put on the delta queue is the one that is kept.
pub proof fn lemma_reply_is_what_arrived(
    reply: MessageView,
    first: bool,
    arrivals: Seq<Arrival>,
    ending: Ending,
    stamp: Stamp,
    model: Seq<char>,
)
    ensures
        ({
            let taken = arrivals + last_arrival(ending);
            let actions = turn_actions(
                TurnStateView::Streaming { reply, first },
                relayed(arrivals, stamp) + closing(ending, stamp),
                model,
            );
            &&& stored(actions) == seq![extended(reply, joined(taken, first))]
            &&& replaced(actions) == partials(reply, taken, first)
            &&& appended(actions).len() == 0
        }),
{
    let then = closing(ending, stamp);
    lemma_while_relayed(reply, first, arrivals, then, stamp, model);
    lemma_joined_append(reply, arrivals, last_arrival(ending), first);
    let so_far = extended(reply, joined(arrivals, first));
    let now_first = still_first(arrivals, first);
    match last_chunk(ending) {
        Some((chunk, taken)) => {
            lemma_last_chunk(so_far, now_first, chunk, taken, stamp, model);
            lemma_extended_twice(
                reply,
                joined(arrivals, first),
                piece(chunk.message.content, now_first),
            );
        },
        None => {
            let to = TurnStateView::Streaming { reply: so_far, first: now_first };
            let (s1, a1) = spec_step(to, then[0].event, model, then[0].stamp);
            crate::trace::lemma_cons(a1, turn_actions(s1, then.drop_first(), model));
            lemma_extended_twice(reply, joined(arrivals, first), Seq::empty());
            assert(joined(Seq::<Arrival>::empty(), false) =~= Seq::<char>::empty());
        },
    }
}

/// A chunk that does not decode, wherever it stands among the others, changes
/// neither the text that the chunks add up to nor what the client is sent: the text
/// is that of the chunks that did decode.
pub proof fn lemma_garbled_adds_nothing(
    reply: MessageView,
    arrivals: Seq<Arrival>,
    at: int,
    first: bool,
)
    requires
        0 <= at <= arrivals.len(),
    ensures
        joined(arrivals.insert(at, Arrival::Garbled), first) == joined(arrivals, first),
        partials(reply, arrivals.insert(at, Arrival::Garbled), first) == partials(
            reply,
            arrivals,
            first,
        ),
{
    let before = arrivals.take(at);
    let behind = arrivals.skip(at);
    let with = seq![Arrival::Garbled] + behind;
    assert(arrivals.insert(at, Arrival::Garbled) =~= before + with);
    assert(arrivals =~= before + behind);
    assert(with.drop_first() =~= behind);
    lemma_joined_append(reply, before, with, first);
    lemma_joined_append(reply, before, behind, first);
}

/// The inputs of a turn up to the call of the inference server: the conversation is
/// found, its messages are read, the prompt is kept and sent to the client.
pub open spec fn before_call(
    conversation: ConversationView,
    history: Seq<MessageView>,
    stamp: Stamp,
) -> Seq<Input> {
    seq![
        Input { event: TurnEventView::Found(conversation), stamp },
        Input { event: TurnEventView::History(history), stamp },
        Input { event: TurnEventView::Stored, stamp },
        Input { event: TurnEventView::Pushed, stamp },
    ]
}

/// The inputs of a turn that gets as far as the answer: all goes well up to the
/// call, and the inference server answers.
pub open spec fn opening(
    conversation: ConversationView,
    history: Seq<MessageView>,
    prompt_stamp: Stamp,
    reply_stamp: Stamp,
) -> Seq<Input> {
    before_call(conversation, history, prompt_stamp).push(
        Input { event: TurnEventView::ChatOpened, stamp: reply_stamp },
    )
}

/// A turn up to the call of the inference server. The worker asks for the messages
/// of the conversation, for the keeping of the prompt, for the sending of the prompt
/// to the client, and then calls the inference server with the model, with the
/// messages and the prompt after them, and for a streamed answer.
pub proof fn lemma_until_call(
    submission: PromptSubmissionView,
    conversation: ConversationView,
    history: Seq<MessageView>,
    then: Seq<Input>,
    stamp: Stamp,
    model: Seq<char>,
)
    ensures
        ({
            let prompt = prompt_of(submission, stamp);
            let actions = turn_actions(
                TurnStateView::Resolving { submission },
                before_call(conversation, history, stamp) + then,
                model,
            );
            let after = turn_actions(
                TurnStateView::Dialing { conversation_id: conversation.id },
                then,
                model,
            );
            &&& actions == seq![
                TurnActionView::Load(conversation.id),
                TurnActionView::Store(prompt),
                TurnActionView::Push(DeltaView::Append { message: prompt }),
                TurnActionView::Open(chat_request(model, history.push(prompt), true)),
            ] + after
            &&& stored(actions) == seq![prompt] + stored(after)
            &&& appended(actions) == seq![prompt] + appended(after)
            &&& replaced(actions) == replaced(after)
        }),
{
    let i0 = before_call(conversation, history, stamp) + then;
    let s0 = TurnStateView::Resolving { submission };
    let (s1, a1) = spec_step(s0, i0[0].event, model, i0[0].stamp);
    let i1 = i0.drop_first();
    let (s2, a2) = spec_step(s1, i1[0].event, model, i1[0].stamp);
    let i2 = i1.drop_first();
    let (s3, a3) = spec_step(s2, i2[0].event, model, i2[0].stamp);
    let i3 = i2.drop_first();
    let (s4, a4) = spec_step(s3, i3[0].event, model, i3[0].stamp);
    let i4 = i3.drop_first();
    assert(i4 =~= then);
    let t4 = turn_actions(s4, i4, model);
    let t3 = turn_actions(s3, i3, model);
    let t2 = turn_actions(s2, i2, model);
    let t1 = turn_actions(s1, i1, model);
    crate::trace::lemma_cons(a4, t4);
    crate::trace::lemma_cons(a3, t3);
    crate::trace::lemma_cons(a2, t2);
    crate::trace::lemma_cons(a1, t1);
    assert(turn_actions(s0, i0, model) =~= seq![a1, a2, a3, a4] + t4);
}

/// A whole turn in which the inference server answers, however the answer stops.
/// Storage is asked to keep two messages: first the prompt, then the reply, whose
/// content is the text of the chunks that were taken in, character for character.
/// The client is sent the prompt as a new message, and then the reply as it grows.
pub proof fn lemma_turn_answers(
    submission: PromptSubmissionView,
    conversation: ConversationView,
    history: Seq<MessageView>,
    arrivals: Seq<Arrival>,
    ending: Ending,
    prompt_stamp: Stamp,
    reply_stamp: Stamp,
    model: Seq<char>,
)
    ensures
        ({
            let taken = arrivals + last_arrival(ending);
            let prompt = prompt_of(submission, prompt_stamp);
            let reply = empty_reply(conversation.id, reply_stamp);
            let actions = turn_actions(
                TurnStateView::Resolving { submission },
                opening(conversation, history, prompt_stamp, reply_stamp) + (relayed(
                    arrivals,
                    reply_stamp,
                ) + closing(ending, reply_stamp)),
                model,
            );
            &&& stored(actions) == seq![prompt, extended(reply, joined(taken, true))]
            &&& stored(actions)[1].content == joined(taken, true)
            &&& appended(actions) == seq![prompt]
            &&& replaced(actions) == partials(reply, taken, true)
        }),
{
    let reply = empty_reply(conversation.id, reply_stamp);
    let answer = relayed(arrivals, reply_stamp) + closing(ending, reply_stamp);
    let opened = seq![Input { event: TurnEventView::ChatOpened, stamp: reply_stamp }] + answer;
    assert(opening(conversation, history, prompt_stamp, reply_stamp) + answer =~= before_call(
        conversation,
        history,
        prompt_stamp,
    ) + opened);
    lemma_until_call(submission, conversation, history, opened, prompt_stamp, model);
    let dialing = TurnStateView::Dialing { conversation_id: conversation.id };
    let (streaming, pull) = spec_step(dialing, opened[0].event, model, opened[0].stamp);
    assert(opened.drop_first() =~= answer);
    crate::trace::lemma_cons(pull, turn_actions(streaming, answer, model));
    lemma_reply_is_what_arrived(reply, true, arrivals, ending, reply_stamp, model);
    assert(reply.content + joined(arrivals + last_arrival(ending), true) =~= joined(
        arrivals + last_arrival(ending),
        true,
    ));
}

/// A submission for a conversation that storage does not hold: the worker returns
/// with `ConversationNotFound`, and nothing is kept and nothing is sent, whatever
/// comes in afterwards.
pub proof fn lemma_unknown_conversation(
    submission: PromptSubmissionView,
    then: Seq<Input>,
    stamp: Stamp,
    model: Seq<char>,
)
    ensures
        turn_actions(
            TurnStateView::Resolving { submission },
            seq![Input { event: TurnEventView::Missing, stamp }] + then,
            model,
        ) == seq![TurnActionView::Exit(Some(Error::ConversationNotFound))],
{
    let inputs = seq![Input { event: TurnEventView::Missing, stamp }] + then;
    let state = TurnStateView::Resolving { submission };
    let (next, action) = spec_step(state, inputs[0].event, model, inputs[0].stamp);
    assert(turn_actions(next, inputs.drop_first(), model) =~= Seq::empty());
}

/// The inputs of a turn in which the inference server cannot be reached: all goes
/// well up to the call, and the call fails.
pub open spec fn unanswered(
    conversation: ConversationView,
    history: Seq<MessageView>,
    stamp: Stamp,
) -> Seq<Input> {
    before_call(conversation, history, stamp).push(
        Input { event: TurnEventView::ChatFailed, stamp },
    )
}

/// A turn in which the inference server cannot be reached: the prompt is kept and
/// stays kept, no reply is made, kept or sent, and the worker returns with
/// `UpstreamError`, whatever comes in afterwards.
pub proof fn lemma_unreachable_server(
    submission: PromptSubmissionView,
    conversation: ConversationView,
    history: Seq<MessageView>,
    then: Seq<Input>,
    stamp: Stamp,
    model: Seq<char>,
)
    ensures
        ({
            let prompt = prompt_of(submission, stamp);
            let actions = turn_actions(
                TurnStateView::Resolving { submission },
                unanswered(conversation, history, stamp) + then,
                model,
            );
            &&& stored(actions) == seq![prompt]
            &&& appended(actions) == seq![prompt]
            &&& replaced(actions).len() == 0
            &&& actions.len() == 5
            &&& actions[4] == TurnActionView::Exit(Some(Error::UpstreamError))
        }),
{
    let failed = seq![Input { event: TurnEventView::ChatFailed, stamp }] + then;
    assert(unanswered(conversation, history, stamp) + then =~= before_call(
        conversation,
        history,
        stamp,
    ) + failed);
    lemma_until_call(submission, conversation, history, failed, stamp, model);
    let dialing = TurnStateView::Dialing { conversation_id: conversation.id };
    let (exited, exit) = spec_step(dialing, failed[0].event, model, failed[0].stamp);
    let after = turn_actions(exited, failed.drop_first(), model);
    assert(after =~= Seq::empty());
    crate::trace::lemma_cons(exit, after);
}

/// A chunk that does not decode does not end the turn and leaves no trace: with it,
/// wherever it stands among the chunks, the client is sent and storage is asked to
/// keep exactly what they would be without it.
pub proof fn lemma_turn_survives_garbled_chunk(
    submission: PromptSubmissionView,
    conversation: ConversationView,
    history: Seq<MessageView>,
    arrivals: Seq<Arrival>,
    at: int,
    ending: Ending,
    prompt_stamp: Stamp,
    reply_stamp: Stamp,
    model: Seq<char>,
)
    requires
        0 <= at <= arrivals.len(),
    ensures
        ({
            let start = TurnStateView::Resolving { submission };
            let begin = opening(conversation, history, prompt_stamp, reply_stamp);
            let end = closing(ending, reply_stamp);
            let with = turn_actions(
                start,
                begin + (relayed(arrivals.insert(at, Arrival::Garbled), reply_stamp) + end),
                model,
            );
            let without = turn_actions(
                start,
                begin + (relayed(arrivals, reply_stamp) + end),
                model,
            );
            &&& stored(with) == stored(without)
            &&& appended(with) == appended(without)
            &&& replaced(with) == replaced(without)
        }),
{
    let reply = empty_reply(conversation.id, reply_stamp);
    let more = arrivals.insert(at, Arrival::Garbled);
    lemma_turn_answers(
        submission,
        conversation,
        history,
        arrivals,
        ending,
        prompt_stamp,
        reply_stamp,
        model,
    );
    lemma_turn_answers(
        submission,
        conversation,
        history,
        more,
        ending,
        prompt_stamp,
        reply_stamp,
        model,
    );
    assert(more + last_arrival(ending) =~= (arrivals + last_arrival(ending)).insert(
        at,
        Arrival::Garbled,
    ));
    lemma_garbled_adds_nothing(reply, arrivals + last_arrival(ending), at, true);
}

/// When storage has been asked to keep the reply, the worker goes on to the next
/// submission whether storage kept the reply or failed.
pub proof fn lemma_ready_after_reply(event: TurnEventView, stamp: Stamp, model: Seq<char>)
    requires
        event is Stored || event is StorageFailed,
    ensures
        spec_step(TurnStateView::SavingReply, event, model, stamp) == (
            TurnStateView::Idle,
            TurnActionView::Await,
        ),
{
}

} // verus!
