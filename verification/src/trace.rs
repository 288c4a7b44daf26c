//! Runs of the inference worker: what it asks for over a whole turn, and what holds of
//! every turn whatever comes in.

use crate::delta::DeltaView;
use crate::inference::{spec_step, TurnActionView, TurnEventView, TurnStateView};
use crate::models::{MessageView, PromptSubmissionView};
use crate::role::Role;
use crate::stamp::Stamp;
use vstd::prelude::*;

verus! {

/// One thing that comes in: how the last request went, and the stamp at hand for a
/// message that the step may make.
pub ghost struct Input {
    pub event: TurnEventView,
    pub stamp: Stamp,
}

/// Whether a turn is under way in `state`.
pub open spec fn in_turn(state: TurnStateView) -> bool {
    !(state is Idle) && !(state is Exited)
}

/// What the worker asks for, request by request, from `state` on, until the turn is
/// over or nothing more comes in.
pub open spec fn turn_actions(state: TurnStateView, inputs: Seq<Input>, model: Seq<char>) -> Seq<
    TurnActionView,
>
    decreases inputs.len(),
{
    if inputs.len() == 0 || !in_turn(state) {
        Seq::empty()
    } else {
        let (next, action) = spec_step(state, inputs[0].event, model, inputs[0].stamp);
        seq![action] + turn_actions(next, inputs.drop_first(), model)
    }
}

/// The messages that storage is asked to keep, in order.
pub open spec fn stored(actions: Seq<TurnActionView>) -> Seq<MessageView>
    decreases actions.len(),
{
    if actions.len() == 0 {
        Seq::empty()
    } else {
        let rest = stored(actions.drop_first());
        match actions[0] {
            TurnActionView::Store(message) => seq![message] + rest,
            _ => rest,
        }
    }
}

/// The messages that the client is sent as new, in order.
pub open spec fn appended(actions: Seq<TurnActionView>) -> Seq<MessageView>
    decreases actions.len(),
{
    if actions.len() == 0 {
        Seq::empty()
    } else {
        let rest = appended(actions.drop_first());
        match actions[0] {
            TurnActionView::Push(DeltaView::Append { message }) => seq![message] + rest,
            _ => rest,
        }
    }
}

/// The messages that the client is sent in place of an earlier state of the same
/// message, in order.
pub open spec fn replaced(actions: Seq<TurnActionView>) -> Seq<MessageView>
    decreases actions.len(),
{
    if actions.len() == 0 {
        Seq::empty()
    } else {
        let rest = replaced(actions.drop_first());
        match actions[0] {
            TurnActionView::Push(DeltaView::Replace { message }) => seq![message] + rest,
            _ => rest,
        }
    }
}

/// Whether `later` is `earlier` with more content, or with the same.
pub open spec fn grown_from(later: MessageView, earlier: MessageView) -> bool {
    &&& later.id == earlier.id
    &&& later.role == earlier.role
    &&& later.conversation_id == earlier.conversation_id
    &&& later.created_at == earlier.created_at
    &&& earlier.content.is_prefix_of(later.content)
}

/// Whether each message of the list is the one before it with more content, or with
/// the same.
pub open spec fn growing(messages: Seq<MessageView>) -> bool {
    forall|i: int, j: int|
        0 <= i <= j < messages.len() ==> grown_from(#[trigger] messages[j], #[trigger] messages[i])
}

/// The reply that a state holds.
pub open spec fn reply_in(state: TurnStateView) -> MessageView
    recommends
        state is Streaming || state is Relaying,
{
    match state {
        TurnStateView::Streaming { reply, .. } => reply,
        TurnStateView::Relaying { reply, .. } => reply,
        _ => arbitrary(),
    }
}

/// What a request at the front adds to the messages kept and sent.
pub proof fn lemma_cons(action: TurnActionView, rest: Seq<TurnActionView>)
    ensures
        stored(seq![action] + rest) == (match action {
            TurnActionView::Store(message) => seq![message] + stored(rest),
            _ => stored(rest),
        }),
        appended(seq![action] + rest) == (match action {
            TurnActionView::Push(DeltaView::Append { message }) => seq![message] + appended(rest),
            _ => appended(rest),
        }),
        replaced(seq![action] + rest) == (match action {
            TurnActionView::Push(DeltaView::Replace { message }) => seq![message] + replaced(
                rest,
            ),
            _ => replaced(rest),
        }),
{
    assert((seq![action] + rest).drop_first() =~= rest);
}

/// From the moment the answer streams, whatever comes in: the client is sent the
/// reply again and again, each time the one before with more content, never a new
/// message; storage is asked to keep the reply at most once; and what it is asked to
/// keep is what the client was sent last, or the reply as it stood if the client
/// was sent nothing more.
pub proof fn lemma_reply_grows(state: TurnStateView, inputs: Seq<Input>, model: Seq<char>)
    requires
        state is Streaming || state is Relaying,
    ensures
        ({
            let actions = turn_actions(state, inputs, model);
            let sent = replaced(actions);
            let kept = stored(actions);
            &&& appended(actions).len() == 0
            &&& growing(sent)
            &&& forall|i: int| 0 <= i < sent.len() ==> grown_from(#[trigger] sent[i], reply_in(state))
            &&& kept.len() <= 1
            &&& kept.len() == 1 ==> kept[0] == (if sent.len() > 0 {
                sent.last()
            } else {
                reply_in(state)
            })
        }),
    decreases inputs.len(),
{
    if inputs.len() > 0 {
        let (next, action) = spec_step(state, inputs[0].event, model, inputs[0].stamp);
        let then = inputs.drop_first();
        lemma_cons(action, turn_actions(next, then, model));
        if next is Streaming || next is Relaying {
            lemma_reply_grows(next, then, model);
        } else if next is SavingReply {
            lemma_nothing_after_reply(next, then, model);
        }
    }
}

/// Once storage has been asked to keep the reply, the turn asks for nothing that
/// reaches the client or storage.
pub proof fn lemma_nothing_after_reply(state: TurnStateView, inputs: Seq<Input>, model: Seq<char>)
    requires
        state is SavingReply,
    ensures
        turn_actions(state, inputs, model).len() <= 1,
        stored(turn_actions(state, inputs, model)).len() == 0,
        appended(turn_actions(state, inputs, model)).len() == 0,
        replaced(turn_actions(state, inputs, model)).len() == 0,
{
    if inputs.len() > 0 {
        let (next, action) = spec_step(state, inputs[0].event, model, inputs[0].stamp);
        lemma_cons(action, turn_actions(next, inputs.drop_first(), model));
    }
}

/// What holds of the reply of a turn for the conversation `conversation_id`: the
/// client is sent only the reply of the assistant as it grows, and storage is asked to
/// keep the reply at most once, with the content that the client was sent last, or
/// without content if the client was sent nothing of it.
pub open spec fn replies(actions: Seq<TurnActionView>, conversation_id: u128) -> bool {
    let sent = replaced(actions);
    let kept = stored(actions);
    &&& growing(sent)
    &&& forall|i: int|
        0 <= i < sent.len() ==> (#[trigger] sent[i]).role == Role::Assistant && sent[i].conversation_id
            == conversation_id
    &&& kept.len() <= 1
    &&& kept.len() == 1 ==> {
        &&& kept[0].role == Role::Assistant
        &&& kept[0].conversation_id == conversation_id
        &&& kept[0].content == (if sent.len() > 0 {
            sent.last().content
        } else {
            Seq::<char>::empty()
        })
    }
}

/// What holds of the part of a turn in which the inference server is called and
/// answers: the client is sent no new message, and the rest is as [`replies`] says.
pub open spec fn answers(actions: Seq<TurnActionView>, conversation_id: u128) -> bool {
    &&& appended(actions).len() == 0
    &&& replies(actions, conversation_id)
}

proof fn lemma_from_dialing(state: TurnStateView, inputs: Seq<Input>, model: Seq<char>)
    requires
        state is Dialing,
    ensures
        answers(turn_actions(state, inputs, model), state->Dialing_conversation_id),
{
    if inputs.len() > 0 {
        let (next, action) = spec_step(state, inputs[0].event, model, inputs[0].stamp);
        let then = inputs.drop_first();
        lemma_cons(action, turn_actions(next, then, model));
        if next is Streaming {
            lemma_reply_grows(next, then, model);
        }
    }
}

/// What holds of a turn from the moment storage has been asked to keep `prompt`: the
/// client is sent `prompt` as a new message at most once and nothing else as new,
/// nothing of the reply is sent or kept before that, and the rest is as [`replies`]
/// says.
pub open spec fn echoes(
    actions: Seq<TurnActionView>,
    prompt: MessageView,
    conversation_id: u128,
) -> bool {
    let echoed = appended(actions);
    &&& echoed.len() <= 1
    &&& echoed.len() == 1 ==> echoed[0] == prompt
    &&& replaced(actions).len() > 0 || stored(actions).len() > 0 ==> echoed.len() == 1
    &&& replies(actions, conversation_id)
}

proof fn lemma_from_echoing(state: TurnStateView, inputs: Seq<Input>, model: Seq<char>)
    requires
        state is Echoing,
    ensures
        answers(turn_actions(state, inputs, model), state->Echoing_conversation_id),
{
    if inputs.len() > 0 {
        let (next, action) = spec_step(state, inputs[0].event, model, inputs[0].stamp);
        let then = inputs.drop_first();
        lemma_cons(action, turn_actions(next, then, model));
        if next is Dialing {
            lemma_from_dialing(next, then, model);
        }
    }
}

proof fn lemma_from_saving_prompt(state: TurnStateView, inputs: Seq<Input>, model: Seq<char>)
    requires
        state is SavingPrompt,
    ensures
        echoes(
            turn_actions(state, inputs, model),
            state->SavingPrompt_prompt,
            state->SavingPrompt_conversation_id,
        ),
{
    if inputs.len() > 0 {
        let (next, action) = spec_step(state, inputs[0].event, model, inputs[0].stamp);
        let then = inputs.drop_first();
        lemma_cons(action, turn_actions(next, then, model));
        if next is Echoing {
            lemma_from_echoing(next, then, model);
        }
    }
}

/// Whether `message` is the prompt of `submission`: a message of the user with the
/// content and the conversation of the submission.
pub open spec fn is_prompt_of(message: MessageView, submission: PromptSubmissionView) -> bool {
    &&& message.role == Role::User
    &&& message.content == submission.content
    &&& message.conversation_id == submission.conversation_id
}

/// Whether a turn got as far as the inference: the conversation was found and its
/// messages were read.
pub open spec fn started(inputs: Seq<Input>) -> bool {
    &&& inputs.len() >= 2
    &&& inputs[0].event is Found
    &&& inputs[1].event is History
}

/// What holds of a whole turn for `submission`.
pub open spec fn keeps_prompt_then_reply(
    actions: Seq<TurnActionView>,
    submission: PromptSubmissionView,
) -> bool {
    let sent = replaced(actions);
    let kept = stored(actions);
    let echoed = appended(actions);
    &&& kept.len() <= 2
    &&& kept.len() >= 1 ==> is_prompt_of(kept[0], submission)
    &&& kept.len() == 2 ==> {
        &&& kept[1].role == Role::Assistant
        &&& kept[1].content == (if sent.len() > 0 {
            sent.last().content
        } else {
            Seq::<char>::empty()
        })
    }
    &&& echoed.len() <= 1
    &&& echoed.len() == 1 ==> kept.len() >= 1 && echoed[0] == kept[0]
    &&& sent.len() > 0 || kept.len() == 2 ==> echoed.len() == 1
    &&& growing(sent)
    &&& forall|i: int| 0 <= i < sent.len() ==> (#[trigger] sent[i]).role == Role::Assistant
}

proof fn lemma_from_loading(state: TurnStateView, inputs: Seq<Input>, model: Seq<char>)
    requires
        state is Loading,
    ensures
        keeps_prompt_then_reply(turn_actions(state, inputs, model), state->Loading_submission),
        inputs.len() >= 1 && inputs[0].event is History ==> stored(
            turn_actions(state, inputs, model),
        ).len() >= 1,
{
    if inputs.len() > 0 {
        let (next, action) = spec_step(state, inputs[0].event, model, inputs[0].stamp);
        let then = inputs.drop_first();
        lemma_cons(action, turn_actions(next, then, model));
        if next is SavingPrompt {
            lemma_from_saving_prompt(next, then, model);
        }
    }
}

/// Every turn, whatever comes in: storage is asked to keep the prompt at most once
/// and the reply at most once, the prompt first, and no other message. If the turn
/// got as far as the inference, the prompt is kept. The client is sent the prompt as
/// a new message, once and as it was kept, before it is sent anything of the reply;
/// each state of the reply that it is sent is the one before with more content; and
/// the reply is kept with the content that the client was sent last.
pub proof fn lemma_turn_keeps_prompt_then_reply(
    submission: PromptSubmissionView,
    inputs: Seq<Input>,
    model: Seq<char>,
)
    ensures
        keeps_prompt_then_reply(
            turn_actions(TurnStateView::Resolving { submission }, inputs, model),
            submission,
        ),
        started(inputs) ==> stored(
            turn_actions(TurnStateView::Resolving { submission }, inputs, model),
        ).len() >= 1,
{
    let state = TurnStateView::Resolving { submission };
    if inputs.len() > 0 {
        let (next, action) = spec_step(state, inputs[0].event, model, inputs[0].stamp);
        let then = inputs.drop_first();
        lemma_cons(action, turn_actions(next, then, model));
        if next is Loading {
            lemma_from_loading(next, then, model);
        }
    }
}

/// How far into a turn a request belongs. The numbers only serve to compare.
pub open spec fn stage(action: TurnActionView) -> nat {
    match action {
        TurnActionView::Find(_) => 0,
        TurnActionView::Load(_) => 1,
        TurnActionView::Store(message) => if message.role == Role::User {
            2
        } else {
            6
        },
        TurnActionView::Push(DeltaView::Append { .. }) => 3,
        TurnActionView::Open(_) => 4,
        TurnActionView::Pull => 5,
        TurnActionView::Push(DeltaView::Replace { .. }) => 5,
        TurnActionView::Await => 7,
        TurnActionView::Exit(_) => 8,
    }
}

/// Whether no request comes before one of an earlier stage.
pub open spec fn in_order(actions: Seq<TurnActionView>) -> bool {
    forall|i: int, j: int|
        0 <= i <= j < actions.len() ==> stage(#[trigger] actions[i]) <= stage(#[trigger] actions[j])
}

/// Whether the messages that a state holds have the roles they should have.
pub open spec fn roles_fit(state: TurnStateView) -> bool {
    match state {
        TurnStateView::SavingPrompt { prompt, .. } => prompt.role == Role::User,
        TurnStateView::Echoing { prompt, .. } => prompt.role == Role::User,
        TurnStateView::Streaming { reply, .. } => reply.role == Role::Assistant,
        TurnStateView::Relaying { reply, .. } => reply.role == Role::Assistant,
        _ => true,
    }
}

/// The earliest stage of anything that is still asked for from `state` on.
pub open spec fn stage_reached(state: TurnStateView) -> nat {
    match state {
        TurnStateView::Idle => 0,
        TurnStateView::Resolving { .. } => 1,
        TurnStateView::Loading { .. } => 2,
        TurnStateView::SavingPrompt { .. } => 3,
        TurnStateView::Echoing { .. } => 4,
        TurnStateView::Dialing { .. } => 5,
        TurnStateView::Streaming { .. } => 5,
        TurnStateView::Relaying { .. } => 5,
        TurnStateView::SavingReply => 7,
        TurnStateView::Exited => 8,
    }
}

/// From any state, whatever comes in, the requests of a turn come in the order of
/// their stages.
pub proof fn lemma_in_order_from(state: TurnStateView, inputs: Seq<Input>, model: Seq<char>)
    requires
        roles_fit(state),
    ensures
        in_order(turn_actions(state, inputs, model)),
        forall|i: int|
            0 <= i < turn_actions(state, inputs, model).len() ==> stage(
                #[trigger] turn_actions(state, inputs, model)[i],
            ) >= stage_reached(state),
    decreases inputs.len(),
{
    if inputs.len() > 0 && in_turn(state) {
        let (next, action) = spec_step(state, inputs[0].event, model, inputs[0].stamp);
        lemma_in_order_from(next, inputs.drop_first(), model);
    }
}

/// In every turn, whatever comes in, things are asked for in this order: the
/// conversation, its messages, the keeping of the prompt, the sending of the prompt to
/// the client, the call of the inference server, the chunks of the answer and the
/// sending of the reply as it grows, the keeping of the reply, the next submission. So
/// the prompt is kept before the inference server is called and before the client is
/// sent anything, and the reply is kept only when nothing more of it is sent.
pub proof fn lemma_turn_in_order(
    submission: PromptSubmissionView,
    inputs: Seq<Input>,
    model: Seq<char>,
)
    ensures
        in_order(turn_actions(TurnStateView::Resolving { submission }, inputs, model)),
{
    lemma_in_order_from(TurnStateView::Resolving { submission }, inputs, model);
}

} // verus!
