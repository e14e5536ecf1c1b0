//! The handling of a message sent to the bot, and of the tasks that run on
//! their own beside the handlers.
use vstd::prelude::*;

use crate::config::TimeSpan;
use crate::feedback::Feedback;
use crate::callback_flow::phase_rank;
use crate::flow::{Action, Event, FlowError, RenderPhase, RenderStep, Task, render_step, render_step_spec};
use crate::keyboard::root_key;
use crate::l10n::{Lang, feedback_ack, feedback_ack_text};
use crate::text::str_eq;

verus! {

/// What a message handling starts from.
#[derive(Debug, Clone, PartialEq, Eq)]
pub struct MessageContext {
    /// The sender (also the chat with them), when the message has one.
    pub user: Option<i64>,
    /// The text of the message, when it is a text message.
    pub text: Option<String>,
    /// The id of the message.
    pub message: i32,
    /// The sender's username, when they have one.
    pub username: Option<String>,
    /// The language to answer in.
    pub lang: Lang,
}

/// Where a message handling stands.
#[derive(Debug, Clone, PartialEq, Eq)]
pub enum MessageState {
    /// Nothing done yet.
    Start,
    /// `/start`: rendering the grid's root.
    Rendering(RenderPhase),
    /// `/start`: waiting for the root to be sent.
    Sending,
    /// Text: waiting for the prompt of the sender's pending feedback, if any.
    Pending,
    /// Feedback: waiting for it to be published; the prompt.
    Publishing(i32),
    /// Feedback: waiting for the cleanup task to be started; the prompt.
    SpawningCleanup(i32),
    /// Feedback: waiting for the thanks task to be started.
    SpawningAck,
    /// Unexpected text: waiting for it to be deleted.
    Deleting,
    /// Over.
    Finished,
}

/// The command that opens the grid.
pub open spec fn start_command() -> Seq<char> {
    seq!['/', 's', 't', 'a', 'r', 't']
}

/// The chat to answer in: the sender's (only a message with a sender gets
/// past the first step).
pub open spec fn sender(ctx: MessageContext) -> i64 {
    match ctx.user {
        Some(u) => u,
        None => 0,
    }
}

/// The name a feedback is published under: the sender's username, or
/// nothing when they have none.
pub open spec fn sender_name(ctx: MessageContext) -> Seq<char> {
    match ctx.username {
        Some(u) => u@,
        None => Seq::empty(),
    }
}

/// The text of the message (only a text message gets past the first step).
pub open spec fn message_text(ctx: MessageContext) -> Seq<char> {
    match ctx.text {
        Some(t) => t@,
        None => Seq::empty(),
    }
}

/// `a` finishes the flow with `error`, and `s` is over.
pub open spec fn message_finishes(s: MessageState, a: Action, error: Option<FlowError>) -> bool {
    s == MessageState::Finished && a == (Action::Finish { error })
}

/// One step of the handling of a message: from the state `old` and the
/// outcome `ev` of the last action to the state `s` and the action `a`.
///
/// A message without a sender or without text is left alone. `/start`
/// renders the grid's root menu and sends it. Any other text is the
/// sender's feedback when a feedback of theirs is pending: it is published
/// with the sender's username, then the prompt and the feedback are cleaned
/// up and the sender is thanked, each by a task of its own. Otherwise the
/// text is deleted. A failed action ends the flow with an error.
pub open spec fn message_step_spec(ctx: MessageContext, old: MessageState, ev: Event, s: MessageState, a: Action) -> bool {
    match (old, ev) {
        (MessageState::Rendering(phase), ev) => exists|r: RenderStep| #[trigger]
            render_step_spec(root_key(), ctx.lang, phase, ev, r) && match r {
                RenderStep::Next(p, next) => s == MessageState::Rendering(p) && a == next,
                RenderStep::Ready(text, kb) => s == MessageState::Sending && a == (Action::SendMessage {
                    chat: sender(ctx),
                    text,
                    markup: Some(kb),
                    no_preview: true,
                    silent: false,
                }),
                RenderStep::Fail(e) => message_finishes(s, a, Some(e)),
            },
        (_, Event::Failed) => message_finishes(s, a, Some(FlowError::ActionFailed)),
        (MessageState::Start, Event::Start) => match (ctx.user, ctx.text) {
            (Some(user), Some(text)) => if text@ == start_command() {
                &&& s == MessageState::Rendering(RenderPhase::MenuHeader)
                &&& a matches Action::GetGridHeader { key, lang } && key@ == root_key() && lang == ctx.lang
            } else {
                s == MessageState::Pending && a == (Action::GetPendingFeedback { user })
            },
            _ => message_finishes(s, a, None),
        },
        (MessageState::Sending, Event::Sent(_)) => message_finishes(s, a, None),
        (MessageState::Pending, Event::Id(Some(prompt))) => {
            &&& s == MessageState::Publishing(prompt)
            &&& a matches Action::PublishFeedback { feedback } && feedback.username@ == sender_name(ctx)
                && feedback.text@ == message_text(ctx)
        },
        (MessageState::Publishing(prompt), Event::Done) => s == MessageState::SpawningCleanup(prompt) && a == (
        Action::Spawn { task: Task::Cleanup { user: sender(ctx), request: prompt, response: ctx.message } }),
        (MessageState::SpawningCleanup(_), Event::Done) => s == MessageState::SpawningAck && a == (Action::Spawn {
            task: Task::Ack { user: sender(ctx) },
        }),
        (MessageState::SpawningAck, Event::Done) => message_finishes(s, a, None),
        (MessageState::Pending, Event::Id(None)) => s == MessageState::Deleting && a == (Action::DeleteMessage {
            chat: sender(ctx),
            message: ctx.message,
        }),
        (MessageState::Deleting, Event::Done) => message_finishes(s, a, None),
        _ => message_finishes(s, a, Some(FlowError::UnexpectedEvent)),
    }
}

/// How far a message handling is from its end.
pub open spec fn message_rank(s: MessageState) -> nat {
    match s {
        MessageState::Start => 10,
        MessageState::Rendering(p) => 3 + phase_rank(p),
        MessageState::Sending => 2,
        MessageState::Pending => 6,
        MessageState::Publishing(_) => 5,
        MessageState::SpawningCleanup(_) => 4,
        MessageState::SpawningAck => 3,
        MessageState::Deleting => 1,
        MessageState::Finished => 0,
    }
}

/// Message handlings never loop: every step that does not finish the
/// handling brings it closer to its end.
pub proof fn lemma_message_progress(ctx: MessageContext, old: MessageState, ev: Event, s: MessageState, a: Action)
    requires
        message_step_spec(ctx, old, ev, s, a),
        !(a is Finish),
    ensures
        message_rank(s) < message_rank(old),
{
    match old {
        MessageState::Rendering(phase) => {
            let r = choose|r: RenderStep| #[trigger] render_step_spec(root_key(), ctx.lang, phase, ev, r) && match r {
                RenderStep::Next(p, next) => s == MessageState::Rendering(p) && a == next,
                RenderStep::Ready(text, kb) => s == MessageState::Sending && a == (Action::SendMessage {
                    chat: sender(ctx),
                    text,
                    markup: Some(kb),
                    no_preview: true,
                    silent: false,
                }),
                RenderStep::Fail(e) => message_finishes(s, a, Some(e)),
            };
        },
        _ => {},
    }
}

fn message_finish(error: Option<FlowError>) -> (r: (MessageState, Action))
    ensures
        message_finishes(r.0, r.1, error),
{
    (MessageState::Finished, Action::Finish { error })
}

/// One step of the handling of a message; see `message_step_spec`.
pub fn message_step(ctx: &MessageContext, old: MessageState, ev: Event) -> (r: (MessageState, Action))
    ensures
        message_step_spec(*ctx, old, ev, r.0, r.1),
{
    let ghost ev_v = ev;
    proof {
        reveal_strlit("/");
        reveal_strlit("/start");
        assert("/"@ =~= root_key());
        assert("/start"@ =~= start_command());
    }
    match (old, ev) {
        (MessageState::Rendering(phase), ev) => {
            let step = render_step("/", ctx.lang, phase, ev);
            let ghost step_v = step;
            let user = match ctx.user {
                Some(u) => u,
                None => 0,
            };
            let r = match step {
                RenderStep::Next(p, next) => (MessageState::Rendering(p), next),
                RenderStep::Ready(text, kb) => (
                    MessageState::Sending,
                    Action::SendMessage { chat: user, text, markup: Some(kb), no_preview: true, silent: false },
                ),
                RenderStep::Fail(e) => message_finish(Some(e)),
            };
            proof {
                assert(render_step_spec(root_key(), ctx.lang, phase, ev_v, step_v));
            }
            r
        },
        (_, Event::Failed) => message_finish(Some(FlowError::ActionFailed)),
        (MessageState::Start, Event::Start) => match (&ctx.user, &ctx.text) {
            (Some(user), Some(text)) => {
                if str_eq(text.as_str(), "/start") {
                    (
                        MessageState::Rendering(RenderPhase::MenuHeader),
                        Action::GetGridHeader { key: "/".to_owned(), lang: ctx.lang },
                    )
                } else {
                    (MessageState::Pending, Action::GetPendingFeedback { user: *user })
                }
            },
            _ => message_finish(None),
        },
        (MessageState::Sending, Event::Sent(_)) => message_finish(None),
        (MessageState::Pending, Event::Id(Some(prompt))) => {
            let username = match &ctx.username {
                Some(u) => u.clone(),
                None => String::new(),
            };
            let text = match &ctx.text {
                Some(t) => t.clone(),
                None => String::new(),
            };
            (MessageState::Publishing(prompt), Action::PublishFeedback { feedback: Feedback::new(username, text) })
        },
        (MessageState::Publishing(prompt), Event::Done) => {
            let user = match ctx.user {
                Some(u) => u,
                None => 0,
            };
            (
                MessageState::SpawningCleanup(prompt),
                Action::Spawn { task: Task::Cleanup { user, request: prompt, response: ctx.message } },
            )
        },
        (MessageState::SpawningCleanup(_), Event::Done) => {
            let user = match ctx.user {
                Some(u) => u,
                None => 0,
            };
            (MessageState::SpawningAck, Action::Spawn { task: Task::Ack { user } })
        },
        (MessageState::SpawningAck, Event::Done) => message_finish(None),
        (MessageState::Pending, Event::Id(None)) => {
            let user = match ctx.user {
                Some(u) => u,
                None => 0,
            };
            (MessageState::Deleting, Action::DeleteMessage { chat: user, message: ctx.message })
        },
        (MessageState::Deleting, Event::Done) => message_finish(None),
        _ => message_finish(Some(FlowError::UnexpectedEvent)),
    }
}

/// What a task runs with.
#[derive(Debug, Clone, Copy, PartialEq, Eq, Structural)]
pub struct TaskContext {
    /// The task.
    pub task: Task,
    /// The language to write in.
    pub lang: Lang,
    /// How long the thanks for a feedback stays.
    pub ack_ttl: TimeSpan,
}

/// Where a task stands.
#[derive(Debug, Clone, Copy, PartialEq, Eq, Structural)]
pub enum TaskState {
    /// Nothing done yet.
    Start,
    /// Cancel: waiting for the delay to pass.
    Waiting,
    /// Cancel: waiting for the pending feedback to be cancelled.
    Cancelling,
    /// Cleanup: waiting for the prompt to be deleted.
    DeletingRequest,
    /// Cleanup: waiting for the feedback message to be deleted; whether
    /// deleting the prompt failed.
    DeletingResponse(bool),
    /// Cleanup: waiting for the pending feedback to be dropped.
    Ending,
    /// Thanks: waiting for the thanks to be sent.
    Thanking,
    /// Thanks: waiting for the thanks' time to pass; the thanks message.
    Showing(i32),
    /// Waiting for a message to be deleted, the task's last action.
    Deleting,
    /// Over.
    Finished,
}

/// `a` finishes the task with `error`, and `s` is over.
pub open spec fn task_finishes(s: TaskState, a: Action, error: Option<FlowError>) -> bool {
    s == TaskState::Finished && a == (Action::Finish { error })
}

/// One step of a task: from the state `old` and the outcome `ev` of the last
/// action to the state `s` and the action `a`.
///
/// Cancel: wait, cancel the user's pending feedback, and delete its prompt
/// when there was one. Cleanup: delete both the prompt and the feedback
/// message (the second delete is asked for even when the first fails),
/// then, when both were deleted, drop the pending feedback. Thanks: send the
/// thanks, wait, delete the thanks. Any other failed action ends the task
/// with an error.
pub open spec fn task_step_spec(ctx: TaskContext, old: TaskState, ev: Event, s: TaskState, a: Action) -> bool {
    match (old, ev) {
        (TaskState::DeletingRequest, Event::Done) | (TaskState::DeletingRequest, Event::Failed) => match ctx.task {
            Task::Cleanup { user, request: _, response } => s == TaskState::DeletingResponse(ev == Event::Failed) && a == (
            Action::DeleteMessage { chat: user, message: response }),
            _ => task_finishes(s, a, Some(FlowError::UnexpectedEvent)),
        },
        (_, Event::Failed) => task_finishes(s, a, Some(FlowError::ActionFailed)),
        (TaskState::Start, Event::Start) => match ctx.task {
            Task::Cancel { user: _, after } => s == TaskState::Waiting && a == (Action::Sleep { span: after }),
            Task::Cleanup { user, request, response: _ } => s == TaskState::DeletingRequest && a == (Action::DeleteMessage {
                chat: user,
                message: request,
            }),
            Task::Ack { user } => {
                &&& s == TaskState::Thanking
                &&& a matches Action::SendMessage { chat, text, markup: None, no_preview: false, silent: false }
                    && chat == user && text@ == feedback_ack_text(ctx.lang)
            },
        },
        (TaskState::Waiting, Event::Done) => match ctx.task {
            Task::Cancel { user, after: _ } => s == TaskState::Cancelling && a == (Action::CancelFeedback { user }),
            _ => task_finishes(s, a, Some(FlowError::UnexpectedEvent)),
        },
        (TaskState::Cancelling, Event::Id(Some(m))) => match ctx.task {
            Task::Cancel { user, after: _ } => s == TaskState::Deleting && a == (Action::DeleteMessage { chat: user, message: m }),
            _ => task_finishes(s, a, Some(FlowError::UnexpectedEvent)),
        },
        (TaskState::Cancelling, Event::Id(None)) => task_finishes(s, a, None),
        (TaskState::DeletingResponse(true), Event::Done) => task_finishes(s, a, Some(FlowError::ActionFailed)),
        (TaskState::DeletingResponse(false), Event::Done) => match ctx.task {
            Task::Cleanup { user, request: _, response: _ } => s == TaskState::Ending && a == (Action::EndFeedback { user }),
            _ => task_finishes(s, a, Some(FlowError::UnexpectedEvent)),
        },
        (TaskState::Ending, Event::Flag(_)) => task_finishes(s, a, None),
        (TaskState::Thanking, Event::Sent(m)) => s == TaskState::Showing(m) && a == (Action::Sleep { span: ctx.ack_ttl }),
        (TaskState::Showing(m), Event::Done) => match ctx.task {
            Task::Ack { user } => s == TaskState::Deleting && a == (Action::DeleteMessage { chat: user, message: m }),
            _ => task_finishes(s, a, Some(FlowError::UnexpectedEvent)),
        },
        (TaskState::Deleting, Event::Done) => task_finishes(s, a, None),
        _ => task_finishes(s, a, Some(FlowError::UnexpectedEvent)),
    }
}

/// How far a task is from its end.
pub open spec fn task_rank(s: TaskState) -> nat {
    match s {
        TaskState::Start => 5,
        TaskState::Waiting => 4,
        TaskState::Cancelling => 3,
        TaskState::DeletingRequest => 4,
        TaskState::DeletingResponse(_) => 3,
        TaskState::Ending => 2,
        TaskState::Thanking => 4,
        TaskState::Showing(_) => 3,
        TaskState::Deleting => 1,
        TaskState::Finished => 0,
    }
}

/// Tasks never loop: every step that does not finish the task brings it
/// closer to its end.
pub proof fn lemma_task_progress(ctx: TaskContext, old: TaskState, ev: Event, s: TaskState, a: Action)
    requires
        task_step_spec(ctx, old, ev, s, a),
        !(a is Finish),
    ensures
        task_rank(s) < task_rank(old),
{
}

fn task_finish(error: Option<FlowError>) -> (r: (TaskState, Action))
    ensures
        task_finishes(r.0, r.1, error),
{
    (TaskState::Finished, Action::Finish { error })
}

/// One step of a task; see `task_step_spec`.
pub fn task_step(ctx: &TaskContext, old: TaskState, ev: Event) -> (r: (TaskState, Action))
    ensures
        task_step_spec(*ctx, old, ev, r.0, r.1),
{
    match (old, ev) {
        (TaskState::DeletingRequest, ev @ Event::Done) | (TaskState::DeletingRequest, ev @ Event::Failed) => {
            let failed = match ev {
                Event::Failed => true,
                _ => false,
            };
            match ctx.task {
                Task::Cleanup { user, request: _, response } => (
                    TaskState::DeletingResponse(failed),
                    Action::DeleteMessage { chat: user, message: response },
                ),
                _ => task_finish(Some(FlowError::UnexpectedEvent)),
            }
        },
        (_, Event::Failed) => task_finish(Some(FlowError::ActionFailed)),
        (TaskState::Start, Event::Start) => match ctx.task {
            Task::Cancel { user: _, after } => (TaskState::Waiting, Action::Sleep { span: after }),
            Task::Cleanup { user, request, response: _ } => (
                TaskState::DeletingRequest,
                Action::DeleteMessage { chat: user, message: request },
            ),
            Task::Ack { user } => (
                TaskState::Thanking,
                Action::SendMessage {
                    chat: user,
                    text: feedback_ack(ctx.lang).to_owned(),
                    markup: None,
                    no_preview: false,
                    silent: false,
                },
            ),
        },
        (TaskState::Waiting, Event::Done) => match ctx.task {
            Task::Cancel { user, after: _ } => (TaskState::Cancelling, Action::CancelFeedback { user }),
            _ => task_finish(Some(FlowError::UnexpectedEvent)),
        },
        (TaskState::Cancelling, Event::Id(Some(m))) => match ctx.task {
            Task::Cancel { user, after: _ } => (TaskState::Deleting, Action::DeleteMessage { chat: user, message: m }),
            _ => task_finish(Some(FlowError::UnexpectedEvent)),
        },
        (TaskState::Cancelling, Event::Id(None)) => task_finish(None),
        (TaskState::DeletingResponse(true), Event::Done) => task_finish(Some(FlowError::ActionFailed)),
        (TaskState::DeletingResponse(false), Event::Done) => match ctx.task {
            Task::Cleanup { user, request: _, response: _ } => (TaskState::Ending, Action::EndFeedback { user }),
            _ => task_finish(Some(FlowError::UnexpectedEvent)),
        },
        (TaskState::Ending, Event::Flag(_)) => task_finish(None),
        (TaskState::Thanking, Event::Sent(m)) => (TaskState::Showing(m), Action::Sleep { span: ctx.ack_ttl }),
        (TaskState::Showing(m), Event::Done) => match ctx.task {
            Task::Ack { user } => (TaskState::Deleting, Action::DeleteMessage { chat: user, message: m }),
            _ => task_finish(Some(FlowError::UnexpectedEvent)),
        },
        (TaskState::Deleting, Event::Done) => task_finish(None),
        _ => task_finish(Some(FlowError::UnexpectedEvent)),
    }
}

} // verus!
