//! The handling of a callback query (a press of an inline keyboard button).
use vstd::prelude::*;

use crate::callback::{CallbackRequest, Command, command_prefix, feedback_data, parse};
use crate::config::TimeSpan;
use crate::flow::{Action, Event, FlowError, RenderPhase, RenderStep, Task, render_step, render_step_spec};
use crate::keyboard::Keyboard;
use crate::l10n::{Lang, feedback_prelude, feedback_prelude_text};

verus! {

/// What a callback query handling starts from.
#[derive(Debug, Clone, PartialEq, Eq)]
pub struct CallbackContext {
    /// The user who pressed the button (also the chat with them).
    pub user: i64,
    /// The message that holds the keyboard, when Telegram gives it.
    pub message: Option<i32>,
    /// The button's callback data, when it has any.
    pub data: Option<String>,
    /// The language to answer in.
    pub lang: Lang,
    /// How long a requested feedback may take.
    pub feedback_timeout: TimeSpan,
}

/// Where a rendered grid node goes.
#[derive(Debug, Clone, Copy, PartialEq, Eq, Structural)]
pub enum Deliver {
    /// A data entry opened from a menu: a new message.
    SendData,
    /// A menu: in place of the message that was pressed.
    EditMenu(i32),
    /// A data entry whose like was toggled: in place of the message that was
    /// pressed; whether it is now liked.
    EditLiked(i32, bool),
}

/// Where a callback query handling stands.
#[derive(Debug, Clone, PartialEq, Eq)]
pub enum CallbackState {
    /// Nothing done yet.
    Start,
    /// Waiting for the user's pending feedback to be cancelled.
    Cancelling,
    /// Waiting for the prompt of the cancelled feedback to be deleted.
    DeletingStale,
    /// "Go to": waiting for the key behind the hash; the pressed message.
    GotoKey(i32),
    /// "Go to": waiting to learn whether the key is a data entry.
    GotoKind(i32, String),
    /// "Go to" a data entry: waiting for the pressed message to be deleted.
    GotoDeleting(String),
    /// "Like": waiting for the key behind the hash; the pressed message.
    LikeKey(i32),
    /// "Like": waiting for the like to be toggled.
    Liking(i32, String),
    /// Rendering the node at a key, to be delivered as given.
    Rendering(String, RenderPhase, Deliver),
    /// Waiting for a data entry to be sent.
    Sending,
    /// Waiting for the pressed message to be edited; the like state to
    /// announce, when a like was toggled.
    Editing(Option<bool>),
    /// "Feedback": waiting to learn whether a feedback is pending.
    FeedbackActive,
    /// "Feedback": waiting for the cancel timer to be set.
    Scheduling,
    /// "Feedback": waiting for the prompt to be sent.
    Prompting,
    /// "Feedback": waiting for the pending feedback to be recorded; the prompt.
    Beginning(i32),
    /// "Feedback": waiting for a prompt that was not recorded to be deleted.
    DeletingDuplicate,
    /// Waiting for the query to be answered.
    Answering,
    /// Over.
    Finished,
}

/// The notification that answers a like toggle: a thumb up when the entry is
/// now liked, a thumb down when it is not.
pub open spec fn like_notice(liked: bool) -> Seq<char> {
    if liked {
        "👍"@
    } else {
        "👎"@
    }
}

/// `a` finishes the flow with `error`, and `s` is over.
pub open spec fn finishes(s: CallbackState, a: Action, error: Option<FlowError>) -> bool {
    s == CallbackState::Finished && a == (Action::Finish { error })
}

/// `a` answers the query without a notification.
pub open spec fn answers(s: CallbackState, a: Action) -> bool {
    s == CallbackState::Answering && a == (Action::AnswerQuery { notice: None })
}

/// After the stale feedback is dealt with: the request in the callback data
/// is served. No data: nothing to do. "Go to" and "like" need the pressed
/// message and ask for the key behind the hash; "feedback" asks whether a
/// feedback is pending; anything else is just answered.
pub open spec fn route_spec(ctx: CallbackContext, s: CallbackState, a: Action) -> bool {
    match ctx.data {
        None => finishes(s, a, None),
        Some(d) => {
            let goto = command_prefix(Command::Goto).is_prefix_of(d@);
            let like = command_prefix(Command::Like).is_prefix_of(d@);
            if goto || like {
                match ctx.message {
                    None => finishes(s, a, Some(FlowError::NoMessage)),
                    Some(m) => {
                        &&& if goto { s == CallbackState::GotoKey(m) } else { s == CallbackState::LikeKey(m) }
                        &&& a matches Action::GetKey { hash } && hash@ == d@.skip(6)
                    },
                }
            } else if d@ == feedback_data() {
                s == CallbackState::FeedbackActive && a == (Action::IsFeedbackActive { user: ctx.user })
            } else {
                answers(s, a)
            }
        },
    }
}

/// How a rendered node is delivered.
pub open spec fn deliver_spec(ctx: CallbackContext, d: Deliver, text: String, kb: Keyboard, s: CallbackState, a: Action) -> bool {
    match d {
        Deliver::SendData => s == CallbackState::Sending && a == (Action::SendMessage {
            chat: ctx.user,
            text,
            markup: Some(kb),
            no_preview: true,
            silent: true,
        }),
        Deliver::EditMenu(m) => s == CallbackState::Editing(None) && a == (Action::EditMessage {
            chat: ctx.user,
            message: m,
            text,
            keyboard: kb,
            no_preview: false,
        }),
        Deliver::EditLiked(m, liked) => s == CallbackState::Editing(Some(liked)) && a == (Action::EditMessage {
            chat: ctx.user,
            message: m,
            text,
            keyboard: kb,
            no_preview: true,
        }),
    }
}

/// Asks for the grid header of `key`, the first step of rendering it.
pub open spec fn renders(s: CallbackState, a: Action, key: Seq<char>, lang: Lang, phase: RenderPhase, d: Deliver) -> bool {
    &&& s matches CallbackState::Rendering(k, p, d2) && k@ == key && p == phase && d2 == d
    &&& a matches Action::GetGridHeader { key: k2, lang: l } && k2@ == key && l == lang
}

/// One step of the handling of a callback query: from the state `old` and
/// the outcome `ev` of the last action to the state `s` and the action `a`.
///
/// The user's pending feedback is cancelled first (and its prompt deleted).
/// "Go to" a menu renders it in place of the pressed message; "go to" a data
/// entry deletes the pressed message (whether that works or not), counts a
/// view and sends the entry as a new message; "like" toggles the user's like
/// and renders the entry in place of the pressed message. "Feedback", when
/// none is pending, sets the cancel timer, sends the prompt and records the
/// pending feedback, deleting the prompt when another one was recorded
/// first. Each request ends by answering the query; a failed action ends the
/// flow with an error.
pub open spec fn callback_step_spec(ctx: CallbackContext, old: CallbackState, ev: Event, s: CallbackState, a: Action) -> bool {
    match (old, ev) {
        (CallbackState::GotoDeleting(key), Event::Done) | (CallbackState::GotoDeleting(key), Event::Failed) => renders(
            s,
            a,
            key@,
            ctx.lang,
            RenderPhase::DataHeader(true),
            Deliver::SendData,
        ),
        (CallbackState::Rendering(key, phase, d), ev) => {
            exists|r: RenderStep| #[trigger] render_step_spec(key@, ctx.lang, phase, ev, r) && match r {
                RenderStep::Next(p, next) => s == CallbackState::Rendering(key, p, d) && a == next,
                RenderStep::Ready(text, kb) => deliver_spec(ctx, d, text, kb, s, a),
                RenderStep::Fail(e) => finishes(s, a, Some(e)),
            }
        },
        (_, Event::Failed) => finishes(s, a, Some(FlowError::ActionFailed)),
        (CallbackState::Start, Event::Start) => s == CallbackState::Cancelling && a == (Action::CancelFeedback { user: ctx.user }),
        (CallbackState::Cancelling, Event::Id(Some(m))) => s == CallbackState::DeletingStale && a == (Action::DeleteMessage {
            chat: ctx.user,
            message: m,
        }),
        (CallbackState::Cancelling, Event::Id(None)) | (CallbackState::DeletingStale, Event::Done) => route_spec(ctx, s, a),
        (CallbackState::GotoKey(m), Event::Text(key)) => {
            &&& s matches CallbackState::GotoKind(m2, k) && m2 == m && k@ == key@
            &&& a matches Action::IsDataEntry { key: k2 } && k2@ == key@
        },
        (CallbackState::GotoKind(m, key), Event::Flag(true)) => s matches CallbackState::GotoDeleting(k) && k@ == key@
            && a == (Action::DeleteMessage { chat: ctx.user, message: m }),
        (CallbackState::GotoKind(m, key), Event::Flag(false)) => renders(
            s,
            a,
            key@,
            ctx.lang,
            RenderPhase::MenuHeader,
            Deliver::EditMenu(m),
        ),
        (CallbackState::LikeKey(m), Event::Text(key)) => {
            &&& s matches CallbackState::Liking(m2, k) && m2 == m && k@ == key@
            &&& a matches Action::ToggleLike { key: k2, user } && k2@ == key@ && user == ctx.user
        },
        (CallbackState::Liking(m, key), Event::Flag(liked)) => renders(
            s,
            a,
            key@,
            ctx.lang,
            RenderPhase::DataHeader(false),
            Deliver::EditLiked(m, liked),
        ),
        (CallbackState::Sending, Event::Sent(_)) => answers(s, a),
        (CallbackState::Editing(None), Event::Done) => answers(s, a),
        (CallbackState::Editing(Some(liked)), Event::Done) => {
            &&& s == CallbackState::Answering
            &&& a matches Action::AnswerQuery { notice: Some(n) } && n@ == like_notice(liked)
        },
        (CallbackState::FeedbackActive, Event::Flag(true)) => answers(s, a),
        (CallbackState::FeedbackActive, Event::Flag(false)) => s == CallbackState::Scheduling && a == (Action::Spawn {
            task: Task::Cancel { user: ctx.user, after: ctx.feedback_timeout },
        }),
        (CallbackState::Scheduling, Event::Done) => {
            &&& s == CallbackState::Prompting
            &&& a matches Action::SendMessage { chat, text, markup: None, no_preview: false, silent: false }
                && chat == ctx.user && text@ == feedback_prelude_text(ctx.lang)
        },
        (CallbackState::Prompting, Event::Sent(m)) => s == CallbackState::Beginning(m) && a == (Action::BeginFeedback {
            user: ctx.user,
            message: m,
        }),
        (CallbackState::Beginning(_), Event::Flag(true)) => answers(s, a),
        (CallbackState::Beginning(m), Event::Flag(false)) => s == CallbackState::DeletingDuplicate && a == (Action::DeleteMessage {
            chat: ctx.user,
            message: m,
        }),
        (CallbackState::DeletingDuplicate, Event::Done) => answers(s, a),
        (CallbackState::Answering, Event::Done) => finishes(s, a, None),
        _ => finishes(s, a, Some(FlowError::UnexpectedEvent)),
    }
}

/// A callback query handling succeeds only by answering the query, or at
/// once when the button carries no callback data.
pub proof fn lemma_success_answers(ctx: CallbackContext, old: CallbackState, ev: Event, s: CallbackState, a: Action)
    requires
        callback_step_spec(ctx, old, ev, s, a),
        a == (Action::Finish { error: None }),
    ensures
        old == CallbackState::Answering || (ctx.data is None && (old == CallbackState::Cancelling
            || old == CallbackState::DeletingStale)),
{
    match old {
        CallbackState::Rendering(key, phase, d) => {
            let r = choose|r: RenderStep| #[trigger] render_step_spec(key@, ctx.lang, phase, ev, r) && match r {
                RenderStep::Next(p, next) => s == CallbackState::Rendering(key, p, d) && a == next,
                RenderStep::Ready(text, kb) => deliver_spec(ctx, d, text, kb, s, a),
                RenderStep::Fail(e) => finishes(s, a, Some(e)),
            };
            match r {
                RenderStep::Next(p, next) => {
                    assert(!(next is Finish));
                },
                _ => {},
            }
        },
        _ => {},
    }
}

/// The feedback protocol of button presses: any press first cancels the
/// user's pending feedback; a prompt whose pending feedback the store
/// refused to record (another one was recorded first) is deleted.
pub proof fn lemma_feedback_protocol(ctx: CallbackContext, old: CallbackState, ev: Event, s: CallbackState, a: Action)
    requires
        callback_step_spec(ctx, old, ev, s, a),
    ensures
        old == CallbackState::Start && ev == Event::Start ==> a == (Action::CancelFeedback { user: ctx.user }),
        old is Beginning && ev == Event::Flag(false) ==> a == (Action::DeleteMessage {
            chat: ctx.user,
            message: old->Beginning_0,
        }),
{
}

/// How far a rendering phase is from its end.
pub open spec fn phase_rank(p: RenderPhase) -> nat {
    match p {
        RenderPhase::MenuHeader => 4,
        RenderPhase::MenuNext(_) => 3,
        RenderPhase::DataHeader(_) => 4,
        RenderPhase::DataViews(_) => 3,
        RenderPhase::DataEntry(_) => 2,
    }
}

/// How far a callback query handling is from its end.
pub open spec fn callback_rank(s: CallbackState) -> nat {
    match s {
        CallbackState::Start => 25,
        CallbackState::Cancelling => 24,
        CallbackState::DeletingStale => 23,
        CallbackState::GotoKey(_) => 22,
        CallbackState::LikeKey(_) => 22,
        CallbackState::GotoKind(_, _) => 21,
        CallbackState::Liking(_, _) => 21,
        CallbackState::GotoDeleting(_) => 20,
        CallbackState::Rendering(_, p, _) => 10 + phase_rank(p),
        CallbackState::FeedbackActive => 6,
        CallbackState::Scheduling => 5,
        CallbackState::Prompting => 4,
        CallbackState::Beginning(_) => 3,
        CallbackState::DeletingDuplicate => 2,
        CallbackState::Sending => 2,
        CallbackState::Editing(_) => 2,
        CallbackState::Answering => 1,
        CallbackState::Finished => 0,
    }
}

/// Callback query handlings never loop: every step that does not finish
/// the handling brings it closer to its end, so a handling asks for at most
/// as many actions as the rank of its start.
pub proof fn lemma_callback_progress(ctx: CallbackContext, old: CallbackState, ev: Event, s: CallbackState, a: Action)
    requires
        callback_step_spec(ctx, old, ev, s, a),
        !(a is Finish),
    ensures
        callback_rank(s) < callback_rank(old),
{
    match old {
        CallbackState::Rendering(key, phase, d) => {
            let r = choose|r: RenderStep| #[trigger] render_step_spec(key@, ctx.lang, phase, ev, r) && match r {
                RenderStep::Next(p, next) => s == CallbackState::Rendering(key, p, d) && a == next,
                RenderStep::Ready(text, kb) => deliver_spec(ctx, d, text, kb, s, a),
                RenderStep::Fail(e) => finishes(s, a, Some(e)),
            };
        },
        _ => {},
    }
}

fn finish(error: Option<FlowError>) -> (r: (CallbackState, Action))
    ensures
        finishes(r.0, r.1, error),
{
    (CallbackState::Finished, Action::Finish { error })
}

fn answer() -> (r: (CallbackState, Action))
    ensures
        answers(r.0, r.1),
{
    (CallbackState::Answering, Action::AnswerQuery { notice: None })
}

fn route(ctx: &CallbackContext) -> (r: (CallbackState, Action))
    ensures
        route_spec(*ctx, r.0, r.1),
{
    match &ctx.data {
        None => finish(None),
        Some(d) => {
            let req = parse(d.as_str());
            match req {
                CallbackRequest::Goto(hash) => match ctx.message {
                    Some(m) => (CallbackState::GotoKey(m), Action::GetKey { hash }),
                    None => finish(Some(FlowError::NoMessage)),
                },
                CallbackRequest::Like(hash) => match ctx.message {
                    Some(m) => (CallbackState::LikeKey(m), Action::GetKey { hash }),
                    None => finish(Some(FlowError::NoMessage)),
                },
                CallbackRequest::Feedback => (CallbackState::FeedbackActive, Action::IsFeedbackActive { user: ctx.user }),
                CallbackRequest::Unknown => answer(),
            }
        },
    }
}

fn deliver(ctx: &CallbackContext, d: Deliver, text: String, kb: Keyboard) -> (r: (CallbackState, Action))
    ensures
        deliver_spec(*ctx, d, text, kb, r.0, r.1),
{
    match d {
        Deliver::SendData => (
            CallbackState::Sending,
            Action::SendMessage { chat: ctx.user, text, markup: Some(kb), no_preview: true, silent: true },
        ),
        Deliver::EditMenu(m) => (
            CallbackState::Editing(None),
            Action::EditMessage { chat: ctx.user, message: m, text, keyboard: kb, no_preview: false },
        ),
        Deliver::EditLiked(m, liked) => (
            CallbackState::Editing(Some(liked)),
            Action::EditMessage { chat: ctx.user, message: m, text, keyboard: kb, no_preview: true },
        ),
    }
}

fn start_render(key: String, lang: Lang, phase: RenderPhase, d: Deliver) -> (r: (CallbackState, Action))
    ensures
        renders(r.0, r.1, key@, lang, phase, d),
{
    let k = key.clone();
    (CallbackState::Rendering(key, phase, d), Action::GetGridHeader { key: k, lang })
}

/// One step of the handling of a callback query; see `callback_step_spec`.
pub fn callback_step(ctx: &CallbackContext, old: CallbackState, ev: Event) -> (r: (CallbackState, Action))
    ensures
        callback_step_spec(*ctx, old, ev, r.0, r.1),
{
    let ghost ev_v = ev;
    match (old, ev) {
        (CallbackState::GotoDeleting(key), Event::Done) => start_render(key, ctx.lang, RenderPhase::DataHeader(true), Deliver::SendData),
        (CallbackState::GotoDeleting(key), Event::Failed) => start_render(key, ctx.lang, RenderPhase::DataHeader(true), Deliver::SendData),
        (CallbackState::Rendering(key, phase, d), ev) => {
            let step = render_step(key.as_str(), ctx.lang, phase, ev);
            let ghost step_v = step;
            let r = match step {
                RenderStep::Next(p, next) => (CallbackState::Rendering(key, p, d), next),
                RenderStep::Ready(text, kb) => deliver(ctx, d, text, kb),
                RenderStep::Fail(e) => finish(Some(e)),
            };
            proof {
                assert(render_step_spec(key@, ctx.lang, phase, ev_v, step_v));
            }
            r
        },
        (_, Event::Failed) => finish(Some(FlowError::ActionFailed)),
        (CallbackState::Start, Event::Start) => (CallbackState::Cancelling, Action::CancelFeedback { user: ctx.user }),
        (CallbackState::Cancelling, Event::Id(Some(m))) => (
            CallbackState::DeletingStale,
            Action::DeleteMessage { chat: ctx.user, message: m },
        ),
        (CallbackState::Cancelling, Event::Id(None)) => route(ctx),
        (CallbackState::DeletingStale, Event::Done) => route(ctx),
        (CallbackState::GotoKey(m), Event::Text(key)) => {
            let k = key.clone();
            (CallbackState::GotoKind(m, key), Action::IsDataEntry { key: k })
        },
        (CallbackState::GotoKind(m, key), Event::Flag(true)) => (
            CallbackState::GotoDeleting(key),
            Action::DeleteMessage { chat: ctx.user, message: m },
        ),
        (CallbackState::GotoKind(m, key), Event::Flag(false)) => start_render(key, ctx.lang, RenderPhase::MenuHeader, Deliver::EditMenu(m)),
        (CallbackState::LikeKey(m), Event::Text(key)) => {
            let k = key.clone();
            (CallbackState::Liking(m, key), Action::ToggleLike { key: k, user: ctx.user })
        },
        (CallbackState::Liking(m, key), Event::Flag(liked)) => start_render(
            key,
            ctx.lang,
            RenderPhase::DataHeader(false),
            Deliver::EditLiked(m, liked),
        ),
        (CallbackState::Sending, Event::Sent(_)) => answer(),
        (CallbackState::Editing(None), Event::Done) => answer(),
        (CallbackState::Editing(Some(liked)), Event::Done) => {
            let notice = if liked {
                "👍".to_owned()
            } else {
                "👎".to_owned()
            };
            (CallbackState::Answering, Action::AnswerQuery { notice: Some(notice) })
        },
        (CallbackState::FeedbackActive, Event::Flag(true)) => answer(),
        (CallbackState::FeedbackActive, Event::Flag(false)) => (
            CallbackState::Scheduling,
            Action::Spawn { task: Task::Cancel { user: ctx.user, after: ctx.feedback_timeout } },
        ),
        (CallbackState::Scheduling, Event::Done) => (
            CallbackState::Prompting,
            Action::SendMessage {
                chat: ctx.user,
                text: feedback_prelude(ctx.lang).to_owned(),
                markup: None,
                no_preview: false,
                silent: false,
            },
        ),
        (CallbackState::Prompting, Event::Sent(m)) => (
            CallbackState::Beginning(m),
            Action::BeginFeedback { user: ctx.user, message: m },
        ),
        (CallbackState::Beginning(_), Event::Flag(true)) => answer(),
        (CallbackState::Beginning(m), Event::Flag(false)) => (
            CallbackState::DeletingDuplicate,
            Action::DeleteMessage { chat: ctx.user, message: m },
        ),
        (CallbackState::DeletingDuplicate, Event::Done) => answer(),
        (CallbackState::Answering, Event::Done) => finish(None),
        _ => finish(Some(FlowError::UnexpectedEvent)),
    }
}

/// Opening a data entry by a "go to" button counts exactly one view, whether
/// or not the pressed message could be deleted: the step after the delete
/// asks for the entry's header, and the step after the header counts a view
/// of that same key.
pub proof fn lemma_goto_data_counts_view(
    ctx: &CallbackContext,
    key: String,
    ev: Event,
    r1: (CallbackState, Action),
    header: String,
    r2: (CallbackState, Action),
)
    requires
        ev == Event::Done || ev == Event::Failed,
        call_ensures(callback_step, (ctx, CallbackState::GotoDeleting(key), ev), r1),
        call_ensures(callback_step, (ctx, r1.0, Event::Text(header)), r2),
    ensures
        r1.1 matches Action::GetGridHeader { key: k, lang } && k@ == key@ && lang == ctx.lang,
        r2.1 matches Action::IncViews { key: k } && k@ == key@,
{
}

/// The answer to a like toggle announces the toggle's outcome: a thumb up
/// when the entry is now liked, a thumb down when the like was removed.
pub proof fn lemma_like_answer(ctx: &CallbackContext, liked: bool, r: (CallbackState, Action))
    requires
        call_ensures(callback_step, (ctx, CallbackState::Editing(Some(liked)), Event::Done), r),
    ensures
        r.1 matches Action::AnswerQuery { notice: Some(n) } && n@ == (if liked { seq!['👍'] } else { seq!['👎'] }),
{
    reveal_strlit("👍");
    reveal_strlit("👎");
}

/// Toggling a like re-renders the entry without counting a view: the step
/// after the toggle asks for the entry's header, and the step after the
/// header asks for the entry itself.
pub proof fn lemma_like_counts_no_view(
    ctx: &CallbackContext,
    m: i32,
    key: String,
    liked: bool,
    r1: (CallbackState, Action),
    header: String,
    r2: (CallbackState, Action),
)
    requires
        call_ensures(callback_step, (ctx, CallbackState::Liking(m, key), Event::Flag(liked)), r1),
        call_ensures(callback_step, (ctx, r1.0, Event::Text(header)), r2),
    ensures
        r1.1 matches Action::GetGridHeader { key: k, lang } && k@ == key@ && lang == ctx.lang,
        r2.1 matches Action::GetDataEntry { key: k, lang } && k@ == key@ && lang == ctx.lang,
{
}

} // verus!
