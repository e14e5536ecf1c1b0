//! The first version of the update handlers: callback queries served from a
//! grid without likes counts or feedback button on data entries, and
//! `/start` answered with the grid's root.
use vstd::prelude::*;

use crate::callback::{CallbackRequest, Command, command_prefix, parse};
use crate::flow::{Action, Event, FlowError};
use crate::grid::{GridNode, bold, children_ascending, entries_ascending, entries_view, goto, init, menu_navigation, menu_rows};
use crate::keyboard::{feedback_row, root_key};
use crate::l10n::Lang;
use crate::message_flow::start_command;
use crate::template::{RenderError, rendered};
use crate::text::str_eq;

verus! {

/// What a first-version callback query handling starts from.
#[derive(Debug, Clone, PartialEq, Eq)]
pub struct LegacyCallbackContext {
    /// The user who pressed the button.
    pub user: i64,
    /// The message that holds the keyboard, when Telegram gives it.
    pub message: Option<i32>,
    /// The button's callback data, when it has any.
    pub data: Option<String>,
}

/// Where a first-version callback query handling stands. The fields are
/// the pressed message, the grid key, the node's header, and the like state
/// to announce when a like was toggled.
#[derive(Debug, Clone, PartialEq, Eq)]
pub enum LegacyCallbackState {
    Start,
    /// Waiting for the key behind the hash; whether a like is to be toggled.
    Key(i32, bool),
    /// Waiting for the like to be toggled.
    Liking(i32, String),
    /// Waiting for the node's header.
    Header(i32, String, Option<bool>),
    /// Waiting to learn whether the node is a data entry.
    Kind(i32, String, String, Option<bool>),
    /// Waiting for the view to be counted.
    Views(i32, String, String, Option<bool>),
    /// Waiting for the data entry.
    Entry(i32, String, String, Option<bool>),
    /// Waiting for the menu's children.
    Next(i32, String, String, Option<bool>),
    /// Waiting for the pressed message to be edited.
    Editing(Option<bool>),
    /// Waiting for the query to be answered.
    Answering,
    Finished,
}

/// `a` finishes the flow with `error`, and `s` is over.
pub open spec fn legacy_finishes(s: LegacyCallbackState, a: Action, error: Option<FlowError>) -> bool {
    s == LegacyCallbackState::Finished && a == (Action::Finish { error })
}

/// The pressed message is edited to show the node; the result of `goto`.
pub open spec fn legacy_edits(
    ctx: LegacyCallbackContext,
    m: i32,
    liked: Option<bool>,
    text: Seq<char>,
    rows: Seq<Seq<crate::keyboard::ButtonView>>,
    s: LegacyCallbackState,
    a: Action,
) -> bool {
    &&& s == LegacyCallbackState::Editing(liked)
    &&& a matches Action::EditMessage { chat, message, text: t, keyboard, no_preview: true } && chat == ctx.user
        && message == m && t@ == text && keyboard@ == rows
}

/// One step of the first version of callback query handling.
///
/// Only a query with both a message and data is served, and only for a user
/// with a non-negative id. "Go to" asks for the key behind the hash, then
/// shows the node in place of the pressed message; "like" toggles the
/// user's like before that. A node is its header, then, for a data entry, a
/// counted view and the entry rendered in Russian, else the menu's
/// children. Every served query is answered, a like with a thumb up or down.
pub open spec fn legacy_callback_step_spec(
    ctx: LegacyCallbackContext,
    old: LegacyCallbackState,
    ev: Event,
    s: LegacyCallbackState,
    a: Action,
) -> bool {
    match (old, ev) {
        (_, Event::Failed) => legacy_finishes(s, a, Some(FlowError::ActionFailed)),
        (LegacyCallbackState::Start, Event::Start) => match (ctx.message, ctx.data) {
            (Some(m), Some(d)) => if ctx.user < 0 {
                legacy_finishes(s, a, Some(FlowError::InvalidUser))
            } else if command_prefix(Command::Goto).is_prefix_of(d@) {
                &&& s == LegacyCallbackState::Key(m, false)
                &&& a matches Action::GetKey { hash } && hash@ == d@.skip(6)
            } else if command_prefix(Command::Like).is_prefix_of(d@) {
                &&& s == LegacyCallbackState::Key(m, true)
                &&& a matches Action::GetKey { hash } && hash@ == d@.skip(6)
            } else {
                s == LegacyCallbackState::Answering && a == (Action::AnswerQuery { notice: None })
            },
            _ => legacy_finishes(s, a, None),
        },
        (LegacyCallbackState::Key(m, false), Event::Text(key)) => {
            &&& s matches LegacyCallbackState::Header(m2, k, None) && m2 == m && k@ == key@
            &&& a matches Action::GetGridHeader { key: k2, lang: Lang::Ru } && k2@ == key@
        },
        (LegacyCallbackState::Key(m, true), Event::Text(key)) => {
            &&& s matches LegacyCallbackState::Liking(m2, k) && m2 == m && k@ == key@
            &&& a matches Action::ToggleLike { key: k2, user } && k2@ == key@ && user == ctx.user
        },
        (LegacyCallbackState::Liking(m, key), Event::Flag(liked)) => {
            &&& s matches LegacyCallbackState::Header(m2, k, Some(l)) && m2 == m && k@ == key@ && l == liked
            &&& a matches Action::GetGridHeader { key: k2, lang: Lang::Ru } && k2@ == key@
        },
        (LegacyCallbackState::Header(m, key, liked), Event::Text(h)) => {
            &&& s matches LegacyCallbackState::Kind(m2, k, h2, l) && m2 == m && k@ == key@ && h2@ == h@ && l == liked
            &&& a matches Action::IsDataEntry { key: k2 } && k2@ == key@
        },
        (LegacyCallbackState::Kind(m, key, h, liked), Event::Flag(true)) => {
            &&& s matches LegacyCallbackState::Views(m2, k, h2, l) && m2 == m && k@ == key@ && h2@ == h@ && l == liked
            &&& a matches Action::IncViews { key: k2 } && k2@ == key@
        },
        (LegacyCallbackState::Kind(m, key, h, liked), Event::Flag(false)) => {
            &&& s matches LegacyCallbackState::Next(m2, k, h2, l) && m2 == m && k@ == key@ && h2@ == h@ && l == liked
            &&& a matches Action::GetNextButtons { key: k2, lang: Lang::Ru } && k2@ == key@
        },
        (LegacyCallbackState::Views(m, key, h, liked), Event::Done) => {
            &&& s matches LegacyCallbackState::Entry(m2, k, h2, l) && m2 == m && k@ == key@ && h2@ == h@ && l == liked
            &&& a matches Action::GetDataEntry { key: k2, lang: Lang::Ru } && k2@ == key@
        },
        (LegacyCallbackState::Entry(m, key, h, liked), Event::Entry(e)) => legacy_edits(
            ctx,
            m,
            liked,
            rendered(h@, e, Lang::Ru),
            menu_navigation(key@),
            s,
            a,
        ),
        (LegacyCallbackState::Next(m, key, h, liked), Event::Entries(next)) => if entries_ascending(entries_view(next@)) {
            legacy_edits(ctx, m, liked, h@, menu_rows(entries_view(next@)) + menu_navigation(key@), s, a)
        } else {
            legacy_finishes(s, a, Some(FlowError::UnorderedChildren))
        },
        (LegacyCallbackState::Editing(None), Event::Done) => s == LegacyCallbackState::Answering && a == (
        Action::AnswerQuery { notice: None }),
        (LegacyCallbackState::Editing(Some(liked)), Event::Done) => {
            &&& s == LegacyCallbackState::Answering
            &&& a matches Action::AnswerQuery { notice: Some(n) } && n@ == crate::callback_flow::like_notice(liked)
        },
        (LegacyCallbackState::Answering, Event::Done) => legacy_finishes(s, a, None),
        _ => legacy_finishes(s, a, Some(FlowError::UnexpectedEvent)),
    }
}

/// How far a first-version callback query handling is from its end.
pub open spec fn legacy_callback_rank(s: LegacyCallbackState) -> nat {
    match s {
        LegacyCallbackState::Start => 12,
        LegacyCallbackState::Key(_, _) => 11,
        LegacyCallbackState::Liking(_, _) => 10,
        LegacyCallbackState::Header(_, _, _) => 9,
        LegacyCallbackState::Kind(_, _, _, _) => 8,
        LegacyCallbackState::Views(_, _, _, _) => 7,
        LegacyCallbackState::Entry(_, _, _, _) => 6,
        LegacyCallbackState::Next(_, _, _, _) => 6,
        LegacyCallbackState::Editing(_) => 2,
        LegacyCallbackState::Answering => 1,
        LegacyCallbackState::Finished => 0,
    }
}

/// First-version callback query handlings never loop: every step that does
/// not finish the handling brings it closer to its end.
pub proof fn lemma_legacy_callback_progress(
    ctx: LegacyCallbackContext,
    old: LegacyCallbackState,
    ev: Event,
    s: LegacyCallbackState,
    a: Action,
)
    requires
        legacy_callback_step_spec(ctx, old, ev, s, a),
        !(a is Finish),
    ensures
        legacy_callback_rank(s) < legacy_callback_rank(old),
{
}

fn legacy_finish(error: Option<FlowError>) -> (r: (LegacyCallbackState, Action))
    ensures
        legacy_finishes(r.0, r.1, error),
{
    (LegacyCallbackState::Finished, Action::Finish { error })
}

fn legacy_show(ctx: &LegacyCallbackContext, m: i32, key: String, h: String, node: GridNode, liked: Option<bool>) -> (r: (
    LegacyCallbackState,
    Action,
))
    requires
        node matches GridNode::Menu(next) ==> entries_ascending(entries_view(next@)),
    ensures
        match node {
            GridNode::Menu(next) => legacy_edits(
                *ctx,
                m,
                liked,
                h@,
                menu_rows(entries_view(next@)) + menu_navigation(key@),
                r.0,
                r.1,
            ),
            GridNode::Data(e) => legacy_edits(*ctx, m, liked, rendered(h@, e, Lang::Ru), menu_navigation(key@), r.0, r.1),
        },
{
    match goto(key.as_str(), h.as_str(), node) {
        Ok((text, keyboard)) => (
            LegacyCallbackState::Editing(liked),
            Action::EditMessage { chat: ctx.user, message: m, text, keyboard, no_preview: true },
        ),
        Err(RenderError::Template) => legacy_finish(Some(FlowError::Render)),
    }
}

/// One step of the first version of callback query handling; see
/// `legacy_callback_step_spec`.
pub fn legacy_callback_step(ctx: &LegacyCallbackContext, old: LegacyCallbackState, ev: Event) -> (r: (
    LegacyCallbackState,
    Action,
))
    ensures
        legacy_callback_step_spec(*ctx, old, ev, r.0, r.1),
{
    match (old, ev) {
        (_, Event::Failed) => legacy_finish(Some(FlowError::ActionFailed)),
        (LegacyCallbackState::Start, Event::Start) => match (&ctx.message, &ctx.data) {
            (Some(m), Some(d)) => {
                if ctx.user < 0 {
                    return legacy_finish(Some(FlowError::InvalidUser));
                }
                match parse(d.as_str()) {
                    CallbackRequest::Goto(hash) => (LegacyCallbackState::Key(*m, false), Action::GetKey { hash }),
                    CallbackRequest::Like(hash) => (LegacyCallbackState::Key(*m, true), Action::GetKey { hash }),
                    _ => (LegacyCallbackState::Answering, Action::AnswerQuery { notice: None }),
                }
            },
            _ => legacy_finish(None),
        },
        (LegacyCallbackState::Key(m, false), Event::Text(key)) => {
            let k = key.clone();
            (LegacyCallbackState::Header(m, key, None), Action::GetGridHeader { key: k, lang: Lang::Ru })
        },
        (LegacyCallbackState::Key(m, true), Event::Text(key)) => {
            let k = key.clone();
            (LegacyCallbackState::Liking(m, key), Action::ToggleLike { key: k, user: ctx.user })
        },
        (LegacyCallbackState::Liking(m, key), Event::Flag(liked)) => {
            let k = key.clone();
            (LegacyCallbackState::Header(m, key, Some(liked)), Action::GetGridHeader { key: k, lang: Lang::Ru })
        },
        (LegacyCallbackState::Header(m, key, liked), Event::Text(h)) => {
            let k = key.clone();
            (LegacyCallbackState::Kind(m, key, h, liked), Action::IsDataEntry { key: k })
        },
        (LegacyCallbackState::Kind(m, key, h, liked), Event::Flag(true)) => {
            let k = key.clone();
            (LegacyCallbackState::Views(m, key, h, liked), Action::IncViews { key: k })
        },
        (LegacyCallbackState::Kind(m, key, h, liked), Event::Flag(false)) => {
            let k = key.clone();
            (LegacyCallbackState::Next(m, key, h, liked), Action::GetNextButtons { key: k, lang: Lang::Ru })
        },
        (LegacyCallbackState::Views(m, key, h, liked), Event::Done) => {
            let k = key.clone();
            (LegacyCallbackState::Entry(m, key, h, liked), Action::GetDataEntry { key: k, lang: Lang::Ru })
        },
        (LegacyCallbackState::Entry(m, key, h, liked), Event::Entry(e)) => legacy_show(ctx, m, key, h, GridNode::Data(e), liked),
        (LegacyCallbackState::Next(m, key, h, liked), Event::Entries(next)) => {
            if !children_ascending(&next) {
                return legacy_finish(Some(FlowError::UnorderedChildren));
            }
            legacy_show(ctx, m, key, h, GridNode::Menu(next), liked)
        },
        (LegacyCallbackState::Editing(None), Event::Done) => (
            LegacyCallbackState::Answering,
            Action::AnswerQuery { notice: None },
        ),
        (LegacyCallbackState::Editing(Some(liked)), Event::Done) => {
            let notice = if liked {
                "👍".to_owned()
            } else {
                "👎".to_owned()
            };
            (LegacyCallbackState::Answering, Action::AnswerQuery { notice: Some(notice) })
        },
        (LegacyCallbackState::Answering, Event::Done) => legacy_finish(None),
        _ => legacy_finish(Some(FlowError::UnexpectedEvent)),
    }
}

/// Where a first-version message handling stands.
#[derive(Debug, Clone, PartialEq, Eq)]
pub enum LegacyMessageState {
    Start,
    /// `/start`: waiting for the root's header.
    Header,
    /// `/start`: waiting for the root's children, with the header.
    Next(String),
    /// `/start`: waiting for the root to be sent.
    Sending,
    /// Other text: waiting for it to be deleted.
    Deleting,
    Finished,
}

/// One step of the first version of message handling: `/start` is answered
/// with the grid's root (header in bold, a button per child, the feedback
/// button); any other text is deleted; a message without sender or text is
/// left alone.
pub open spec fn legacy_message_step_spec(
    ctx: crate::message_flow::MessageContext,
    old: LegacyMessageState,
    ev: Event,
    s: LegacyMessageState,
    a: Action,
) -> bool {
    let fin = |e: Option<FlowError>| s == LegacyMessageState::Finished && a == (Action::Finish { error: e });
    match (old, ev) {
        (_, Event::Failed) => fin(Some(FlowError::ActionFailed)),
        (LegacyMessageState::Start, Event::Start) => match (ctx.user, ctx.text) {
            (Some(user), Some(text)) => if text@ == start_command() {
                &&& s == LegacyMessageState::Header
                &&& a matches Action::GetGridHeader { key, lang } && key@ == root_key() && lang == ctx.lang
            } else {
                s == LegacyMessageState::Deleting && a == (Action::DeleteMessage { chat: user, message: ctx.message })
            },
            _ => fin(None),
        },
        (LegacyMessageState::Header, Event::Text(h)) => {
            &&& s matches LegacyMessageState::Next(h2) && h2@ == h@
            &&& a matches Action::GetNextButtons { key, lang } && key@ == root_key() && lang == ctx.lang
        },
        (LegacyMessageState::Next(h), Event::Entries(next)) => if !entries_ascending(entries_view(next@)) {
            fin(Some(FlowError::UnorderedChildren))
        } else {
            &&& s == LegacyMessageState::Sending
            &&& a matches Action::SendMessage { chat, text, markup: Some(kb), no_preview: true, silent: false }
                && chat == crate::message_flow::sender(ctx) && text@ == bold(h@)
                && kb@ == menu_rows(entries_view(next@)).push(feedback_row(ctx.lang))
        },
        (LegacyMessageState::Sending, Event::Sent(_)) => fin(None),
        (LegacyMessageState::Deleting, Event::Done) => fin(None),
        _ => fin(Some(FlowError::UnexpectedEvent)),
    }
}

/// How far a first-version message handling is from its end.
pub open spec fn legacy_message_rank(s: LegacyMessageState) -> nat {
    match s {
        LegacyMessageState::Start => 5,
        LegacyMessageState::Header => 4,
        LegacyMessageState::Next(_) => 3,
        LegacyMessageState::Sending => 2,
        LegacyMessageState::Deleting => 1,
        LegacyMessageState::Finished => 0,
    }
}

/// First-version message handlings never loop: every step that does not
/// finish the handling brings it closer to its end.
pub proof fn lemma_legacy_message_progress(
    ctx: crate::message_flow::MessageContext,
    old: LegacyMessageState,
    ev: Event,
    s: LegacyMessageState,
    a: Action,
)
    requires
        legacy_message_step_spec(ctx, old, ev, s, a),
        !(a is Finish),
    ensures
        legacy_message_rank(s) < legacy_message_rank(old),
{
}

/// One step of the first version of message handling; see
/// `legacy_message_step_spec`.
pub fn legacy_message_step(ctx: &crate::message_flow::MessageContext, old: LegacyMessageState, ev: Event) -> (r: (
    LegacyMessageState,
    Action,
))
    ensures
        legacy_message_step_spec(*ctx, old, ev, r.0, r.1),
{
    proof {
        reveal_strlit("/");
        reveal_strlit("/start");
        assert("/"@ =~= root_key());
        assert("/start"@ =~= start_command());
    }
    let user = match ctx.user {
        Some(u) => u,
        None => 0,
    };
    match (old, ev) {
        (_, Event::Failed) => (LegacyMessageState::Finished, Action::Finish { error: Some(FlowError::ActionFailed) }),
        (LegacyMessageState::Start, Event::Start) => match (&ctx.user, &ctx.text) {
            (Some(_), Some(text)) => {
                if str_eq(text.as_str(), "/start") {
                    (LegacyMessageState::Header, Action::GetGridHeader { key: "/".to_owned(), lang: ctx.lang })
                } else {
                    (LegacyMessageState::Deleting, Action::DeleteMessage { chat: user, message: ctx.message })
                }
            },
            _ => (LegacyMessageState::Finished, Action::Finish { error: None }),
        },
        (LegacyMessageState::Header, Event::Text(h)) => (
            LegacyMessageState::Next(h),
            Action::GetNextButtons { key: "/".to_owned(), lang: ctx.lang },
        ),
        (LegacyMessageState::Next(h), Event::Entries(next)) => {
            if !children_ascending(&next) {
                return (LegacyMessageState::Finished, Action::Finish { error: Some(FlowError::UnorderedChildren) });
            }
            let (text, keyboard) = init(h.as_str(), &next, ctx.lang);
            (
                LegacyMessageState::Sending,
                Action::SendMessage { chat: user, text, markup: Some(keyboard), no_preview: true, silent: false },
            )
        },
        (LegacyMessageState::Sending, Event::Sent(_)) => (LegacyMessageState::Finished, Action::Finish { error: None }),
        (LegacyMessageState::Deleting, Event::Done) => (LegacyMessageState::Finished, Action::Finish { error: None }),
        _ => (LegacyMessageState::Finished, Action::Finish { error: Some(FlowError::UnexpectedEvent) }),
    }
}

/// In the first version too, the answer to a like toggle announces the
/// toggle's outcome: a thumb up when the entry is now liked, a thumb down
/// when the like was removed.
pub proof fn lemma_legacy_like_answer(ctx: &LegacyCallbackContext, liked: bool, r: (LegacyCallbackState, Action))
    requires
        call_ensures(legacy_callback_step, (ctx, LegacyCallbackState::Editing(Some(liked)), Event::Done), r),
    ensures
        r.1 matches Action::AnswerQuery { notice: Some(n) } && n@ == (if liked { seq!['👍'] } else { seq!['👎'] }),
{
    reveal_strlit("👍");
    reveal_strlit("👎");
}

} // verus!
