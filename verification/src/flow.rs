//! What the update handlers do, as steps of state machines: each step takes
//! the outcome of the previous action and gives the next action. The driver
//! performs the actions (store queries, Telegram requests, timers) and hands
//! their outcomes back.
use vstd::prelude::*;

use crate::config::TimeSpan;
use crate::feedback::Feedback;
use crate::grid::{
    bold, children_ascending, data_rows, entries_ascending, entries_view, menu_navigation, menu_rows, render_data,
    render_menu,
};
use crate::keyboard::{Keyboard, feedback_row};
use crate::l10n::Lang;
use crate::path::{component_count, components_count};
use crate::template::{DataEntry, RenderError, rendered};

verus! {

/// Why a flow stopped before its end.
#[derive(Debug, Clone, Copy, PartialEq, Eq, Structural)]
pub enum FlowError {
    /// An action that the flow depends on failed.
    ActionFailed,
    /// A callback query that needs its message came without one.
    NoMessage,
    /// The data entry template could not be rendered.
    Render,
    /// A grid key with no components cannot be shown as a data entry.
    EmptyKey,
    /// The outcome handed back does not answer the action asked for.
    UnexpectedEvent,
    /// The user id is negative, where an unsigned id is needed.
    InvalidUser,
    /// The children of a menu did not come with their keys strictly ascending.
    UnorderedChildren,
}

/// What the driver is asked to do next.
#[derive(Debug, Clone, PartialEq, Eq)]
pub enum Action {
    /// Store: drop the user's pending feedback and give the id of its prompt
    /// message, if one was pending. Answered by `Id`.
    CancelFeedback { user: i64 },
    /// Store: the id of the prompt of the user's pending feedback, if any. Answered by `Id`.
    GetPendingFeedback { user: i64 },
    /// Store: whether the user has a pending feedback. Answered by `Flag`.
    IsFeedbackActive { user: i64 },
    /// Store: record a pending feedback of the user unless one is pending;
    /// whether it was recorded. Answered by `Flag`.
    BeginFeedback { user: i64, message: i32 },
    /// Store: publish a feedback to the feedback stream. Answered by `Done`.
    PublishFeedback { feedback: Feedback },
    /// Store: drop the user's pending feedback. Answered by `Flag`.
    EndFeedback { user: i64 },
    /// Store: the grid key that a key hash stands for. Answered by `Text`.
    GetKey { hash: String },
    /// Store: whether a grid key is a data entry. Answered by `Flag`.
    IsDataEntry { key: String },
    /// Store: the localized header of a grid node. Answered by `Text`.
    GetGridHeader { key: String, lang: Lang },
    /// Store: the children of a menu as (key, name), in key order. Answered by `Entries`.
    GetNextButtons { key: String, lang: Lang },
    /// Store: count one more view of a data entry. Answered by `Done`.
    IncViews { key: String },
    /// Store: a localized data entry. Answered by `Entry`.
    GetDataEntry { key: String, lang: Lang },
    /// Store: toggle the user's like of a data entry; whether it is now liked. Answered by `Flag`.
    ToggleLike { key: String, user: i64 },
    /// Telegram: delete a message. Answered by `Done`.
    DeleteMessage { chat: i64, message: i32 },
    /// Telegram: send a message. Answered by `Sent`.
    SendMessage { chat: i64, text: String, markup: Option<Keyboard>, no_preview: bool, silent: bool },
    /// Telegram: replace the text and keyboard of a message. Answered by `Done`.
    EditMessage { chat: i64, message: i32, text: String, keyboard: Keyboard, no_preview: bool },
    /// Telegram: answer the callback query, with a notification text or none. Answered by `Done`.
    AnswerQuery { notice: Option<String> },
    /// Run a task on its own, without waiting for it. Answered by `Done`.
    Spawn { task: Task },
    /// Timer: wait. Answered by `Done`.
    Sleep { span: TimeSpan },
    /// The flow is over: it succeeded, or stopped with an error.
    Finish { error: Option<FlowError> },
}

/// A flow that runs on its own, beside the handling that started it.
#[derive(Debug, Clone, Copy, PartialEq, Eq, Structural)]
pub enum Task {
    /// After a delay, cancel the user's pending feedback and delete its prompt.
    Cancel { user: i64, after: TimeSpan },
    /// Delete the feedback prompt (`request`) and the user's feedback message
    /// (`response`), then drop the pending feedback.
    Cleanup { user: i64, request: i32, response: i32 },
    /// Thank the user for the feedback, and delete the thanks after a while.
    Ack { user: i64 },
}

/// The outcome of an action, handed back by the driver.
#[derive(Debug, Clone, PartialEq, Eq)]
pub enum Event {
    /// The flow starts.
    Start,
    /// The action failed.
    Failed,
    /// The action is done.
    Done,
    /// A yes/no answer.
    Flag(bool),
    /// A message id, or none.
    Id(Option<i32>),
    /// The id of a sent message.
    Sent(i32),
    /// A text: a grid key or a header.
    Text(String),
    /// The children of a menu as (key, name).
    Entries(Vec<(String, String)>),
    /// A data entry.
    Entry(DataEntry),
}

/// Where a rendering of a grid node stands.
#[derive(Debug, Clone, PartialEq, Eq)]
pub enum RenderPhase {
    /// A menu: waiting for its header.
    MenuHeader,
    /// A menu: waiting for its children, with its header.
    MenuNext(String),
    /// A data entry: waiting for its header; whether the view is counted.
    DataHeader(bool),
    /// A data entry: waiting for the view to be counted, with its header.
    DataViews(String),
    /// A data entry: waiting for the entry, with its header.
    DataEntry(String),
}

/// A step of a rendering.
#[derive(Debug, Clone, PartialEq, Eq)]
pub enum RenderStep {
    /// Go on in the given phase after the given action.
    Next(RenderPhase, Action),
    /// The node is rendered: its text and keyboard.
    Ready(String, Keyboard),
    /// The rendering failed.
    Fail(FlowError),
}

/// The first step of rendering the menu at `key`.
pub open spec fn menu_start(key: Seq<char>, lang: Lang, phase: RenderPhase, a: Action) -> bool {
    &&& phase == RenderPhase::MenuHeader
    &&& a matches Action::GetGridHeader { key: k, lang: l } && k@ == key && l == lang
}

/// The first step of rendering the data entry at `key`.
pub open spec fn data_start(key: Seq<char>, lang: Lang, visit: bool, phase: RenderPhase, a: Action) -> bool {
    &&& phase == RenderPhase::DataHeader(visit)
    &&& a matches Action::GetGridHeader { key: k, lang: l } && k@ == key && l == lang
}

/// How a rendering of the node at `key` goes on from `phase` when `event` comes.
pub open spec fn render_step_spec(key: Seq<char>, lang: Lang, phase: RenderPhase, event: Event, r: RenderStep) -> bool {
    match event {
        Event::Failed => r == RenderStep::Fail(FlowError::ActionFailed),
        _ => match (phase, event) {
            (RenderPhase::MenuHeader, Event::Text(h)) => r matches RenderStep::Next(
                RenderPhase::MenuNext(h2),
                Action::GetNextButtons { key: k, lang: l },
            ) && h2@ == h@ && k@ == key && l == lang,
            (RenderPhase::MenuNext(h), Event::Entries(next)) => if entries_ascending(entries_view(next@)) {
                r matches RenderStep::Ready(t, kb) && t@ == bold(h@)
                    && kb@ == menu_rows(entries_view(next@)) + menu_navigation(key) + seq![feedback_row(lang)]
            } else {
                r == RenderStep::Fail(FlowError::UnorderedChildren)
            },
            (RenderPhase::DataHeader(visit), Event::Text(h)) => if visit {
                r matches RenderStep::Next(RenderPhase::DataViews(h2), Action::IncViews { key: k }) && h2@ == h@ && k@ == key
            } else {
                r matches RenderStep::Next(RenderPhase::DataEntry(h2), Action::GetDataEntry { key: k, lang: l })
                    && h2@ == h@ && k@ == key && l == lang
            },
            (RenderPhase::DataViews(h), Event::Done) => r matches RenderStep::Next(
                RenderPhase::DataEntry(h2),
                Action::GetDataEntry { key: k, lang: l },
            ) && h2@ == h@ && k@ == key && l == lang,
            (RenderPhase::DataEntry(h), Event::Entry(e)) => if component_count(key) == 0 {
                r == RenderStep::Fail(FlowError::EmptyKey)
            } else {
                r matches RenderStep::Ready(text, kb) && text@ == rendered(h@, e, lang) && kb@ == data_rows(key, e.likes, lang)
            },
            _ => r == RenderStep::Fail(FlowError::UnexpectedEvent),
        },
    }
}

/// Renders the grid node at `key` step by step: a menu is its header and its
/// children; a data entry is its header, a counted view (when visited) and
/// the entry itself.
pub fn render_step(key: &str, lang: Lang, phase: RenderPhase, event: Event) -> (r: RenderStep)
    ensures
        render_step_spec(key@, lang, phase, event, r),
{
    if let Event::Failed = event {
        return RenderStep::Fail(FlowError::ActionFailed);
    }
    match (phase, event) {
        (RenderPhase::MenuHeader, Event::Text(h)) => RenderStep::Next(
            RenderPhase::MenuNext(h),
            Action::GetNextButtons { key: key.to_owned(), lang },
        ),
        (RenderPhase::MenuNext(h), Event::Entries(next)) => {
            if !children_ascending(&next) {
                return RenderStep::Fail(FlowError::UnorderedChildren);
            }
            let (text, keyboard) = render_menu(key, h.as_str(), &next, lang);
            RenderStep::Ready(text, keyboard)
        },
        (RenderPhase::DataHeader(visit), Event::Text(h)) => {
            if visit {
                RenderStep::Next(RenderPhase::DataViews(h), Action::IncViews { key: key.to_owned() })
            } else {
                RenderStep::Next(RenderPhase::DataEntry(h), Action::GetDataEntry { key: key.to_owned(), lang })
            }
        },
        (RenderPhase::DataViews(h), Event::Done) => RenderStep::Next(
            RenderPhase::DataEntry(h),
            Action::GetDataEntry { key: key.to_owned(), lang },
        ),
        (RenderPhase::DataEntry(h), Event::Entry(e)) => {
            if components_count(key) == 0 {
                return RenderStep::Fail(FlowError::EmptyKey);
            }
            match render_data(key, h.as_str(), e, lang) {
                Ok((text, keyboard)) => RenderStep::Ready(text, keyboard),
                Err(RenderError::Template) => RenderStep::Fail(FlowError::Render),
            }
        },
        _ => RenderStep::Fail(FlowError::UnexpectedEvent),
    }
}

} // verus!
