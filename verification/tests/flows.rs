use help_desk_bot::callback::{data, Command};
use help_desk_bot::callback_flow::{callback_step, CallbackContext, CallbackState};
use help_desk_bot::config::TimeSpan;
use help_desk_bot::feedback::Feedback;
use help_desk_bot::flow::{Action, Event, FlowError, Task};
use help_desk_bot::hash::hash;
use help_desk_bot::l10n::{feedback_ack, feedback_prelude, Lang};
use help_desk_bot::message_flow::{message_step, task_step, MessageContext, MessageState, TaskContext, TaskState};
use help_desk_bot::template::DataEntry;

const USER: i64 = 42;
const MSG: i32 = 100;

fn ctx(data: Option<&str>, message: Option<i32>) -> CallbackContext {
    CallbackContext {
        user: USER,
        message,
        data: data.map(|d| d.to_string()),
        lang: Lang::Ru,
        feedback_timeout: TimeSpan { secs: 120, nanos: 0 },
    }
}

/// Runs a callback handling, answering each action with the next outcome,
/// and returns the actions asked for.
fn run_callback(c: &CallbackContext, outcomes: Vec<Event>) -> Vec<Action> {
    let mut state = CallbackState::Start;
    let mut actions = Vec::new();
    for ev in std::iter::once(Event::Start).chain(outcomes) {
        let (s, a) = callback_step(c, state, ev);
        state = s;
        actions.push(a);
    }
    actions
}

fn entry() -> DataEntry {
    DataEntry { text: "Body".to_string(), created: "2021".to_string(), views: 1, likes: 2 }
}

fn no_pending() -> Event {
    Event::Id(None)
}

#[test]
fn callback_without_data_only_cancels_feedback() {
    let actions = run_callback(&ctx(None, Some(MSG)), vec![no_pending()]);
    assert_eq!(actions, vec![Action::CancelFeedback { user: USER }, Action::Finish { error: None }]);
}

#[test]
fn callback_deletes_stale_feedback_prompt() {
    let actions = run_callback(&ctx(Some("/unknown"), Some(MSG)), vec![Event::Id(Some(7)), Event::Done, Event::Done]);
    assert_eq!(
        actions,
        vec![
            Action::CancelFeedback { user: USER },
            Action::DeleteMessage { chat: USER, message: 7 },
            Action::AnswerQuery { notice: None },
            Action::Finish { error: None },
        ]
    );
}

#[test]
fn goto_menu_edits_message() {
    let d = data(Command::Goto, "/a");
    let next = vec![("/a/x".to_string(), "X".to_string())];
    let actions = run_callback(
        &ctx(Some(&d), Some(MSG)),
        vec![
            no_pending(),
            Event::Text("/a".to_string()),
            Event::Flag(false),
            Event::Text("Menu".to_string()),
            Event::Entries(next.clone()),
            Event::Done,
            Event::Done,
        ],
    );
    assert_eq!(actions[1], Action::GetKey { hash: hash("/a") });
    assert_eq!(actions[2], Action::IsDataEntry { key: "/a".to_string() });
    assert_eq!(actions[3], Action::GetGridHeader { key: "/a".to_string(), lang: Lang::Ru });
    assert_eq!(actions[4], Action::GetNextButtons { key: "/a".to_string(), lang: Lang::Ru });
    let (text, kb) = help_desk_bot::grid::render_menu("/a", "Menu", &next, Lang::Ru);
    assert_eq!(actions[5], Action::EditMessage { chat: USER, message: MSG, text, keyboard: kb, no_preview: false });
    assert_eq!(actions[6], Action::AnswerQuery { notice: None });
    assert_eq!(actions[7], Action::Finish { error: None });
}

#[test]
fn goto_data_sends_new_message_even_if_delete_fails() {
    let d = data(Command::Goto, "/a/b");
    let actions = run_callback(
        &ctx(Some(&d), Some(MSG)),
        vec![
            no_pending(),
            Event::Text("/a/b".to_string()),
            Event::Flag(true),
            Event::Failed,
            Event::Text("Head".to_string()),
            Event::Done,
            Event::Entry(entry()),
            Event::Sent(101),
            Event::Done,
        ],
    );
    assert_eq!(actions[3], Action::DeleteMessage { chat: USER, message: MSG });
    assert_eq!(actions[4], Action::GetGridHeader { key: "/a/b".to_string(), lang: Lang::Ru });
    assert_eq!(actions[5], Action::IncViews { key: "/a/b".to_string() });
    assert_eq!(actions[6], Action::GetDataEntry { key: "/a/b".to_string(), lang: Lang::Ru });
    let (text, kb) = help_desk_bot::grid::render_data("/a/b", "Head", entry(), Lang::Ru).unwrap();
    assert_eq!(actions[7], Action::SendMessage { chat: USER, text, markup: Some(kb), no_preview: true, silent: true });
    assert_eq!(actions[8], Action::AnswerQuery { notice: None });
    assert_eq!(actions[9], Action::Finish { error: None });
}

#[test]
fn like_toggles_and_announces() {
    let d = data(Command::Like, "/a/b");
    for liked in [true, false] {
        let actions = run_callback(
            &ctx(Some(&d), Some(MSG)),
            vec![
                no_pending(),
                Event::Text("/a/b".to_string()),
                Event::Flag(liked),
                Event::Text("Head".to_string()),
                Event::Entry(entry()),
                Event::Done,
                Event::Done,
            ],
        );
        assert_eq!(actions[2], Action::ToggleLike { key: "/a/b".to_string(), user: USER });
        assert_eq!(actions[3], Action::GetGridHeader { key: "/a/b".to_string(), lang: Lang::Ru });
        assert_eq!(actions[4], Action::GetDataEntry { key: "/a/b".to_string(), lang: Lang::Ru });
        let (text, kb) = help_desk_bot::grid::render_data("/a/b", "Head", entry(), Lang::Ru).unwrap();
        assert_eq!(actions[5], Action::EditMessage { chat: USER, message: MSG, text, keyboard: kb, no_preview: true });
        let notice = if liked { "👍" } else { "👎" };
        assert_eq!(actions[6], Action::AnswerQuery { notice: Some(notice.to_string()) });
        assert_eq!(actions[7], Action::Finish { error: None });
    }
}

#[test]
fn goto_without_message_fails() {
    let d = data(Command::Goto, "/a");
    let actions = run_callback(&ctx(Some(&d), None), vec![no_pending()]);
    assert_eq!(actions[1], Action::Finish { error: Some(FlowError::NoMessage) });
}

#[test]
fn feedback_request_starts_feedback() {
    let actions = run_callback(
        &ctx(Some("/feedback"), Some(MSG)),
        vec![no_pending(), Event::Flag(false), Event::Done, Event::Sent(55), Event::Flag(true), Event::Done],
    );
    assert_eq!(
        actions,
        vec![
            Action::CancelFeedback { user: USER },
            Action::IsFeedbackActive { user: USER },
            Action::Spawn { task: Task::Cancel { user: USER, after: TimeSpan { secs: 120, nanos: 0 } } },
            Action::SendMessage {
                chat: USER,
                text: feedback_prelude(Lang::Ru).to_string(),
                markup: None,
                no_preview: false,
                silent: false,
            },
            Action::BeginFeedback { user: USER, message: 55 },
            Action::AnswerQuery { notice: None },
            Action::Finish { error: None },
        ]
    );
}

#[test]
fn refused_feedback_prompt_is_deleted() {
    let actions = run_callback(
        &ctx(Some("/feedback"), Some(MSG)),
        vec![no_pending(), Event::Flag(false), Event::Done, Event::Sent(55), Event::Flag(false), Event::Done, Event::Done],
    );
    assert_eq!(actions[5], Action::DeleteMessage { chat: USER, message: 55 });
    assert_eq!(actions[6], Action::AnswerQuery { notice: None });
    assert_eq!(actions[7], Action::Finish { error: None });
}

#[test]
fn active_feedback_is_only_answered() {
    let actions = run_callback(&ctx(Some("/feedback"), Some(MSG)), vec![no_pending(), Event::Flag(true), Event::Done]);
    assert_eq!(actions[2], Action::AnswerQuery { notice: None });
    assert_eq!(actions[3], Action::Finish { error: None });
}

#[test]
fn failed_action_stops_callback() {
    let d = data(Command::Goto, "/a");
    let actions = run_callback(&ctx(Some(&d), Some(MSG)), vec![no_pending(), Event::Failed]);
    assert_eq!(actions[2], Action::Finish { error: Some(FlowError::ActionFailed) });
    let actions = run_callback(&ctx(None, Some(MSG)), vec![Event::Done]);
    assert_eq!(actions[1], Action::Finish { error: Some(FlowError::UnexpectedEvent) });
}

#[test]
fn empty_key_cannot_be_a_data_entry() {
    let d = data(Command::Like, "");
    let actions = run_callback(
        &ctx(Some(&d), Some(MSG)),
        vec![no_pending(), Event::Text(String::new()), Event::Flag(true), Event::Text("H".to_string()), Event::Entry(entry())],
    );
    assert_eq!(actions[5], Action::Finish { error: Some(FlowError::EmptyKey) });
}

fn mctx(user: Option<i64>, text: Option<&str>) -> MessageContext {
    MessageContext {
        user,
        text: text.map(|t| t.to_string()),
        message: MSG,
        username: Some("bob".to_string()),
        lang: Lang::Ru,
    }
}

fn run_message(c: &MessageContext, outcomes: Vec<Event>) -> Vec<Action> {
    let mut state = MessageState::Start;
    let mut actions = Vec::new();
    for ev in std::iter::once(Event::Start).chain(outcomes) {
        let (s, a) = message_step(c, state, ev);
        state = s;
        actions.push(a);
    }
    actions
}

#[test]
fn start_command_sends_root_menu() {
    let next = vec![("/a".to_string(), "A".to_string())];
    let actions = run_message(
        &mctx(Some(USER), Some("/start")),
        vec![Event::Text("Root".to_string()), Event::Entries(next.clone()), Event::Sent(9)],
    );
    assert_eq!(actions[0], Action::GetGridHeader { key: "/".to_string(), lang: Lang::Ru });
    assert_eq!(actions[1], Action::GetNextButtons { key: "/".to_string(), lang: Lang::Ru });
    let (text, kb) = help_desk_bot::grid::render_menu("/", "Root", &next, Lang::Ru);
    assert_eq!(actions[2], Action::SendMessage { chat: USER, text, markup: Some(kb), no_preview: true, silent: false });
    assert_eq!(actions[3], Action::Finish { error: None });
}

#[test]
fn feedback_text_is_cleaned_up_and_acknowledged() {
    let actions =
        run_message(&mctx(Some(USER), Some("great")), vec![Event::Id(Some(55)), Event::Done, Event::Done, Event::Done]);
    assert_eq!(
        actions,
        vec![
            Action::GetPendingFeedback { user: USER },
            Action::PublishFeedback { feedback: Feedback::new("bob".to_string(), "great".to_string()) },
            Action::Spawn { task: Task::Cleanup { user: USER, request: 55, response: MSG } },
            Action::Spawn { task: Task::Ack { user: USER } },
            Action::Finish { error: None },
        ]
    );
}

#[test]
fn feedback_without_username_is_published_unnamed() {
    let mut c = mctx(Some(USER), Some("great"));
    c.username = None;
    let actions = run_message(&c, vec![Event::Id(Some(55))]);
    assert_eq!(actions[1], Action::PublishFeedback { feedback: Feedback::new(String::new(), "great".to_string()) });
}

#[test]
fn unexpected_text_is_deleted() {
    let actions = run_message(&mctx(Some(USER), Some("hello")), vec![Event::Id(None), Event::Done]);
    assert_eq!(actions[1], Action::DeleteMessage { chat: USER, message: MSG });
    assert_eq!(actions[2], Action::Finish { error: None });
}

#[test]
fn message_without_text_is_ignored() {
    assert_eq!(run_message(&mctx(Some(USER), None), vec![]), vec![Action::Finish { error: None }]);
    assert_eq!(run_message(&mctx(None, Some("/start")), vec![]), vec![Action::Finish { error: None }]);
}

fn run_task(task: Task, outcomes: Vec<Event>) -> Vec<Action> {
    let c = TaskContext { task, lang: Lang::Ru, ack_ttl: TimeSpan { secs: 5, nanos: 0 } };
    let mut state = TaskState::Start;
    let mut actions = Vec::new();
    for ev in std::iter::once(Event::Start).chain(outcomes) {
        let (s, a) = task_step(&c, state, ev);
        state = s;
        actions.push(a);
    }
    actions
}

#[test]
fn cancel_task_waits_then_cancels() {
    let after = TimeSpan { secs: 120, nanos: 0 };
    let actions = run_task(Task::Cancel { user: USER, after }, vec![Event::Done, Event::Id(Some(55)), Event::Done]);
    assert_eq!(
        actions,
        vec![
            Action::Sleep { span: after },
            Action::CancelFeedback { user: USER },
            Action::DeleteMessage { chat: USER, message: 55 },
            Action::Finish { error: None },
        ]
    );
    let actions = run_task(Task::Cancel { user: USER, after }, vec![Event::Done, Event::Id(None)]);
    assert_eq!(actions[2], Action::Finish { error: None });
}

#[test]
fn cleanup_task() {
    let actions = run_task(Task::Cleanup { user: USER, request: 55, response: 56 }, vec![Event::Done, Event::Done, Event::Flag(true)]);
    assert_eq!(
        actions,
        vec![
            Action::DeleteMessage { chat: USER, message: 55 },
            Action::DeleteMessage { chat: USER, message: 56 },
            Action::EndFeedback { user: USER },
            Action::Finish { error: None },
        ]
    );
}

#[test]
fn cleanup_task_sends_both_deletes_when_one_fails() {
    // The prompt could not be deleted: the feedback message is still deleted,
    // and the pending feedback is kept.
    let actions = run_task(Task::Cleanup { user: USER, request: 55, response: 56 }, vec![Event::Failed, Event::Done]);
    assert_eq!(
        actions,
        vec![
            Action::DeleteMessage { chat: USER, message: 55 },
            Action::DeleteMessage { chat: USER, message: 56 },
            Action::Finish { error: Some(FlowError::ActionFailed) },
        ]
    );
    // The feedback message could not be deleted.
    let actions = run_task(Task::Cleanup { user: USER, request: 55, response: 56 }, vec![Event::Done, Event::Failed]);
    assert_eq!(
        actions,
        vec![
            Action::DeleteMessage { chat: USER, message: 55 },
            Action::DeleteMessage { chat: USER, message: 56 },
            Action::Finish { error: Some(FlowError::ActionFailed) },
        ]
    );
}

#[test]
fn ack_task() {
    let actions = run_task(Task::Ack { user: USER }, vec![Event::Sent(77), Event::Done, Event::Done]);
    assert_eq!(
        actions,
        vec![
            Action::SendMessage {
                chat: USER,
                text: feedback_ack(Lang::Ru).to_string(),
                markup: None,
                no_preview: false,
                silent: false,
            },
            Action::Sleep { span: TimeSpan { secs: 5, nanos: 0 } },
            Action::DeleteMessage { chat: USER, message: 77 },
            Action::Finish { error: None },
        ]
    );
    let actions = run_task(Task::Ack { user: USER }, vec![Event::Failed]);
    assert_eq!(actions[1], Action::Finish { error: Some(FlowError::ActionFailed) });
}

#[test]
fn handlings_always_finish() {
    let outcomes = [
        Event::Done,
        Event::Flag(false),
        Event::Id(Some(3)),
        Event::Text("/a".to_string()),
        Event::Sent(4),
        Event::Flag(true),
        Event::Entries(vec![]),
        Event::Entry(entry()),
        Event::Id(None),
    ];
    for data_value in [None, Some("/feedback"), Some("/goto#x"), Some("/like#x"), Some("x")] {
        for shift in 0..outcomes.len() {
            let c = ctx(data_value, Some(MSG));
            let mut state = CallbackState::Start;
            let mut ev = Event::Start;
            let mut steps = 0;
            loop {
                let (s, a) = callback_step(&c, state, ev);
                steps += 1;
                assert!(steps <= 26);
                if let Action::Finish { .. } = a {
                    break;
                }
                state = s;
                ev = outcomes[(shift + steps) % outcomes.len()].clone();
            }
        }
    }
}
