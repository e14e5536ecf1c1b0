use help_desk_bot::callback::{data, Command};
use help_desk_bot::flow::{Action, Event, FlowError};
use help_desk_bot::grid::{goto, init, GridNode};
use help_desk_bot::hash::hash;
use help_desk_bot::l10n::Lang;
use help_desk_bot::legacy_flow::{
    legacy_callback_step, legacy_message_step, LegacyCallbackContext, LegacyCallbackState, LegacyMessageState,
};
use help_desk_bot::message_flow::MessageContext;
use help_desk_bot::template::DataEntry;

const USER: i64 = 42;
const MSG: i32 = 100;

fn run(c: &LegacyCallbackContext, outcomes: Vec<Event>) -> Vec<Action> {
    let mut state = LegacyCallbackState::Start;
    let mut actions = Vec::new();
    for ev in std::iter::once(Event::Start).chain(outcomes) {
        let (s, a) = legacy_callback_step(c, state, ev);
        state = s;
        actions.push(a);
    }
    actions
}

fn lctx(user: i64, data: Option<&str>, message: Option<i32>) -> LegacyCallbackContext {
    LegacyCallbackContext { user, message, data: data.map(|d| d.to_string()) }
}

fn entry() -> DataEntry {
    DataEntry { text: "Body".to_string(), created: "2021".to_string(), views: 1, likes: 2 }
}

#[test]
fn legacy_goto_menu() {
    let d = data(Command::Goto, "/a");
    let next = vec![("/a/x".to_string(), "X".to_string())];
    let actions = run(
        &lctx(USER, Some(&d), Some(MSG)),
        vec![
            Event::Text("/a".to_string()),
            Event::Text("Menu".to_string()),
            Event::Flag(false),
            Event::Entries(next.clone()),
            Event::Done,
            Event::Done,
        ],
    );
    assert_eq!(actions[0], Action::GetKey { hash: hash("/a") });
    assert_eq!(actions[1], Action::GetGridHeader { key: "/a".to_string(), lang: Lang::Ru });
    assert_eq!(actions[2], Action::IsDataEntry { key: "/a".to_string() });
    assert_eq!(actions[3], Action::GetNextButtons { key: "/a".to_string(), lang: Lang::Ru });
    let (text, keyboard) = goto("/a", "Menu", GridNode::Menu(next)).unwrap();
    assert_eq!(actions[4], Action::EditMessage { chat: USER, message: MSG, text, keyboard, no_preview: true });
    assert_eq!(actions[5], Action::AnswerQuery { notice: None });
    assert_eq!(actions[6], Action::Finish { error: None });
}

#[test]
fn legacy_like_data_entry() {
    let d = data(Command::Like, "/a/b");
    let actions = run(
        &lctx(USER, Some(&d), Some(MSG)),
        vec![
            Event::Text("/a/b".to_string()),
            Event::Flag(true),
            Event::Text("Head".to_string()),
            Event::Flag(true),
            Event::Done,
            Event::Entry(entry()),
            Event::Done,
            Event::Done,
        ],
    );
    assert_eq!(actions[1], Action::ToggleLike { key: "/a/b".to_string(), user: USER });
    assert_eq!(actions[4], Action::IncViews { key: "/a/b".to_string() });
    assert_eq!(actions[5], Action::GetDataEntry { key: "/a/b".to_string(), lang: Lang::Ru });
    let (text, keyboard) = goto("/a/b", "Head", GridNode::Data(entry())).unwrap();
    assert_eq!(actions[6], Action::EditMessage { chat: USER, message: MSG, text, keyboard, no_preview: true });
    assert_eq!(actions[7], Action::AnswerQuery { notice: Some("👍".to_string()) });
    assert_eq!(actions[8], Action::Finish { error: None });
}

#[test]
fn legacy_ignores_incomplete_queries() {
    assert_eq!(run(&lctx(USER, None, Some(MSG)), vec![]), vec![Action::Finish { error: None }]);
    assert_eq!(run(&lctx(USER, Some("/feedback"), None), vec![]), vec![Action::Finish { error: None }]);
}

#[test]
fn legacy_answers_unknown_data() {
    let actions = run(&lctx(USER, Some("/feedback"), Some(MSG)), vec![Event::Done]);
    assert_eq!(actions, vec![Action::AnswerQuery { notice: None }, Action::Finish { error: None }]);
}

#[test]
fn legacy_refuses_negative_user_ids() {
    let d = data(Command::Goto, "/");
    assert_eq!(run(&lctx(-1, Some(&d), Some(MSG)), vec![]), vec![Action::Finish { error: Some(FlowError::InvalidUser) }]);
}

fn run_message(c: &MessageContext, outcomes: Vec<Event>) -> Vec<Action> {
    let mut state = LegacyMessageState::Start;
    let mut actions = Vec::new();
    for ev in std::iter::once(Event::Start).chain(outcomes) {
        let (s, a) = legacy_message_step(c, state, ev);
        state = s;
        actions.push(a);
    }
    actions
}

#[test]
fn legacy_start_sends_root() {
    let c = MessageContext { user: Some(USER), text: Some("/start".to_string()), message: MSG, username: None, lang: Lang::Ru };
    let next = vec![("/a".to_string(), "A".to_string())];
    let actions = run_message(&c, vec![Event::Text("Root".to_string()), Event::Entries(next.clone()), Event::Sent(1)]);
    assert_eq!(actions[0], Action::GetGridHeader { key: "/".to_string(), lang: Lang::Ru });
    assert_eq!(actions[1], Action::GetNextButtons { key: "/".to_string(), lang: Lang::Ru });
    let (text, kb) = init("Root", &next, Lang::Ru);
    assert_eq!(actions[2], Action::SendMessage { chat: USER, text, markup: Some(kb), no_preview: true, silent: false });
    assert_eq!(actions[3], Action::Finish { error: None });
}

#[test]
fn legacy_other_text_is_deleted() {
    let c = MessageContext { user: Some(USER), text: Some("hi".to_string()), message: MSG, username: None, lang: Lang::Ru };
    let actions = run_message(&c, vec![Event::Done]);
    assert_eq!(actions, vec![Action::DeleteMessage { chat: USER, message: MSG }, Action::Finish { error: None }]);
}

#[test]
fn legacy_start_refuses_unordered_children() {
    let c = MessageContext { user: Some(USER), text: Some("/start".to_string()), message: MSG, username: None, lang: Lang::Ru };
    let next = vec![("/b".to_string(), "B".to_string()), ("/a".to_string(), "A".to_string())];
    let actions = run_message(&c, vec![Event::Text("Root".to_string()), Event::Entries(next)]);
    assert_eq!(actions[2], Action::Finish { error: Some(FlowError::UnorderedChildren) });
}
