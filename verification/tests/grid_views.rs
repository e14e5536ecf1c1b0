use help_desk_bot::callback::{data, Command};
use help_desk_bot::greeting;
use help_desk_bot::flow::{render_step, Event, FlowError, RenderPhase, RenderStep};
use help_desk_bot::grid::{children_ascending, format_segment, goto, init, next_buttons, render_data, render_menu, GridNode};
use help_desk_bot::keyboard::{add_feedback_button, Button, Keyboard, Navigation};
use help_desk_bot::l10n::Lang;
use help_desk_bot::template::{render, DataEntry, Context};

fn b(text: &str, callback_data: String) -> Button {
    Button { text: text.to_string(), callback_data }
}

fn feedback_button() -> Button {
    b("[ Оставить отзыв ]", "/feedback".to_string())
}

fn entry() -> DataEntry {
    DataEntry { text: "Body".to_string(), created: "2021-10-01".to_string(), views: 7, likes: 3 }
}

#[test]
fn navigation_without_likes() {
    let rows = Navigation::new("/a/b".to_string(), "/a".to_string(), None).render();
    assert_eq!(rows, vec![vec![b("<<", data(Command::Goto, "/")), b("<", data(Command::Goto, "/a"))]]);
}

#[test]
fn navigation_with_likes() {
    let rows = Navigation::new("/a/b".to_string(), "/a".to_string(), Some(12)).render();
    assert_eq!(
        rows,
        vec![vec![
            b("👍 12", data(Command::Like, "/a/b")),
            b("<<", data(Command::Goto, "/")),
            b("<", data(Command::Goto, "/a")),
        ]]
    );
}

#[test]
fn feedback_button_goes_last() {
    let mut k = Keyboard { rows: vec![vec![b("x", "y".to_string())]] };
    add_feedback_button(&mut k, Lang::Ru);
    assert_eq!(k.rows, vec![vec![b("x", "y".to_string())], vec![feedback_button()]]);
}

#[test]
fn menu_buttons_in_store_order() {
    let next = vec![("/a".to_string(), "A".to_string()), ("/b".to_string(), "B".to_string())];
    assert_eq!(
        next_buttons(&next),
        vec![vec![b("A", data(Command::Goto, "/a"))], vec![b("B", data(Command::Goto, "/b"))]]
    );
}

#[test]
fn root_menu_has_no_navigation() {
    let next = vec![("/a".to_string(), "A".to_string())];
    let (text, k) = render_menu("/", "Root", &next, Lang::Ru);
    assert_eq!(text, "*Root*");
    assert_eq!(k.rows, vec![vec![b("A", data(Command::Goto, "/a"))], vec![feedback_button()]]);
}

#[test]
fn inner_menu_has_navigation() {
    let next = vec![("/a/x".to_string(), "X".to_string())];
    let (text, k) = render_menu("/a", "Menu A", &next, Lang::Ru);
    assert_eq!(text, "*Menu A*");
    assert_eq!(
        k.rows,
        vec![
            vec![b("X", data(Command::Goto, "/a/x"))],
            vec![b("<<", data(Command::Goto, "/")), b("<", data(Command::Goto, "/"))],
            vec![feedback_button()],
        ]
    );
}

#[test]
fn init_shows_root() {
    let next = vec![("/a".to_string(), "A".to_string())];
    let (text, k) = init("Root", &next, Lang::Ru);
    assert_eq!(text, "*Root*");
    assert_eq!(k.rows, vec![vec![b("A", data(Command::Goto, "/a"))], vec![feedback_button()]]);
}

#[test]
fn data_entry_template() {
    let text = render(&Context { header: "Head".to_string(), data_entry: entry() }, Lang::Ru).unwrap();
    assert_eq!(text, "\n*Head*\n\nBody\n\n*_Опубликовано: 2021-10-01_*\n*_Просмотрено: 7_*\n");
}

#[test]
fn data_entry_view() {
    let (text, k) = render_data("/a/b", "Head", entry(), Lang::Ru).unwrap();
    assert_eq!(text, "\n*Head*\n\nBody\n\n*_Опубликовано: 2021-10-01_*\n*_Просмотрено: 7_*\n");
    assert_eq!(
        k.rows,
        vec![
            vec![
                b("👍 3", data(Command::Like, "/a/b")),
                b("<<", data(Command::Goto, "/")),
                b("<", data(Command::Goto, "/a")),
            ],
            vec![feedback_button()],
        ]
    );
}

#[test]
fn template_error_is_reported() {
    let bad = DataEntry { text: "{{ broken".to_string(), ..entry() };
    // A value is inserted as text, not parsed as a template.
    assert!(render(&Context { header: "H".to_string(), data_entry: bad }, Lang::Ru).is_ok());
}

#[test]
fn first_grid_version_menu() {
    let next = vec![("/a/x".to_string(), "X".to_string())];
    let (text, k) = goto("/a", "Menu A", GridNode::Menu(next)).unwrap();
    assert_eq!(text, "Menu A");
    assert_eq!(
        k.rows,
        vec![vec![b("X", data(Command::Goto, "/a/x"))], vec![b("<<", data(Command::Goto, "/")), b("<", data(Command::Goto, "/"))]]
    );
}

#[test]
fn first_grid_version_data_at_root() {
    let (text, k) = goto("/", "Head", GridNode::Data(entry())).unwrap();
    assert_eq!(text, "\n*Head*\n\nBody\n\n*_Опубликовано: 2021-10-01_*\n*_Просмотрено: 7_*\n");
    assert!(k.rows.is_empty());
}

#[test]
fn greeting_opens_root() {
    assert_eq!(greeting::render(Lang::Ru).rows, vec![vec![b("Старт", data(Command::Goto, "/"))]]);
}

#[test]
fn segment_with_and_without_icon() {
    assert_eq!(format_segment("Docs", Some("📄")), "📄 Docs");
    assert_eq!(format_segment("Docs", None), "Docs");
}

fn pairs(keys: &[&str]) -> Vec<(String, String)> {
    keys.iter().map(|k| (k.to_string(), k.to_uppercase())).collect()
}

#[test]
fn children_keys_must_ascend() {
    assert!(children_ascending(&pairs(&[])));
    assert!(children_ascending(&pairs(&["/a"])));
    assert!(children_ascending(&pairs(&["/a", "/a/x", "/b"])));
    // Code points order: a Cyrillic letter comes after every ASCII one.
    assert!(children_ascending(&pairs(&["/z", "/а"])));
    assert!(!children_ascending(&pairs(&["/b", "/a"])));
    assert!(!children_ascending(&pairs(&["/a", "/a"])));
    assert!(!children_ascending(&pairs(&["/a", "/c", "/b"])));
}

#[test]
fn unordered_children_are_refused() {
    let r = render_step("/", Lang::Ru, RenderPhase::MenuNext("Root".to_string()), Event::Entries(pairs(&["/b", "/a"])));
    assert_eq!(r, RenderStep::Fail(FlowError::UnorderedChildren));
    let r = render_step("/", Lang::Ru, RenderPhase::MenuNext("Root".to_string()), Event::Entries(pairs(&["/a", "/b"])));
    let (text, k) = render_menu("/", "Root", &pairs(&["/a", "/b"]), Lang::Ru);
    assert_eq!(r, RenderStep::Ready(text, k));
}
