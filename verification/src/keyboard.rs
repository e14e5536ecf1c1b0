use vstd::prelude::*;

use crate::callback::{Command, callback_data, data, feedback_data, feedback_data_string};
use crate::decimal::{decimal, to_decimal};
use crate::l10n::{Lang, feedback, feedback_label};
use crate::text::concat;

verus! {

/// An inline keyboard button: a label and the callback data it sends.
#[derive(Debug, Clone, PartialEq, Eq)]
pub struct Button {
    pub text: String,
    pub callback_data: String,
}

/// A button as (label, callback data).
pub type ButtonView = (Seq<char>, Seq<char>);

impl View for Button {
    type V = ButtonView;

    open spec fn view(&self) -> ButtonView {
        (self.text@, self.callback_data@)
    }
}

/// The rows of buttons of a keyboard, each button as (label, callback data).
pub open spec fn rows_view(rows: Seq<Vec<Button>>) -> Seq<Seq<ButtonView>> {
    rows.map_values(|r: Vec<Button>| r@.map_values(|b: Button| b@))
}

/// An inline keyboard: rows of buttons, top to bottom.
#[derive(Debug, Clone, PartialEq, Eq)]
pub struct Keyboard {
    pub rows: Vec<Vec<Button>>,
}

impl View for Keyboard {
    type V = Seq<Seq<ButtonView>>;

    open spec fn view(&self) -> Seq<Seq<ButtonView>> {
        rows_view(self.rows@)
    }
}

/// The row that holds the feedback button alone.
pub open spec fn feedback_row(lang: Lang) -> Seq<ButtonView> {
    seq![(feedback_label(lang), feedback_data())]
}

/// The label of the "back to the root" button.
pub open spec fn root_label() -> Seq<char> {
    seq!['<', '<']
}

/// The label of the "one level up" button.
pub open spec fn up_label() -> Seq<char> {
    seq!['<']
}

/// The label of a like button that shows a number of likes.
pub open spec fn likes_label(likes: nat) -> Seq<char> {
    "👍 "@ + decimal(likes)
}

/// The key of the grid's root.
pub open spec fn root_key() -> Seq<char> {
    seq!['/']
}

/// The navigation row below a grid node `cur` whose parent is `prev`: a like
/// button (when the node has a like count) first, then "<<" to the root and
/// "<" to the parent.
pub open spec fn navigation_row(cur: Seq<char>, prev: Seq<char>, likes: Option<u64>) -> Seq<ButtonView> {
    let back = seq![
        (root_label(), callback_data(Command::Goto, root_key())),
        (up_label(), callback_data(Command::Goto, prev)),
    ];
    match likes {
        Some(l) => seq![(likes_label(l as nat), callback_data(Command::Like, cur))] + back,
        None => back,
    }
}

/// A button with the given label and callback data.
pub fn button(text: String, callback_data: String) -> (b: Button)
    ensures
        b@ == (text@, callback_data@),
{
    Button { text, callback_data }
}

/// Appends a row with the feedback button to a keyboard.
pub fn add_feedback_button(markup: &mut Keyboard, lang: Lang)
    ensures
        final(markup)@ == old(markup)@.push(feedback_row(lang)),
{
    let b = button(feedback(lang).to_owned(), feedback_data_string());
    let mut row: Vec<Button> = Vec::new();
    row.push(b);
    let ghost old_rows = markup.rows@;
    markup.rows.push(row);
    assert(markup.rows@ == old_rows.push(row));
    assert(rows_view(markup.rows@) =~= rows_view(old_rows).push(feedback_row(lang))) by {
        assert(row@.map_values(|b: Button| b@) =~= feedback_row(lang));
    }
}

/// The navigation below a grid node.
#[derive(Debug, Clone)]
pub struct Navigation {
    cur: String,
    prev: String,
    likes: Option<u64>,
}

impl Navigation {
    pub closed spec fn spec_cur(&self) -> Seq<char> {
        self.cur@
    }

    pub closed spec fn spec_prev(&self) -> Seq<char> {
        self.prev@
    }

    pub closed spec fn spec_likes(&self) -> Option<u64> {
        self.likes
    }

    /// The navigation below the node `cur`, whose parent is `prev`, with the
    /// node's like count when it has one.
    pub fn new(cur: String, prev: String, likes: Option<u64>) -> (n: Navigation)
        ensures
            n.spec_cur() == cur@,
            n.spec_prev() == prev@,
            n.spec_likes() == likes,
    {
        Navigation { cur, prev, likes }
    }

    /// One row: a like button showing the like count (when there is one),
    /// "<<" to the root, "<" to the parent.
    pub fn render(&self) -> (rows: Vec<Vec<Button>>)
        ensures
            rows_view(rows@) == seq![navigation_row(self.spec_cur(), self.spec_prev(), self.spec_likes())],
    {
        proof {
            reveal_strlit("<<");
            reveal_strlit("<");
            reveal_strlit("/");
            assert("<<"@ =~= root_label());
            assert("<"@ =~= up_label());
            assert("/"@ =~= root_key());
        }
        let mut row: Vec<Button> = Vec::new();
        if let Some(likes) = self.likes {
            let label = concat("👍 ", to_decimal(likes).as_str());
            row.push(button(label, data(Command::Like, self.cur.as_str())));
        }
        row.push(button("<<".to_owned(), data(Command::Goto, "/")));
        row.push(button("<".to_owned(), data(Command::Goto, self.prev.as_str())));
        let mut rows: Vec<Vec<Button>> = Vec::new();
        rows.push(row);
        assert(row@.map_values(|b: Button| b@) =~= navigation_row(self.cur@, self.prev@, self.likes));
        assert(rows_view(rows@) =~= seq![navigation_row(self.cur@, self.prev@, self.likes)]);
        rows
    }
}

} // verus!
