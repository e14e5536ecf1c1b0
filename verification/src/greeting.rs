//! The greeting shown to a user.
use vstd::prelude::*;

use crate::callback::{Command, callback_data, data};
use crate::keyboard::{Button, Keyboard, button, root_key, rows_view};
use crate::l10n::{Lang, begin, begin_label};

verus! {

/// The keyboard of the greeting: one button that opens the grid's root.
pub fn render(lang: Lang) -> (k: Keyboard)
    ensures
        k@ == seq![seq![(begin_label(lang), callback_data(Command::Goto, root_key()))]],
{
    proof {
        reveal_strlit("/");
        assert("/"@ =~= root_key());
    }
    let b = button(begin(lang).to_owned(), data(Command::Goto, "/"));
    let mut row: Vec<Button> = Vec::new();
    row.push(b);
    let mut rows: Vec<Vec<Button>> = Vec::new();
    rows.push(row);
    assert(rows_view(rows@) =~= seq![seq![(begin_label(lang), callback_data(Command::Goto, root_key()))]]) by {
        assert(row@.map_values(|b: Button| b@) =~= seq![(begin_label(lang), callback_data(Command::Goto, root_key()))]);
    }
    Keyboard { rows }
}

} // verus!
