//! How grid nodes (menus and data entries) are shown: their text and keyboard.
use vstd::prelude::*;

use crate::callback::{Command, callback_data, data};
use crate::keyboard::{
    Button, ButtonView, Keyboard, Navigation, add_feedback_button, button, feedback_row,
    navigation_row, rows_view,
};
use crate::decimal::decimal;
use crate::l10n::Lang;
use crate::path::{component_count, components_count, parent, parent_key};
use crate::template::{DataEntry, RenderError, Context, render, rendered};
use crate::text::{concat, lemma_seq_lt_irreflexive, lemma_seq_lt_transitive, seq_lt, str_lt};

verus! {

/// A menu entry as (child key, child name).
pub type EntryView = (Seq<char>, Seq<char>);

/// The children of a menu as (key, name) pairs, in the order they are shown.
pub open spec fn entries_view(next: Seq<(String, String)>) -> Seq<EntryView> {
    next.map_values(|e: (String, String)| (e.0@, e.1@))
}

/// The children of a menu come with their keys strictly ascending, so no
/// key occurs twice: the order of a sorted map of keys to names.
pub open spec fn entries_ascending(next: Seq<EntryView>) -> bool {
    forall|i: int, j: int| 0 <= i < j < next.len() ==> seq_lt(#[trigger] next[i].0, #[trigger] next[j].0)
}

/// The children of a menu whose keys ascend have pairwise distinct keys.
pub proof fn lemma_ascending_keys_distinct(next: Seq<EntryView>)
    requires
        entries_ascending(next),
    ensures
        forall|i: int, j: int| 0 <= i < next.len() && 0 <= j < next.len() && i != j ==> next[i].0 != next[j].0,
{
    assert forall|i: int, j: int| 0 <= i < next.len() && 0 <= j < next.len() && i != j implies next[i].0 != next[j].0 by {
        if i < j {
            assert(seq_lt(next[i].0, next[j].0));
            lemma_seq_lt_irreflexive(next[i].0);
        } else {
            assert(seq_lt(next[j].0, next[i].0));
            lemma_seq_lt_irreflexive(next[j].0);
        }
    }
}

/// Whether the keys of the children of a menu strictly ascend.
pub fn children_ascending(next: &Vec<(String, String)>) -> (r: bool)
    ensures
        r == entries_ascending(entries_view(next@)),
{
    let ghost v = entries_view(next@);
    let n = next.len();
    if n == 0 {
        return true;
    }
    let mut i: usize = 1;
    while i < n
        invariant
            1 <= i <= n,
            n == next@.len(),
            v == entries_view(next@),
            forall|p: int, q: int| 0 <= p < q < i ==> seq_lt(#[trigger] v[p].0, #[trigger] v[q].0),
        decreases n - i,
    {
        let ascends = str_lt(next[i - 1].0.as_str(), next[i].0.as_str());
        if !ascends {
            assert(!seq_lt(v[i - 1].0, v[i as int].0));
            return false;
        }
        assert forall|p: int, q: int| 0 <= p < q < i + 1 implies seq_lt(#[trigger] v[p].0, #[trigger] v[q].0) by {
            if q == i && p < i - 1 {
                lemma_seq_lt_transitive(v[p].0, v[i - 1].0, v[q].0);
            }
        }
        i = i + 1;
    }
    true
}

/// One row per child of a menu: a button with the child's name that opens the child.
pub open spec fn menu_rows(next: Seq<EntryView>) -> Seq<Seq<ButtonView>> {
    next.map_values(|e: EntryView| seq![(e.1, callback_data(Command::Goto, e.0))])
}

/// A header in bold: `*<header>*`.
pub open spec fn bold(header: Seq<char>) -> Seq<char> {
    seq!['*'] + header + seq!['*']
}

/// The navigation rows below a node without a like count: none at the root,
/// else one.
pub open spec fn menu_navigation(key: Seq<char>) -> Seq<Seq<ButtonView>> {
    if component_count(key) > 1 {
        seq![navigation_row(key, parent(key), None)]
    } else {
        Seq::empty()
    }
}

fn bold_header(header: &str) -> (r: String)
    ensures
        r@ == bold(header@),
{
    proof {
        reveal_strlit("*");
    }
    let mut r = concat("*", header);
    r.append("*");
    assert(r@ =~= bold(header@));
    r
}

/// The buttons that open the children of a menu, one per row.
pub fn next_buttons(next: &Vec<(String, String)>) -> (rows: Vec<Vec<Button>>)
    requires
        entries_ascending(entries_view(next@)),
    ensures
        rows_view(rows@) == menu_rows(entries_view(next@)),
{
    let mut rows: Vec<Vec<Button>> = Vec::new();
    let n = next.len();
    let mut i: usize = 0;
    while i < n
        invariant
            n == next@.len(),
            i <= n,
            rows_view(rows@) =~= menu_rows(entries_view(next@.take(i as int))),
        decreases n - i,
    {
        let b = button(next[i].1.clone(), data(Command::Goto, next[i].0.as_str()));
        let mut row: Vec<Button> = Vec::new();
        row.push(b);
        let ghost before = rows@;
        rows.push(row);
        assert(row@.map_values(|b: Button| b@) =~= seq![(next@[i as int].1@, callback_data(Command::Goto, next@[i as int].0@))]);
        assert(next@.take(i + 1) =~= next@.take(i as int).push(next@[i as int]));
        assert(rows@ == before.push(row));
        assert(rows_view(rows@) =~= rows_view(before).push(row@.map_values(|b: Button| b@)));
        assert(entries_view(next@.take(i + 1)) =~= entries_view(next@.take(i as int)).push((next@[i as int].0@, next@[i as int].1@)));
        assert(menu_rows(entries_view(next@.take(i + 1))) =~= menu_rows(entries_view(next@.take(i as int))).push(
            seq![(next@[i as int].1@, callback_data(Command::Goto, next@[i as int].0@))]));
        assert(rows_view(rows@) =~= menu_rows(entries_view(next@.take(i + 1))));
        i = i + 1;
    }
    assert(next@.take(n as int) =~= next@);
    rows
}

fn append_rows(rows: &mut Vec<Vec<Button>>, more: Vec<Vec<Button>>)
    ensures
        rows_view(final(rows)@) == rows_view(old(rows)@) + rows_view(more@),
{
    let mut more = more;
    let ghost before = rows@;
    let ghost added = more@;
    rows.append(&mut more);
    assert(rows@ == before + added);
    assert(rows_view(rows@) =~= rows_view(before) + rows_view(added));
}

/// The root of the grid shown after `/start`: the root header in bold, a
/// button per child, and the feedback button.
pub fn init(header: &str, next: &Vec<(String, String)>, lang: Lang) -> (r: (String, Keyboard))
    requires
        entries_ascending(entries_view(next@)),
    ensures
        r.0@ == bold(header@),
        r.1@ == menu_rows(entries_view(next@)).push(feedback_row(lang)),
{
    let text = bold_header(header);
    let mut keyboard = Keyboard { rows: next_buttons(next) };
    add_feedback_button(&mut keyboard, lang);
    (text, keyboard)
}

/// A menu: its header in bold, a button per child, below a non-root menu
/// the navigation row ("<<" to the root, "<" to the parent), and the
/// feedback button.
pub fn render_menu(key: &str, header: &str, next: &Vec<(String, String)>, lang: Lang) -> (r: (String, Keyboard))
    requires
        entries_ascending(entries_view(next@)),
    ensures
        r.0@ == bold(header@),
        r.1@ == menu_rows(entries_view(next@)) + menu_navigation(key@) + seq![feedback_row(lang)],
{
    let text = bold_header(header);
    let mut rows = next_buttons(next);
    let ghost menu = rows_view(rows@);
    if components_count(key) > 1 {
        let navigation = Navigation::new(key.to_owned(), parent_key(key), None);
        append_rows(&mut rows, navigation.render());
    } else {
        assert(rows_view(rows@) =~= menu + menu_navigation(key@));
    }
    let mut keyboard = Keyboard { rows };
    add_feedback_button(&mut keyboard, lang);
    assert(keyboard@ =~= menu + menu_navigation(key@) + seq![feedback_row(lang)]);
    (text, keyboard)
}

/// The keyboard below a data entry: the navigation row with the like
/// button showing the like count, and the feedback button.
pub open spec fn data_rows(key: Seq<char>, likes: u32, lang: Lang) -> Seq<Seq<ButtonView>> {
    seq![navigation_row(key, parent(key), Some(likes as u64)), feedback_row(lang)]
}

/// A data entry: the entry rendered under its header with the template of
/// `lang`, the navigation row with the like count, and the feedback button.
pub fn render_data(key: &str, header: &str, entry: DataEntry, lang: Lang) -> (r: Result<(String, Keyboard), RenderError>)
    requires
        component_count(key@) > 0,
    ensures
        r matches Ok(v) && v.0@ == rendered(header@, entry, lang) && v.1@ == data_rows(key@, entry.likes, lang),
{
    let likes = entry.likes;
    let context = Context { header: header.to_owned(), data_entry: entry };
    let text = match render(&context, lang) {
        Ok(t) => t,
        Err(e) => return Err(e),
    };
    let navigation = Navigation::new(key.to_owned(), parent_key(key), Some(likes as u64));
    let rows = navigation.render();
    let mut keyboard = Keyboard { rows };
    add_feedback_button(&mut keyboard, lang);
    assert(keyboard@ =~= data_rows(key@, likes, lang));
    Ok((text, keyboard))
}

/// What a grid node holds: a menu's children as (key, name) pairs, or a data entry.
#[derive(Debug, Clone, PartialEq, Eq)]
pub enum GridNode {
    Menu(Vec<(String, String)>),
    Data(DataEntry),
}

/// A grid node as the first version of the grid showed it, in Russian and
/// without a feedback button: a menu's header and a button per child, or a
/// data entry rendered under its header; below a non-root node, "<<" to the
/// root and "<" to the parent.
pub fn goto(key: &str, header: &str, node: GridNode) -> (r: Result<(String, Keyboard), RenderError>)
    requires
        node matches GridNode::Menu(next) ==> entries_ascending(entries_view(next@)),
    ensures
        match node {
            GridNode::Menu(next) => r matches Ok(v) && v.0@ == header@
                && v.1@ == menu_rows(entries_view(next@)) + menu_navigation(key@),
            GridNode::Data(entry) => r matches Ok(v) && v.0@ == rendered(header@, entry, Lang::Ru)
                && v.1@ == menu_navigation(key@),
        },
{
    let ghost node_v = node;
    let (text, mut rows) = match node {
        GridNode::Data(entry) => {
            let context = Context { header: header.to_owned(), data_entry: entry };
            match render(&context, Lang::Ru) {
                Ok(t) => (t, Vec::new()),
                Err(e) => return Err(e),
            }
        },
        GridNode::Menu(next) => (header.to_owned(), next_buttons(&next)),
    };
    let ghost first = rows_view(rows@);
    proof {
        if node_v is Data {
            assert(first =~= Seq::<Seq<ButtonView>>::empty());
        }
    }
    if components_count(key) > 1 {
        let navigation = Navigation::new(key.to_owned(), parent_key(key), None);
        append_rows(&mut rows, navigation.render());
    }
    assert(rows_view(rows@) =~= first + menu_navigation(key@));
    Ok((text, Keyboard { rows }))
}

/// A grid segment's name, after its icon and a space when it has one.
pub fn format_segment(name: &str, icon: Option<&str>) -> (r: String)
    ensures
        r@ == match icon {
            Some(i) => i@ + seq![' '] + name@,
            None => name@,
        },
{
    match icon {
        Some(i) => {
            let mut r = i.to_owned();
            r.push(' ');
            r.append(name);
            assert(r@ =~= i@ + seq![' '] + name@);
            r
        },
        None => name.to_owned(),
    }
}

/// Every data entry, liked or not, is shown with a like button first: its
/// label is a thumb, a space and the like count in decimal (0 included), and
/// it likes the entry's own key; then "<<" to the root, "<" to the parent,
/// and the feedback button below.
pub proof fn lemma_data_entry_like_button(
    key: &str,
    header: &str,
    entry: DataEntry,
    lang: Lang,
    r: Result<(String, Keyboard), RenderError>,
)
    requires
        call_ensures(render_data, (key, header, entry, lang), r),
    ensures
        r matches Ok(v) && {
            let rows = v.1@;
            &&& rows.len() == 2
            &&& rows[0].len() == 3
            &&& rows[0][0] == (seq!['👍', ' '] + decimal(entry.likes as nat), callback_data(Command::Like, key@))
            &&& rows[0][1] == (seq!['<', '<'], callback_data(Command::Goto, seq!['/']))
            &&& rows[0][2] == (seq!['<'], callback_data(Command::Goto, parent(key@)))
            &&& rows[1] == feedback_row(lang)
        },
{
    reveal_strlit("👍 ");
    assert("👍 "@ =~= seq!['👍', ' ']);
}

/// A menu is shown as its header in bold, then one row per child in the
/// order given, each a single button with the child's name that opens the
/// child's key; below a non-root menu one navigation row; the feedback
/// button last.
pub proof fn lemma_menu_layout(key: &str, header: &str, next: &Vec<(String, String)>, lang: Lang, r: (String, Keyboard))
    requires
        call_ensures(render_menu, (key, header, next, lang), r),
    ensures
        r.0@ == seq!['*'] + header@ + seq!['*'],
        r.1@.len() == next@.len() + (if component_count(key@) > 1 { 1int } else { 0int }) + 1,
        forall|i: int| 0 <= i < next@.len()
            ==> #[trigger] r.1@[i] == seq![(next@[i].1@, callback_data(Command::Goto, next@[i].0@))],
        r.1@[r.1@.len() - 1] == feedback_row(lang),
{
    assert forall|i: int| 0 <= i < next@.len()
        implies #[trigger] r.1@[i] == seq![(next@[i].1@, callback_data(Command::Goto, next@[i].0@))] by {
        assert(menu_rows(entries_view(next@))[i] == r.1@[i]);
    }
}

/// The children check accepts exactly the children whose keys strictly
/// ascend in `String` order, and then no key occurs twice.
pub proof fn lemma_children_check(next: &Vec<(String, String)>, r: bool)
    requires
        call_ensures(children_ascending, (next,), r),
    ensures
        r <==> forall|i: int, j: int| 0 <= i < j < next@.len() ==> seq_lt(#[trigger] next@[i].0@, #[trigger] next@[j].0@),
        r ==> forall|i: int, j: int| 0 <= i < j < next@.len() ==> #[trigger] next@[i].0@ != #[trigger] next@[j].0@,
{
    let v = entries_view(next@);
    assert forall|i: int, j: int| 0 <= i < j < next@.len() implies v[i].0 == #[trigger] next@[i].0@ && v[j].0
        == #[trigger] next@[j].0@ by {}
    if r {
        lemma_ascending_keys_distinct(v);
        assert forall|i: int, j: int| 0 <= i < j < next@.len() implies #[trigger] next@[i].0@ != #[trigger] next@[j].0@ by {
            assert(v[i].0 != v[j].0);
        }
    }
}

} // verus!
