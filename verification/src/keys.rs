//! Names of the entries that the bot keeps in its key-value store.
use vstd::prelude::*;

use crate::l10n::{Lang, lang_code};
use crate::text::concat;

verus! {

/// The hash that maps each user to the id of the message that asks them for
/// feedback, while a feedback is pending.
pub const FEEDBACK_PENDING: &'static str = "feedback:pending";

/// The stream that collected feedback is published to.
pub const FEEDBACK_STREAM: &'static str = "feedback:stream";

/// The set of the grid keys that are data entries.
pub const DATA_ENTRIES: &'static str = "data_entries";

/// The hash from key hashes (as in callback data) to grid keys.
pub const KEY_HASHES: &'static str = "key_hashes";

/// The hash slot of language-independent entries, which the like script uses.
pub const L10N_NONE: &'static str = "l10n:none";

/// `{l10n:none}:<key>:<suffix>`: a language-independent entry of a grid key.
pub open spec fn plain_entry(key: Seq<char>, suffix: Seq<char>) -> Seq<char> {
    "{l10n:none}:"@ + key + suffix
}

/// `{l10n:<lang>}:<key>:<suffix>`: a localized entry of a grid key.
pub open spec fn localized_entry(key: Seq<char>, lang: Lang, suffix: Seq<char>) -> Seq<char> {
    "{l10n:"@ + lang_code(lang) + "}:"@ + key + suffix
}

/// Store names do not collide: two grid keys get the same entry name of a
/// kind (and, for localized entries, a language) only when they are the same key.
pub proof fn lemma_entry_names_distinct(k1: Seq<char>, k2: Seq<char>, suffix: Seq<char>, lang: Lang)
    ensures
        plain_entry(k1, suffix) == plain_entry(k2, suffix) ==> k1 == k2,
        localized_entry(k1, lang, suffix) == localized_entry(k2, lang, suffix) ==> k1 == k2,
{
    let p = "{l10n:none}:"@;
    if plain_entry(k1, suffix) == plain_entry(k2, suffix) {
        let e = plain_entry(k1, suffix);
        assert(e.len() == p.len() + k1.len() + suffix.len());
        assert(plain_entry(k2, suffix).len() == p.len() + k2.len() + suffix.len());
        assert(k1.len() == k2.len());
        assert(e.subrange(p.len() as int, (p.len() + k1.len()) as int) =~= k1);
        assert(plain_entry(k2, suffix).subrange(p.len() as int, (p.len() + k2.len()) as int) =~= k2);
    }
    let q = "{l10n:"@ + lang_code(lang) + "}:"@;
    if localized_entry(k1, lang, suffix) == localized_entry(k2, lang, suffix) {
        assert(localized_entry(k1, lang, suffix) =~= q + k1 + suffix);
        assert(localized_entry(k2, lang, suffix) =~= q + k2 + suffix);
        assert((q + k1 + suffix).len() == q.len() + k1.len() + suffix.len());
        assert((q + k2 + suffix).len() == q.len() + k2.len() + suffix.len());
        assert(k1.len() == k2.len());
        assert((q + k1 + suffix).subrange(q.len() as int, (q.len() + k1.len()) as int) =~= k1);
        assert((q + k2 + suffix).subrange(q.len() as int, (q.len() + k2.len()) as int) =~= k2);
    }
}

fn plain(key: &str, suffix: &str) -> (r: String)
    ensures
        r@ == plain_entry(key@, suffix@),
{
    let mut r = concat("{l10n:none}:", key);
    r.append(suffix);
    assert(r@ =~= plain_entry(key@, suffix@));
    r
}

fn localized(key: &str, lang: Lang, suffix: &str) -> (r: String)
    ensures
        r@ == localized_entry(key@, lang, suffix@),
{
    let mut r = concat("{l10n:", lang.as_str());
    r.append("}:");
    r.append(key);
    r.append(suffix);
    assert(r@ =~= localized_entry(key@, lang, suffix@));
    r
}

/// The counter of views of a data entry.
pub fn views_key(key: &str) -> (r: String)
    ensures
        r@ == plain_entry(key@, ":views"@),
{
    plain(key, ":views")
}

/// The creation time (unix seconds) of a data entry.
pub fn created_key(key: &str) -> (r: String)
    ensures
        r@ == plain_entry(key@, ":created"@),
{
    plain(key, ":created")
}

/// The set of users who like a data entry.
pub fn likes_key(key: &str) -> (r: String)
    ensures
        r@ == plain_entry(key@, ":likes"@),
{
    plain(key, ":likes")
}

/// The hash from the keys of a menu's children to their localized names.
pub fn next_key(key: &str, lang: Lang) -> (r: String)
    ensures
        r@ == localized_entry(key@, lang, ":next"@),
{
    localized(key, lang, ":next")
}

/// The localized text of a data entry.
pub fn data_key(key: &str, lang: Lang) -> (r: String)
    ensures
        r@ == localized_entry(key@, lang, ":data"@),
{
    localized(key, lang, ":data")
}

/// The hash slot that the header script reads for a language: `l10n:<lang>`.
pub fn header_slot(lang: Lang) -> (r: String)
    ensures
        r@ == "l10n:"@ + lang_code(lang),
{
    concat("l10n:", lang.as_str())
}

/// The file that holds a store script: `<dir>/<name>.lua`.
pub fn script_path(dir: &str, name: &str) -> (r: String)
    ensures
        r@ == (if dir@.len() > 0 && dir@.last() != '/' { dir@ + seq!['/'] } else { dir@ }) + name@ + ".lua"@,
{
    let mut r = dir.to_owned();
    let n = dir.unicode_len();
    if n > 0 && dir.get_char(n - 1) != '/' {
        r.push('/');
    }
    r.append(name);
    r.append(".lua");
    r
}

} // verus!
