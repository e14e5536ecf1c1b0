use vstd::prelude::*;

use crate::hash::{hash, hash_text, is_lower_hex};
use crate::text::{concat, str_eq, strip_prefix};

verus! {

/// The commands that a grid button can carry in its callback data.
#[derive(Debug, Clone, Copy, PartialEq, Eq, Structural)]
pub enum Command {
    Goto,
    Like,
}

/// The name of a command as it stands in callback data.
pub open spec fn command_name(cmd: Command) -> Seq<char> {
    match cmd {
        Command::Goto => seq!['g', 'o', 't', 'o'],
        Command::Like => seq!['l', 'i', 'k', 'e'],
    }
}

impl Command {
    /// The name of the command: `"goto"` or `"like"`.
    pub fn as_str(&self) -> (r: &'static str)
        ensures
            r@ == command_name(*self),
    {
        match self {
            Command::Goto => {
                proof {
                    reveal_strlit("goto");
                }
                "goto"
            },
            Command::Like => {
                proof {
                    reveal_strlit("like");
                }
                "like"
            },
        }
    }
}

/// The callback data of a button that applies `cmd` to the grid key `key`:
/// `/<command>#<hash of key>`.
pub open spec fn callback_data(cmd: Command, key: Seq<char>) -> Seq<char> {
    seq!['/'] + command_name(cmd) + seq!['#'] + hash_text(key)
}

/// The callback data of the feedback button.
pub open spec fn feedback_data() -> Seq<char> {
    seq!['/', 'f', 'e', 'e', 'd', 'b', 'a', 'c', 'k']
}

/// The callback data of a button that applies `cmd` to the grid key `key`:
/// 38 characters, the last 32 of them lowercase hex digits.
pub fn data(cmd: Command, key: &str) -> (r: String)
    ensures
        r@ == callback_data(cmd, key@),
        r@.len() == 38,
        forall|i: int| 6 <= i < 38 ==> is_lower_hex(#[trigger] r@[i]),
{
    proof {
        reveal_strlit("/");
        reveal_strlit("#");
    }
    let mut r = concat("/", cmd.as_str());
    r.append("#");
    let h = hash(key);
    let ghost prefix = r@;
    r.append(h.as_str());
    assert(prefix.len() == 6);
    assert(r@ =~= callback_data(cmd, key@));
    assert forall|i: int| 6 <= i < 38 implies is_lower_hex(#[trigger] r@[i]) by {
        assert(r@[i] == h@[i - 6]);
    }
    r
}

/// The callback data of the feedback button: `/feedback`.
pub fn feedback_data_string() -> (r: String)
    ensures
        r@ == feedback_data(),
{
    proof {
        reveal_strlit("/feedback");
    }
    let r = "/feedback".to_owned();
    assert(r@ =~= feedback_data());
    r
}

/// What callback data asks for.
#[derive(Debug, Clone, PartialEq, Eq)]
pub enum CallbackRequest {
    /// Open the grid node whose key hashes to the given text.
    Goto(String),
    /// Toggle the current user's like of the data entry whose key hashes to the given text.
    Like(String),
    /// Start the feedback flow.
    Feedback,
    /// Anything else.
    Unknown,
}

/// The prefix of callback data that carries `cmd`: `/<command>#`.
pub open spec fn command_prefix(cmd: Command) -> Seq<char> {
    seq!['/'] + command_name(cmd) + seq!['#']
}

/// Whether `r` is how callback data `data` reads: a `/goto#` or `/like#`
/// prefix followed by a key hash, exactly `/feedback`, or anything else.
pub open spec fn parses_as(data: Seq<char>, r: CallbackRequest) -> bool {
    let goto = command_prefix(Command::Goto).is_prefix_of(data);
    let like = command_prefix(Command::Like).is_prefix_of(data);
    match r {
        CallbackRequest::Goto(h) => goto && h@ == data.skip(6),
        CallbackRequest::Like(h) => !goto && like && h@ == data.skip(6),
        CallbackRequest::Feedback => !goto && !like && data == feedback_data(),
        CallbackRequest::Unknown => !goto && !like && data != feedback_data(),
    }
}

/// Reads callback data: `/goto#<hash>`, `/like#<hash>`, `/feedback`, or
/// anything else.
pub fn parse(data: &str) -> (r: CallbackRequest)
    ensures
        parses_as(data@, r),
{
    proof {
        reveal_strlit("/goto#");
        reveal_strlit("/like#");
        reveal_strlit("/feedback");
        assert("/goto#"@ =~= command_prefix(Command::Goto));
        assert("/like#"@ =~= command_prefix(Command::Like));
        assert("/feedback"@ =~= feedback_data());
    }
    if let Some(h) = strip_prefix(data, "/goto#") {
        CallbackRequest::Goto(h)
    } else if let Some(h) = strip_prefix(data, "/like#") {
        CallbackRequest::Like(h)
    } else if str_eq(data, "/feedback") {
        CallbackRequest::Feedback
    } else {
        CallbackRequest::Unknown
    }
}

/// Callback data round trip: reading the callback data of a button that
/// applies a command to a key gives back that command and the key's hash.
pub proof fn lemma_parse_data(cmd: Command, key: Seq<char>, r: CallbackRequest)
    requires
        parses_as(callback_data(cmd, key), r),
    ensures
        match cmd {
            Command::Goto => r matches CallbackRequest::Goto(h) && h@ == hash_text(key),
            Command::Like => r matches CallbackRequest::Like(h) && h@ == hash_text(key),
        },
{
    let d = callback_data(cmd, key);
    assert(d =~= command_prefix(cmd) + hash_text(key));
    assert(d.skip(6) =~= hash_text(key));
    assert(command_prefix(cmd).is_prefix_of(d));
    match cmd {
        Command::Goto => {},
        Command::Like => {
            assert(d[1] == 'l');
            assert(!command_prefix(Command::Goto).is_prefix_of(d));
        },
    }
}

} // verus!
