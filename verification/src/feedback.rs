//! Feedback left by a user.
use vstd::prelude::*;

verus! {

/// A feedback: who wrote it and what they wrote.
#[derive(Debug, Clone, PartialEq, Eq)]
pub struct Feedback {
    pub username: String,
    pub text: String,
}

impl Feedback {
    /// A feedback from a user.
    pub fn new(username: String, text: String) -> (f: Feedback)
        ensures
            f.username == username,
            f.text == text,
    {
        Feedback { username, text }
    }

    /// The fields of the feedback as stream entry pairs:
    /// `("username", <username>)`, then `("text", <text>)`.
    pub fn as_pairs(&self) -> (r: Vec<(&str, &str)>)
        ensures
            r@.len() == 2,
            r@[0].0@ == "username"@,
            r@[0].1@ == self.username@,
            r@[1].0@ == "text"@,
            r@[1].1@ == self.text@,
    {
        let mut r: Vec<(&str, &str)> = Vec::new();
        r.push(("username", self.username.as_str()));
        r.push(("text", self.text.as_str()));
        r
    }
}

} // verus!
