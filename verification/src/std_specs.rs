use vstd::prelude::*;

verus! {

/// `String::push` appends one character: the std documentation says it
/// "appends the given char to the end of this String".
pub assume_specification[ String::push ](string: &mut String, ch: char)
    ensures
        final(string)@ == old(string)@.push(ch),
;

} // verus!
