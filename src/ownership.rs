//! Strings handed out by value and changed through a mutable borrow.

use vstd::prelude::*;

verus! {

/// A freshly built `Hello`, owned by the caller.
pub fn gives_ownership() -> (r: String)
    ensures
        r@ == "Hello"@,
{
    let string = String::from_str("Hello");
    string
}

/// Appends `, world` to the string.
pub fn change(string: &mut String)
    ensures
        final(string)@ == old(string)@ + ", world"@,
{
    string.append(", world");
}

} // verus!
