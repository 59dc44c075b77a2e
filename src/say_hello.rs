//! The greeting of the "say-hello" command.
use vstd::prelude::*;

verus! {

/// The greeting for `name`, or for the world when no name is given.
pub fn greeting(name: Option<&str>) -> (r: String)
    ensures
        r@ == match name {
            Some(n) => "Hello, "@ + n@ + "!"@,
            None => "Hello, world!"@,
        },
{
    match name {
        Some(n) => String::from_str("Hello, ").concat(n).concat("!"),
        None => String::from_str("Hello, world!"),
    }
}

} // verus!
