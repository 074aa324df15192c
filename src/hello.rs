use vstd::prelude::*;

verus! {

/// The greeting of the minimal component.
pub fn hello_world() -> (r: String)
    ensures
        r@ == "Hello, World!"@,
{
    String::from_str("Hello, World!")
}

} // verus!
