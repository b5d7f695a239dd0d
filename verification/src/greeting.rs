use vstd::prelude::*;
use vstd::string::StringExecFns;

verus! {

/// The greeting owed to a caller named `name`: a fixed prefix and suffix
/// around the name, exactly as the front-end displays it.
pub open spec fn greeting_of(name: Seq<char>) -> Seq<char> {
    "Hello, "@ + name + "! You've been greeted from Rust!"@
}

/// Returns the fixed-format greeting embedding `name`. Pure: no I/O, any
/// input text is accepted, the empty one included.
pub fn greet(name: &str) -> (r: String)
    ensures
        r@ == greeting_of(name@),
{
    let mut r = String::from_str("Hello, ");
    r.append(name);
    r.append("! You've been greeted from Rust!");
    r
}

} // verus!
