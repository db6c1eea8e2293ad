use vstd::prelude::*;
use vstd::string::*;

verus! {

/// The greeting answered to `name`.
pub fn greeting(name: &str) -> (r: String)
    ensures
        r@ == "Hello, "@ + name@,
{
    let mut r = String::from_str("Hello, ");
    r.append(name);
    r
}

} // verus!
