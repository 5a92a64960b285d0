use vstd::prelude::*;

verus! {

/// Body served at `/` by the Rocket web-server project template.
pub fn index() -> (r: &'static str)
    ensures
        r@ == "Hello from Rocket!"@,
{
    "Hello from Rocket!"
}

} // verus!
