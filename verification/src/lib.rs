//! Backend for a small dictionary GUI: a greeting echo and a dictionary
//! lookup that builds a percent-encoded request URL for a fixed remote
//! JSON API and classifies the outcome of the single HTTP round trip.
use vstd::prelude::*;

use vstd::string::StringExecFns;

pub mod percent;
pub mod url;
pub mod lookup;

verus! {

/// Returns the fixed greeting built around `name`.
pub fn greet(name: &str) -> (r: String)
    ensures
        r@ == "Hello, "@ + name@ + "! You've been greeted from Rust!"@,
{
    let mut s = String::from_str("Hello, ");
    s.append(name);
    s.append("! You've been greeted from Rust!");
    s
}

} // verus!

