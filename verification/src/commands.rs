//! Commands that the frontend invokes.

use vstd::prelude::*;
use vstd::string::*;

pub use crate::window::show_main_window;

verus! {

/// The version of the application, as its package manifest declares it.
pub const APP_VERSION: &'static str = "0.1.0";

/// The text that `greet` returns for `name`: the name set into the fixed welcome sentence.
pub open spec fn greeting(name: Seq<char>) -> Seq<char> {
    "Hello, "@ + name + "! Welcome to Stock Advisors."@
}

/// Greets `name`. The name is not inspected: empty or arbitrary text is echoed as it is.
pub fn greet(name: &str) -> (text: String)
    ensures
        text@ == greeting(name@),
{
    String::from_str("Hello, ").concat(name).concat("! Welcome to Stock Advisors.")
}

/// The version of the running application. It is the same on every call.
pub fn get_app_version() -> (version: String)
    ensures
        version@ == APP_VERSION@,
{
    APP_VERSION.to_owned()
}

} // verus!
