use vstd::prelude::*;
use crate::text::same_text;

verus! {

/// The greeting for `name`.
pub open spec fn greeting(name: Seq<char>) -> Seq<char> {
    "Hello, "@ + name + "! Welcome to nchat."@
}

/// Greets `name`.
pub fn greet(name: &str) -> (r: String)
    ensures
        r@ == greeting(name@),
{
    let mut s = String::from_str("Hello, ");
    s.append(name);
    s.append("! Welcome to nchat.");
    s
}

/// The version of this application.
pub open spec fn app_version() -> Seq<char> {
    "0.1.0"@
}

/// Returns the version of this application.
pub fn get_app_version() -> (r: String)
    ensures
        r@ == app_version(),
{
    String::from_str("0.1.0")
}

/// The platform name reported for the operating system `os`.
pub open spec fn platform_name(os: Seq<char>) -> Seq<char> {
    if os == "macos"@ || os == "windows"@ || os == "linux"@ {
        os
    } else {
        "unknown"@
    }
}

/// The platform name for the operating system `os` (as std names it):
/// `macos`, `windows` or `linux`, else `unknown`.
pub fn get_platform(os: &str) -> (r: String)
    ensures
        r@ == platform_name(os@),
{
    if same_text(os, "macos") || same_text(os, "windows") || same_text(os, "linux") {
        String::from_str(os)
    } else {
        String::from_str("unknown")
    }
}

} // verus!
