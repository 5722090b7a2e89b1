use vstd::prelude::*;

verus! {

/// What a native notification shows.
pub struct NotificationOptions {
    pub title: String,
    pub body: Option<String>,
    pub icon: Option<String>,
    pub sound: Option<String>,
}

/// The answer to a permission request, as text.
pub open spec fn permission_label(granted: bool) -> Seq<char> {
    if granted {
        "granted"@
    } else {
        "denied"@
    }
}

/// Renders the answer to a permission request: `granted` or `denied`.
pub fn permission_text(granted: bool) -> (r: String)
    ensures
        r@ == permission_label(granted),
{
    if granted {
        String::from_str("granted")
    } else {
        String::from_str("denied")
    }
}

} // verus!
