use vstd::prelude::*;

verus! {

/// Map an optional string to a printable form, rendering an absent
/// value as a single dash.
pub fn prettify_option(option: Option<&String>) -> (r: String)
    ensures
        match option {
            Some(s) => r@ == s@,
            None => r@ == "-"@,
        },
{
    match option {
        Some(a) => a.clone(),
        None => String::from_str("-"),
    }
}

} // verus!
