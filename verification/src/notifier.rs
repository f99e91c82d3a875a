//! What a notification says.

use crate::text::{decimal, push_decimal};
use vstd::prelude::*;
use vstd::string::StringExecFns;

verus! {

/// What a notification says of a count of pending updates that went from
/// `previous` to `current`.
pub open spec fn body(previous: nat, current: nat) -> Seq<char> {
    "Pending updates changed from "@ + decimal(previous) + " to "@ + decimal(current)
}

/// What a notification says of a count of pending updates that went from
/// `previous` to `current`.
pub fn notification_body(previous: usize, current: usize) -> (text: String)
    ensures
        text@ == body(previous as nat, current as nat),
{
    let mut text = String::from_str("Pending updates changed from ");
    push_decimal(&mut text, previous as u64);
    text.append(" to ");
    push_decimal(&mut text, current as u64);
    text
}

} // verus!
