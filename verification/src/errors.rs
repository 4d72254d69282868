//! Translation of raw protocol error text into the human-readable message
//! shown in the error modal. The first known protocol error name found in
//! the text decides the message; unrecognized text is shown as it is.

use vstd::prelude::*;
use crate::text::{seq_contains, str_contains};

verus! {

/// The message shown for the raw error text `e`, pattern-matched in a fixed
/// priority order.
pub open spec fn friendly_error_spec(e: Seq<char>) -> Seq<char> {
    if seq_contains(e, "org.freedesktop.DBus.Error.InteractiveAuthorizationRequired"@) {
        "You do not have the permission to do that. Try running the program with sudo."@
    } else if seq_contains(e, "org.freedesktop.DBus.Error.ServiceUnknown"@) {
        "The requested service is not available or not running."@
    } else if seq_contains(e, "org.freedesktop.DBus.Error.NoReply"@) {
        "The service did not respond in time. It might be busy or not functioning properly."@
    } else if seq_contains(e, "org.freedesktop.DBus.Error.AccessDenied"@) {
        "Access denied. You don't have sufficient permissions for this operation."@
    } else if seq_contains(e, "org.freedesktop.systemd1.NoSuchUnit"@) {
        "The requested service unit doesn't exist."@
    } else {
        e
    }
}

/// Maps a raw protocol error onto the message the modal displays.
pub fn get_user_friendly_error<'a>(error: &'a str) -> (r: &'a str)
    ensures
        r@ == friendly_error_spec(error@),
{
    if str_contains(error, "org.freedesktop.DBus.Error.InteractiveAuthorizationRequired") {
        "You do not have the permission to do that. Try running the program with sudo."
    } else if str_contains(error, "org.freedesktop.DBus.Error.ServiceUnknown") {
        "The requested service is not available or not running."
    } else if str_contains(error, "org.freedesktop.DBus.Error.NoReply") {
        "The service did not respond in time. It might be busy or not functioning properly."
    } else if str_contains(error, "org.freedesktop.DBus.Error.AccessDenied") {
        "Access denied. You don't have sufficient permissions for this operation."
    } else if str_contains(error, "org.freedesktop.systemd1.NoSuchUnit") {
        "The requested service unit doesn't exist."
    } else {
        error
    }
}

} // verus!
