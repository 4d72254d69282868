//! The Failure Notifier's decision core. The watcher threads subscribe to
//! the protocol's change-notification signal on both connection scopes; each
//! received signal is judged here: only a changed-property set carrying an
//! `ActiveState` string equal to "failed", on the per-unit interface, raises
//! an alert, and the alert names the unit decoded from the signal's object
//! path.

use vstd::prelude::*;
use crate::text::str_eq;
use vstd::string::StringExecFns;
use crate::unit_path::{decode_seq, last_segment, decode_unit_path};

verus! {

/// The value stored under `key`, if any entry carries it. A property value
/// that was not a string is `Some(None)`.
pub open spec fn prop_lookup(pairs: Seq<(String, Option<String>)>, key: Seq<char>) -> Option<
    Option<String>,
>
    decreases pairs.len(),
{
    if pairs.len() == 0 {
        None
    } else if pairs[0].0@ == key {
        Some(pairs[0].1)
    } else {
        prop_lookup(pairs.drop_first(), key)
    }
}

/// Whether a signal must raise an alert, and for which unit: the interface
/// must be the per-unit one, the changed set must carry an `ActiveState`
/// entry, that entry must be the string "failed", and the unit name is the
/// decoded final segment of the signal's object path.
pub open spec fn failure_notice_spec(
    interface: Seq<char>,
    changed: Seq<(String, Option<String>)>,
    path: Seq<char>,
) -> Option<Seq<char>> {
    if interface != "org.freedesktop.systemd1.Unit"@ {
        None
    } else {
        match prop_lookup(changed, "ActiveState"@) {
            Option::None => None,
            Option::Some(v) => match v {
                Option::None => None,
                Option::Some(s) => if s@ == "failed"@ {
                    Some(decode_seq(last_segment(path)))
                } else {
                    None
                },
            },
        }
    }
}

/// Judges one change-notification signal. `changed` holds the signal's
/// changed-property map as name/value pairs, with `None` standing for a
/// value that was not a string. Returns the decoded unit name to alert
/// about, or `None` when the signal is to be ignored.
pub fn failure_notice(
    interface: &str,
    changed: &Vec<(String, Option<String>)>,
    path: &str,
) -> (r: Option<String>)
    ensures
        match r {
            Option::Some(name) => failure_notice_spec(interface@, changed@, path@) == Some(name@),
            Option::None => failure_notice_spec(interface@, changed@, path@) is None,
        },
{
    if !str_eq(interface, "org.freedesktop.systemd1.Unit") {
        return None;
    }
    let n = changed.len();
    let mut i: usize = 0;
    proof {
        assert(changed@.skip(0) =~= changed@);
    }
    while i < n
        invariant
            0 <= i <= n,
            n == changed@.len(),
            interface@ == "org.freedesktop.systemd1.Unit"@,
            prop_lookup(changed@, "ActiveState"@) == prop_lookup(
                changed@.skip(i as int),
                "ActiveState"@,
            ),
        decreases n - i,
    {
        proof {
            assert(changed@.skip(i as int)[0] == changed@[i as int]);
            assert(changed@.skip(i as int).drop_first() =~= changed@.skip(i + 1));
        }
        if str_eq(changed[i].0.as_str(), "ActiveState") {
            proof {
                assert(prop_lookup(changed@.skip(i as int), "ActiveState"@) == Some(
                    changed@[i as int].1,
                ));
            }
            match &changed[i].1 {
                Some(v) => {
                    proof {
                        assert(changed@[i as int].1 == Some(*v));
                    }
                    if str_eq(v.as_str(), "failed") {
                        proof {
                            assert(prop_lookup(changed@, "ActiveState"@) == Some(Some(*v)));
                        }
                        return Some(decode_unit_path(path));
                    } else {
                        return None;
                    }
                },
                None => {
                    return None;
                },
            }
        }
        i = i + 1;
    }
    None
}

/// The alert text: the decoded unit name and the word "failed".
pub fn failure_summary(name: &str) -> (r: String)
    ensures
        r@ == name@ + " failed"@,
{
    let mut out = name.to_owned();
    out.append(" failed");
    out
}

} // verus!
