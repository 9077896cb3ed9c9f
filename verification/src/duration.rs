//! The human-readable duration suffix printed after the command line.

use vstd::prelude::*;
use vstd::string::*;

use crate::decimal::dec_of;
use crate::decimal::u64_to_string;

verus! {

/// The suffix appended to the echoed command line: `" took <h>h<m>m<s>s"`,
/// omitting units whose value is zero, and `" took < 1s"` when the elapsed
/// time rounds to zero whole seconds.
pub open spec fn duration_suffix_spec(secs: nat) -> Seq<char> {
    if secs == 0 {
        " took < 1s"@
    } else {
        " took "@ + (if secs / 3600 > 0 {
            dec_of(secs / 3600) + "h"@
        } else {
            Seq::<char>::empty()
        }) + (if (secs % 3600) / 60 > 0 {
            dec_of((secs % 3600) / 60) + "m"@
        } else {
            Seq::<char>::empty()
        }) + (if secs % 60 > 0 {
            dec_of(secs % 60) + "s"@
        } else {
            Seq::<char>::empty()
        })
    }
}

/// Formats the elapsed whole seconds as the console summary's suffix.
pub fn format_duration(secs: u64) -> (r: String)
    ensures
        r@ == duration_suffix_spec(secs as nat),
{
    if secs == 0 {
        return String::from_str(" took < 1s");
    }
    let hours = secs / 3600;
    let minutes = (secs % 3600) / 60;
    let seconds = secs % 60;

    let mut out = String::from_str(" took ");
    if hours > 0 {
        let h = u64_to_string(hours);
        out.append(h.as_str());
        out.append("h");
    }
    if minutes > 0 {
        let m = u64_to_string(minutes);
        out.append(m.as_str());
        out.append("m");
    }
    if seconds > 0 {
        let s = u64_to_string(seconds);
        out.append(s.as_str());
        out.append("s");
    }
    out
}

} // verus!
