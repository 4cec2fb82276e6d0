//! Report file names.
//!
//! A report is written to `{report_dir}/{name}` where the name joins the
//! fixed prefix, the interface name and a local timestamp, and ends in
//! `.csv`.  Colons become dashes and, in the timestamp, periods become
//! underscores, so the name is filesystem-safe on every platform.

use vstd::prelude::*;
use vstd::string::StrSliceExecFns;
use vstd::string::StringExecFns;
use crate::clock::local_now_text;

verus! {

/// How one character of a name component is made filesystem-safe:
/// colons become dashes and, where periods are unsafe too, underscores.
pub open spec fn spec_safe_char(c: char, underscore_periods: bool) -> char {
    if c == ':' {
        '-'
    } else if underscore_periods && c == '.' {
        '_'
    } else {
        c
    }
}

/// `text` with every character made filesystem-safe.
pub fn sanitize_component(text: &str, underscore_periods: bool) -> (r: String)
    ensures
        r@ == text@.map_values(|c: char| spec_safe_char(c, underscore_periods)),
{
    let mut out = String::new();
    let n = text.unicode_len();
    let mut i: usize = 0;
    while i < n
        invariant
            0 <= i <= n,
            n == text@.len(),
            out@ == text@.subrange(0, i as int).map_values(
                |c: char| spec_safe_char(c, underscore_periods),
            ),
        decreases n - i,
    {
        let c = text.get_char(i);
        if c == ':' {
            out.append("-");
            proof {
                reveal_strlit("-");
            }
        } else if underscore_periods && c == '.' {
            out.append("_");
            proof {
                reveal_strlit("_");
            }
        } else {
            let piece = text.substring_char(i, i + 1);
            out.append(piece);
        }
        proof {
            assert(out@ =~= text@.subrange(0, i + 1).map_values(
                |c: char| spec_safe_char(c, underscore_periods),
            ));
        }
        i = i + 1;
    }
    proof {
        assert(text@.subrange(0, n as int) =~= text@);
    }
    out
}

/// The name of the report written for `interface_name` at the local time
/// `stamp` describes: prefix, interface and timestamp joined by
/// underscores, sanitized, with the `.csv` extension.
pub open spec fn spec_report_name(interface_name: Seq<char>, stamp: Seq<char>) -> Seq<char> {
    "weirdshark_capture_"@ + interface_name.map_values(|c: char| spec_safe_char(c, false)) + "_"@
        + stamp.map_values(|c: char| spec_safe_char(c, true)) + ".csv"@
}

/// Build the report file name for this interface and timestamp.
pub fn make_report_name(interface_name: &str, stamp: &str) -> (r: String)
    ensures
        r@ == spec_report_name(interface_name@, stamp@),
{
    let mut out = String::new();
    out.append("weirdshark_capture_");
    let safe_interface = sanitize_component(interface_name, false);
    out.append(safe_interface.as_str());
    out.append("_");
    let safe_stamp = sanitize_component(stamp, true);
    out.append(safe_stamp.as_str());
    out.append(".csv");
    out
}

/// The report file name for `interface_name` at the present local time.
/// The timestamp itself comes from the wall clock, so only the shape is
/// known: the name is `spec_report_name` of the interface and some stamp.
pub fn report_file_name(interface_name: &str) -> (r: String)
    ensures
        exists|stamp: Seq<char>| r@ == spec_report_name(interface_name@, stamp),
{
    let stamp = local_now_text();
    let r = make_report_name(interface_name, stamp.as_str());
    proof {
        assert(r@ == spec_report_name(interface_name@, stamp@));
    }
    r
}

} // verus!
