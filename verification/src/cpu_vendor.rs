//! CPU vendor detection over the lines of the cpuinfo pseudo-file. The
//! result is diagnostic only, but failing to detect a vendor is treated
//! as fatal by the supervisor.

use vstd::prelude::*;

use crate::strings::contains_substr;
use crate::strings::has_substring;

verus! {

/// The vendor one cpuinfo line reveals, if any: AMD and Intel by their
/// vendor strings, Arm by an implementer line carrying the Arm code.
pub open spec fn line_vendor_spec(line: Seq<char>) -> Option<Seq<char>> {
    if has_substring(line, "AuthenticAMD"@) {
        Some("amd"@)
    } else if has_substring(line, "GenuineIntel"@) {
        Some("intel"@)
    } else if has_substring(line, "CPU implementer"@) && has_substring(line, "0x41"@) {
        Some("arm"@)
    } else {
        None
    }
}

/// The vendor named by the first line that reveals one.
pub open spec fn first_vendor_spec(lines: Seq<Seq<char>>) -> Option<Seq<char>>
    decreases lines.len(),
{
    if lines.len() == 0 {
        None
    } else {
        match line_vendor_spec(lines.first()) {
            Some(v) => Some(v),
            None => first_vendor_spec(lines.drop_first()),
        }
    }
}

/// No line of the cpuinfo pseudo-file named a known CPU vendor.
#[derive(Debug)]
pub struct CpuVendorError;

/// Detects the CPU vendor from the lines of the cpuinfo pseudo-file.
/// The first line naming a known vendor decides; when no line does, the
/// detection fails.
pub fn query_cpu_vendor(cpuinfo_lines: &Vec<String>) -> (r: Result<String, CpuVendorError>)
    ensures
        match r {
            Ok(v) => first_vendor_spec(cpuinfo_lines.deep_view()) == Some(v@),
            Err(_) => first_vendor_spec(cpuinfo_lines.deep_view()) is None,
        },
{
    let ghost all = cpuinfo_lines.deep_view();
    proof {
        assert(all.subrange(0, all.len() as int) =~= all);
    }
    let mut i: usize = 0;
    while i < cpuinfo_lines.len()
        invariant
            i <= cpuinfo_lines@.len(),
            all == cpuinfo_lines.deep_view(),
            first_vendor_spec(all) == first_vendor_spec(
                all.subrange(i as int, all.len() as int),
            ),
        decreases cpuinfo_lines@.len() - i,
    {
        let ghost rest = all.subrange(i as int, all.len() as int);
        proof {
            assert(rest.first() == all[i as int]);
            assert(rest.drop_first() =~= all.subrange(i + 1, all.len() as int));
        }
        let line = cpuinfo_lines[i].as_str();
        if contains_substr(line, "AuthenticAMD") {
            return Ok("amd".to_owned());
        } else if contains_substr(line, "GenuineIntel") {
            return Ok("intel".to_owned());
        } else if contains_substr(line, "CPU implementer") && contains_substr(line, "0x41") {
            return Ok("arm".to_owned());
        }
        proof {
            assert(line_vendor_spec(all[i as int]) is None);
        }
        i += 1;
    }
    Err(CpuVendorError)
}

} // verus!
