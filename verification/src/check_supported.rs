//! Support gate: checks the device ids discovered in a pass against the
//! contents of the allow-list file.

use vstd::prelude::*;

use crate::strings::str_eq;

verus! {

/// Every discovered id appears verbatim among the allow-list lines.
pub open spec fn all_ids_allowed(ids: Seq<Seq<char>>, allowed: Seq<Seq<char>>) -> bool {
    forall|i: int| 0 <= i < ids.len() ==> allowed.contains(#[trigger] ids[i])
}

/// The support decision. A missing allow-list file (`None`) is the
/// distinct unknown/unsupported outcome and never passes; a present
/// allow-list passes exactly when every discovered id equals some full
/// line of it.
pub open spec fn gate_spec(ids: Seq<Seq<char>>, allow_list: Option<Seq<Seq<char>>>) -> bool {
    match allow_list {
        None => false,
        Some(allowed) => all_ids_allowed(ids, allowed),
    }
}

/// An empty set of ids is always supported, whatever the allow-list holds.
pub proof fn lemma_gate_vacuous(ids: Seq<Seq<char>>, allowed: Seq<Seq<char>>)
    requires
        ids.len() == 0,
    ensures
        gate_spec(ids, Some(allowed)),
{
}

/// When the allow-list file is absent the decision is false for every
/// set of ids, and that outcome is not a failure.
pub proof fn lemma_gate_missing_file(ids: Seq<Seq<char>>)
    ensures
        !gate_spec(ids, None),
{
}

/// The allow-list contents as handed to the specification: `None` for a
/// missing file, otherwise the lines of the file.
pub open spec fn allow_list_view(allow_list: Option<&Vec<String>>) -> Option<Seq<Seq<char>>> {
    match allow_list {
        Some(lines) => Some(lines.deep_view()),
        None => None,
    }
}

/// Linear scan for one id among the allow-list lines.
fn allow_list_contains(allowed: &Vec<String>, id: &str) -> (r: bool)
    ensures
        r == allowed.deep_view().contains(id@),
{
    let mut i: usize = 0;
    while i < allowed.len()
        invariant
            i <= allowed@.len(),
            forall|j: int| 0 <= j < i ==> #[trigger] allowed.deep_view()[j] != id@,
        decreases allowed@.len() - i,
    {
        if str_eq(allowed[i].as_str(), id) {
            proof {
                assert(allowed.deep_view()[i as int] == id@);
            }
            return true;
        }
        i += 1;
    }
    false
}

/// Decides support for a pass's discovered device ids.
///
/// `allow_list` is `None` when the allow-list file is missing, which
/// yields false (unknown/unsupported) rather than an error, and otherwise
/// holds the file's lines. The first discovered id that equals no line
/// short-circuits the decision to false; an empty set of discovered ids
/// passes vacuously.
pub fn check_gpu_supported(gpu_device_ids: &Vec<String>, allow_list: Option<&Vec<String>>) -> (r:
    bool)
    ensures
        r == gate_spec(gpu_device_ids.deep_view(), allow_list_view(allow_list)),
{
    if allow_list.is_none() {
        return false;
    }
    let allowed = allow_list.unwrap();
    let mut i: usize = 0;
    while i < gpu_device_ids.len()
        invariant
            i <= gpu_device_ids@.len(),
            allow_list == Some(allowed),
            forall|j: int|
                0 <= j < i ==> allowed.deep_view().contains(
                    #[trigger] gpu_device_ids.deep_view()[j],
                ),
        decreases gpu_device_ids@.len() - i,
    {
        if !allow_list_contains(allowed, gpu_device_ids[i].as_str()) {
            proof {
                assert(!allowed.deep_view().contains(gpu_device_ids.deep_view()[i as int]));
                assert(!all_ids_allowed(gpu_device_ids.deep_view(), allowed.deep_view()));
            }
            return false;
        }
        i += 1;
    }
    true
}

} // verus!
