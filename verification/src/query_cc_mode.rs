//! Confidential-computing mode resolution: classifies the per-GPU query
//! tool's output and enforces that every GPU in a pass reports the same
//! mode.

use vstd::prelude::*;

use crate::strings::contains_substr;
use crate::strings::has_substring;

verus! {

/// Confidential-computing mode of a GPU.
#[derive(Clone, Copy, Debug, PartialEq, Eq, Structural)]
pub enum CCMode {
    On,
    Off,
}

/// The mode one query-tool output reports: on exactly when the output
/// contains the marker phrase `"CC mode is on"`.
pub open spec fn classify_spec(output: Seq<char>) -> CCMode {
    if has_substring(output, "CC mode is on"@) {
        CCMode::On
    } else {
        CCMode::Off
    }
}

/// Classifies one query-tool output by scanning it for the marker phrase.
pub fn classify_cc_output(output: &str) -> (r: CCMode)
    ensures
        r == classify_spec(output@),
{
    if contains_substr(output, "CC mode is on") {
        CCMode::On
    } else {
        CCMode::Off
    }
}

/// The textual form of a mode.
pub open spec fn mode_str(m: CCMode) -> Seq<char> {
    match m {
        CCMode::On => "on"@,
        CCMode::Off => "off"@,
    }
}

/// Renders a mode as the text the rest of the system logs and compares.
pub fn mode_to_string(m: CCMode) -> (r: String)
    ensures
        r@ == mode_str(m),
{
    match m {
        CCMode::On => "on".to_owned(),
        CCMode::Off => "off".to_owned(),
    }
}

/// Every output reports the same mode as the first one.
pub open spec fn uniform_mode(outputs: Seq<Seq<char>>) -> bool {
    forall|i: int|
        0 <= i < outputs.len() ==> #[trigger] classify_spec(outputs[i]) == classify_spec(
            outputs[0],
        )
}

/// The fields of an inconsistency error name the first GPU whose mode
/// conflicts with the consensus adopted from the GPUs before it, the mode
/// it reported, and the consensus it violated.
pub open spec fn inconsistency_witness(
    bdfs: Seq<Seq<char>>,
    outputs: Seq<Seq<char>>,
    bus_address: Seq<char>,
    found: Seq<char>,
    expected: Seq<char>,
) -> bool {
    exists|i: int|
        {
            &&& 1 <= i < outputs.len()
            &&& #[trigger] classify_spec(outputs[i]) != classify_spec(outputs[0])
            &&& forall|j: int|
                0 <= j < i ==> #[trigger] classify_spec(outputs[j]) == classify_spec(outputs[0])
            &&& bus_address == bdfs[i]
            &&& found == mode_str(classify_spec(outputs[i]))
            &&& expected == mode_str(classify_spec(outputs[0]))
        }
}

/// Failure of CC-mode resolution.
#[derive(Debug)]
pub enum CcModeError {
    /// The resolver was handed no GPUs at all.
    NoGpus,
    /// A GPU reported a mode different from the consensus adopted from the
    /// GPUs before it.
    Inconsistent { bus_address: String, found: String, expected: String },
}

/// Resolves one consistent CC mode over all GPUs of a pass.
///
/// `gpu_bdfs` are the bus addresses, `query_outputs` the index-aligned
/// standard output of the external query tool for each address. The first
/// address's mode is adopted as the consensus; the first later address
/// whose mode differs fails resolution, naming that address and both
/// values. An empty pass fails with the distinct no-GPUs error.
pub fn query_gpu_cc_mode(gpu_bdfs: &Vec<String>, query_outputs: &Vec<String>) -> (r: Result<
    String,
    CcModeError,
>)
    requires
        gpu_bdfs@.len() == query_outputs@.len(),
    ensures
        match r {
            Ok(m) => query_outputs@.len() > 0 && uniform_mode(query_outputs.deep_view())
                && m@ == mode_str(classify_spec(query_outputs.deep_view()[0])),
            Err(e) => match e {
                CcModeError::NoGpus => query_outputs@.len() == 0,
                CcModeError::Inconsistent { bus_address, found, expected } => inconsistency_witness(
                    gpu_bdfs.deep_view(),
                    query_outputs.deep_view(),
                    bus_address@,
                    found@,
                    expected@,
                ),
            },
        },
{
    if query_outputs.len() == 0 {
        return Err(CcModeError::NoGpus);
    }
    let first_mode = classify_cc_output(query_outputs[0].as_str());
    let mut i: usize = 1;
    while i < query_outputs.len()
        invariant
            gpu_bdfs@.len() == query_outputs@.len(),
            query_outputs@.len() > 0,
            1 <= i <= query_outputs@.len(),
            first_mode == classify_spec(query_outputs.deep_view()[0]),
            forall|j: int|
                0 <= j < i ==> #[trigger] classify_spec(query_outputs.deep_view()[j])
                    == classify_spec(query_outputs.deep_view()[0]),
        decreases query_outputs@.len() - i,
    {
        let current_mode = classify_cc_output(query_outputs[i].as_str());
        if current_mode != first_mode {
            proof {
                assert(query_outputs.deep_view()[i as int] == query_outputs@[i as int]@);
                assert(classify_spec(query_outputs.deep_view()[i as int]) != classify_spec(
                    query_outputs.deep_view()[0],
                ));
            }
            return Err(
                CcModeError::Inconsistent {
                    bus_address: gpu_bdfs[i].clone(),
                    found: mode_to_string(current_mode),
                    expected: mode_to_string(first_mode),
                },
            );
        }
        i += 1;
    }
    Ok(mode_to_string(first_mode))
}

} // verus!
