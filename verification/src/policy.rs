//! Selection policy: which adapter the run is to use.
//!
//! Exactly one mode is active per run, resolved once from configuration:
//! an explicit enumeration index, the dedicated software (emulated)
//! adapter, or simply the first adapter the host reports.  The explicit
//! index and the software fallback are mutually exclusive by construction.

use vstd::prelude::*;

verus! {

/// The three mutually exclusive selection modes.
#[derive(Clone, Copy, PartialEq, Eq, Structural, Debug)]
pub enum SelectionPolicy {
    /// Use the adapter at this enumeration index.
    ByIndex(u32),
    /// Use the dedicated software adapter; no enumerated adapter is chosen.
    SoftwareFallback,
    /// Use the adapter at index zero.
    FirstAvailable,
}

/// The marking rule for the printed inventory: the enumerated adapter at
/// `index` is annotated as selected exactly when the policy picks it.  The
/// software adapter is never part of the enumeration, so under
/// `SoftwareFallback` no enumerated adapter is marked.
pub open spec fn is_marked(policy: SelectionPolicy, index: int) -> bool {
    match policy {
        SelectionPolicy::ByIndex(n) => index == n,
        SelectionPolicy::SoftwareFallback => false,
        SelectionPolicy::FirstAvailable => index == 0,
    }
}

/// Runtime form of the marking rule.
pub fn policy_marks(policy: SelectionPolicy, index: u32) -> (r: bool)
    ensures
        r == is_marked(policy, index as int),
{
    match policy {
        SelectionPolicy::ByIndex(n) => index == n,
        SelectionPolicy::SoftwareFallback => false,
        SelectionPolicy::FirstAvailable => index == 0,
    }
}

/// Law: under the software fallback, no enumerated adapter is ever marked
/// as selected.
pub proof fn lemma_software_fallback_marks_nothing(index: int)
    ensures
        !is_marked(SelectionPolicy::SoftwareFallback, index),
{
}

/// Law: first-available marks the adapter at index zero and no other.
pub proof fn lemma_first_available_marks_first(index: int)
    ensures
        is_marked(SelectionPolicy::FirstAvailable, 0),
        index != 0 ==> !is_marked(SelectionPolicy::FirstAvailable, index),
{
}

/// The message a conflicting configuration comes back with.
pub open spec fn policy_conflict_error() -> Seq<char> {
    "the software adapter and an explicit adapter index are mutually exclusive"@
}

/// Resolves configuration into a policy.  The software flag and an
/// explicit index conflict; with neither given, the first available
/// adapter is used.
pub fn resolve_policy(software: bool, adapter_index: Option<u32>) -> (r: Result<
    SelectionPolicy,
    String,
>)
    ensures
        software && adapter_index is Some ==> (r matches Err(e) && e@ == policy_conflict_error()),
        software && adapter_index is None ==> r == Ok::<SelectionPolicy, String>(
            SelectionPolicy::SoftwareFallback,
        ),
        !software ==> (adapter_index matches Some(n) ==> r == Ok::<SelectionPolicy, String>(
            SelectionPolicy::ByIndex(n),
        )),
        !software && adapter_index is None ==> r == Ok::<SelectionPolicy, String>(
            SelectionPolicy::FirstAvailable,
        ),
{
    if software {
        match adapter_index {
            Some(_) => Err(
                String::from_str(
                    "the software adapter and an explicit adapter index are mutually exclusive",
                ),
            ),
            None => Ok(SelectionPolicy::SoftwareFallback),
        }
    } else {
        match adapter_index {
            Some(n) => Ok(SelectionPolicy::ByIndex(n)),
            None => Ok(SelectionPolicy::FirstAvailable),
        }
    }
}

} // verus!
