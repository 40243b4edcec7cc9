//! The startup pipeline: inventory, selection, device negotiation.
//!
//! Enumeration starts at index zero and asks the factory for one adapter
//! at a time until the not-found sentinel (the normal end) or an
//! unexpected failure (an abnormal end that leaves the rest of the
//! inventory unknown).  Each adapter seen gets a display block, marked
//! when the selection policy picks it.  Selection resolves one handle per
//! the policy, and negotiation asks for a device at exactly one feature
//! level.  A null handle out of selection is terminal: no device-create
//! call is attempted on it.

use vstd::prelude::*;

use crate::adapter::{render_adapter_block, spec_adapter_block};
use crate::diag::{invoke_checked, spec_log_line};
use crate::feature::{level_le, FeatureLevel};
use crate::host::{AdapterHandle, DeviceHandle, Factory};
use crate::policy::{is_marked, policy_marks, SelectionPolicy};
use crate::render::{dec_string, spec_dec};
use crate::status::{is_success, succeeded, STATUS_NOT_FOUND};

verus! {

/// One line of the printed inventory: the display block for the adapter
/// at `index`, or the diagnostic for a failed descriptor query.
pub struct ReportEntry {
    pub index: u32,
    /// Whether this adapter is annotated as the selected one.
    pub marked: bool,
    /// The display block, present when the descriptor query succeeded.
    pub block: Option<String>,
    /// The diagnostic log line, present when the descriptor query failed.
    pub diagnostic: Option<String>,
}

/// The outcome of one enumeration pass.
pub struct InventoryReport {
    /// One entry per adapter retrieved, in ascending index order.
    pub entries: Vec<ReportEntry>,
    /// How many enumerate calls the pass made.
    pub calls: u32,
    /// The diagnostic log line of an unexpected enumeration failure; the
    /// pass stopped early and the rest of the inventory is unknown.
    pub aborted: Option<String>,
}

/// How many adapters an enumeration pass retrieves before it ends: all of
/// them, or only those below an injected fault's index.
pub open spec fn spec_visible_count(f: Factory) -> int {
    match f.enum_fault {
        Some(ft) => if ft.index as int <= f.adapters.len() {
            ft.index as int
        } else {
            f.adapters.len() as int
        },
        None => f.adapters.len() as int,
    }
}

/// Whether an enumeration pass ends abnormally instead of on the sentinel.
pub open spec fn spec_enum_aborts(f: Factory) -> bool {
    f.enum_fault matches Some(ft) && ft.index as int <= f.adapters.len()
}

/// The call-site text enumeration failures are logged under.
pub open spec fn spec_enum_site(index: nat) -> Seq<char> {
    "inventory: enumerate adapter #"@ + spec_dec(index)
}

/// The call-site text descriptor-query failures are logged under.
pub open spec fn spec_desc_site(index: nat) -> Seq<char> {
    "inventory: adapter descriptor #"@ + spec_dec(index)
}

/// The call-site text selection failures are logged under.
pub open spec fn spec_select_site(policy: SelectionPolicy) -> Seq<char> {
    match policy {
        SelectionPolicy::ByIndex(n) => "select adapter #"@ + spec_dec(n as nat),
        SelectionPolicy::SoftwareFallback => "select software adapter"@,
        SelectionPolicy::FirstAvailable => "select first adapter"@,
    }
}

/// The call-site text device-creation failures are logged under.
pub open spec fn spec_create_site() -> Seq<char> {
    "create device"@
}

/// What a well-formed report entry for the adapter at `i` holds: the
/// marking rule applied, and either the display block or the diagnostic,
/// by the descriptor query's status.
pub open spec fn entry_wf(f: Factory, policy: SelectionPolicy, e: ReportEntry, i: int) -> bool {
    &&& e.index == i
    &&& e.marked == is_marked(policy, i)
    &&& (is_success(f.adapters[i].descriptor_status) ==> (e.block matches Some(b) && b@
        == spec_adapter_block(f.adapters[i].descriptor, i as nat, is_marked(policy, i))
        && e.diagnostic is None))
    &&& (!is_success(f.adapters[i].descriptor_status) ==> (e.block is None && (e.diagnostic
        matches Some(l) && l@ == spec_log_line(
        spec_desc_site(i as nat),
        f.adapters[i].descriptor_status,
        ""@,
    ))))
}

fn enum_site(index: u32) -> (r: String)
    ensures
        r@ == spec_enum_site(index as nat),
{
    let mut r = String::from_str("inventory: enumerate adapter #");
    let d = dec_string(index as u64);
    r.append(d.as_str());
    r
}

fn desc_site(index: u32) -> (r: String)
    ensures
        r@ == spec_desc_site(index as nat),
{
    let mut r = String::from_str("inventory: adapter descriptor #");
    let d = dec_string(index as u64);
    r.append(d.as_str());
    r
}

fn select_site(policy: SelectionPolicy) -> (r: String)
    ensures
        r@ == spec_select_site(policy),
{
    match policy {
        SelectionPolicy::ByIndex(n) => {
            let mut r = String::from_str("select adapter #");
            let d = dec_string(n as u64);
            r.append(d.as_str());
            r
        },
        SelectionPolicy::SoftwareFallback => String::from_str("select software adapter"),
        SelectionPolicy::FirstAvailable => String::from_str("select first adapter"),
    }
}

/// Walks the enumeration sequence from index zero, rendering one display
/// block per adapter and marking the one the policy selects.  The pass
/// ends on the not-found sentinel after all adapters, or early on an
/// unexpected failure; either way it makes at most one call past the
/// adapters it retrieves.  This pass is purely observational: it resolves
/// no selection and may run before or after selection, or not at all.
pub fn enumerate_and_display(factory: &Factory, policy: SelectionPolicy) -> (r: InventoryReport)
    requires
        factory.wf(),
    ensures
        r.entries.len() == spec_visible_count(*factory),
        r.calls == spec_visible_count(*factory) + 1,
        r.calls <= factory.adapters.len() + 1,
        forall|j: int|
            0 <= j < r.entries.len() ==> entry_wf(*factory, policy, #[trigger] r.entries[j], j),
        spec_enum_aborts(*factory) ==> (r.aborted matches Some(l) && l@ == spec_log_line(
            spec_enum_site(spec_visible_count(*factory) as nat),
            factory.enum_fault.unwrap().status,
            ""@,
        )),
        !spec_enum_aborts(*factory) ==> r.aborted is None,
{
    let mut entries: Vec<ReportEntry> = Vec::new();
    let mut calls: u32 = 0;
    let mut i: u32 = 0;
    let mut aborted: Option<String> = None;
    loop
        invariant_except_break
            factory.wf(),
            entries.len() == i as int,
            calls == i,
            i as int <= spec_visible_count(*factory),
            aborted is None,
            factory.enum_fault matches Some(f) ==> f.index >= i,
            forall|j: int|
                0 <= j < i as int ==> entry_wf(*factory, policy, #[trigger] entries[j], j),
        ensures
            entries.len() == spec_visible_count(*factory),
            calls == spec_visible_count(*factory) + 1,
            forall|j: int|
                0 <= j < entries.len() ==> entry_wf(*factory, policy, #[trigger] entries[j], j),
            spec_enum_aborts(*factory) ==> (aborted matches Some(l) && l@ == spec_log_line(
                spec_enum_site(spec_visible_count(*factory) as nat),
                factory.enum_fault.unwrap().status,
                ""@,
            )),
            !spec_enum_aborts(*factory) ==> aborted is None,
        decreases factory.adapters.len() + 1 - i,
    {
        let (handle, hr) = factory.enumerate_adapters(i);
        calls = calls + 1;
        if succeeded(hr) {
            let marked = policy_marks(policy, i);
            let (desc, dhr) = factory.get_descriptor(handle);
            let site = desc_site(i);
            let (desc, diag) = invoke_checked(site.as_str(), desc, dhr, "");
            let entry = match desc {
                Some(d) => {
                    let block = render_adapter_block(d, i, marked);
                    ReportEntry { index: i, marked, block: Some(block), diagnostic: None }
                },
                None => ReportEntry { index: i, marked, block: None, diagnostic: diag },
            };
            entries.push(entry);
            i = i + 1;
        } else if hr == STATUS_NOT_FOUND {
            break;
        } else {
            let site = enum_site(i);
            let ((), diag) = invoke_checked(site.as_str(), (), hr, "");
            aborted = diag;
            break;
        }
    }
    InventoryReport { entries, calls, aborted }
}

/// The handle and status selection resolves to under a policy: the
/// enumerate answer for an explicit index, the enumerate answer for index
/// zero under first-available, or the software-adapter answer.
pub open spec fn spec_selected(f: Factory, policy: SelectionPolicy) -> (AdapterHandle, u32) {
    match policy {
        SelectionPolicy::ByIndex(n) => f.spec_enumerate(n),
        SelectionPolicy::SoftwareFallback => f.spec_software(),
        SelectionPolicy::FirstAvailable => f.spec_enumerate(0),
    }
}

/// The outcome of selection: the resolved handle, the status it came
/// with, and the diagnostic log line when the call failed.
pub struct SelectionOutcome {
    pub handle: AdapterHandle,
    pub status: u32,
    pub log: Option<String>,
}

/// Resolves exactly one adapter handle per the policy.  A failure leaves
/// the handle null and yields one log line; the caller must treat a null
/// handle as terminal and never hand it to device creation.
pub fn select_adapter(factory: &Factory, policy: SelectionPolicy) -> (r: SelectionOutcome)
    requires
        factory.wf(),
    ensures
        (r.handle, r.status) == spec_selected(*factory, policy),
        r.handle is Null <==> !is_success(r.status),
        is_success(r.status) ==> r.log is None,
        !is_success(r.status) ==> (r.log matches Some(l) && l@ == spec_log_line(
            spec_select_site(policy),
            r.status,
            ""@,
        )),
{
    let (handle, status) = match policy {
        SelectionPolicy::ByIndex(n) => factory.enumerate_adapters(n),
        SelectionPolicy::SoftwareFallback => factory.request_software_adapter(),
        SelectionPolicy::FirstAvailable => factory.enumerate_adapters(0),
    };
    let site = select_site(policy);
    let (handle, log) = invoke_checked(site.as_str(), handle, status, "");
    SelectionOutcome { handle, status, log }
}

/// Law: an explicit index at or past the adapter count never selects an
/// adapter — the handle is null and the status is a failure, whatever
/// fault the host may exhibit at that index.
pub proof fn lemma_selection_by_index_out_of_range(f: Factory, n: u32)
    requires
        f.wf(),
        n as int >= f.adapters.len(),
    ensures
        spec_selected(f, SelectionPolicy::ByIndex(n)).0 is Null,
        !is_success(spec_selected(f, SelectionPolicy::ByIndex(n)).1),
{
}

/// The outcome of device negotiation: the device handle, the status it
/// came with, and the diagnostic log line when the call failed.
pub struct NegotiationOutcome {
    pub device: DeviceHandle,
    pub status: u32,
    pub log: Option<String>,
}

/// Requests a logical device on an adapter at exactly one feature level;
/// there is no downgrade search.  A failure yields a null device and one
/// log line, and is for the caller to escalate.
pub fn negotiate_device(factory: &Factory, adapter: AdapterHandle, requested: FeatureLevel) -> (r:
    NegotiationOutcome)
    ensures
        (r.device, r.status) == factory.spec_create_device(adapter, requested),
        is_success(r.status) ==> (r.log is None && r.device == (DeviceHandle::Bound {
            adapter,
            level: requested,
        })),
        !is_success(r.status) ==> (r.device is Null && (r.log matches Some(l) && l@
            == spec_log_line(spec_create_site(), r.status, ""@))),
{
    let (device, status) = factory.create_device(adapter, requested);
    let (device, log) = invoke_checked("create device", device, status, "");
    NegotiationOutcome { device, status, log }
}

/// Law: against an adapter the platform reports at some highest tier, a
/// device request succeeds with a bound, non-null device exactly when the
/// requested tier does not exceed it, and otherwise fails with a null
/// device.
pub proof fn lemma_feature_level_negotiation(
    f: Factory,
    h: AdapterHandle,
    requested: FeatureLevel,
)
    requires
        f.spec_info_of(h) is Some,
    ensures
        level_le(requested, f.spec_info_of(h).unwrap().max_level) ==> (
        f.spec_create_device(h, requested).0 == (DeviceHandle::Bound {
            adapter: h,
            level: requested,
        }) && is_success(f.spec_create_device(h, requested).1)),
        !level_le(requested, f.spec_info_of(h).unwrap().max_level) ==> (
        f.spec_create_device(h, requested).0 is Null && !is_success(
            f.spec_create_device(h, requested).1,
        )),
{
}

/// How one run ends, after selection and negotiation.
pub enum RunOutcome {
    /// Selection produced a null handle: terminal, no create attempted.
    AdapterSelectionFailed { status: u32, log: String },
    /// The chosen adapter refused the requested level: terminal.
    DeviceCreationFailed { adapter: AdapterHandle, status: u32, log: String },
    /// A device is bound; the handle is the run's product.
    DeviceCreated { adapter: AdapterHandle, device: DeviceHandle },
}

/// Resolves the adapter per the policy and negotiates a device at the
/// requested level: the process-level state machine from selection to a
/// terminal outcome.  Selection failure is terminal before any
/// device-create call; device-creation failure is terminal after it.
pub fn run_startup(factory: &Factory, policy: SelectionPolicy, requested: FeatureLevel) -> (r:
    RunOutcome)
    requires
        factory.wf(),
    ensures
        ({
            let sel = spec_selected(*factory, policy);
            &&& (sel.0 is Null ==> (r matches RunOutcome::AdapterSelectionFailed { status, log }
                && status == sel.1 && log@ == spec_log_line(spec_select_site(policy), sel.1, ""@)))
            &&& (!(sel.0 is Null) ==> ({
                let created = factory.spec_create_device(sel.0, requested);
                &&& (is_success(created.1) ==> r == (RunOutcome::DeviceCreated {
                    adapter: sel.0,
                    device: created.0,
                }))
                &&& (!is_success(created.1) ==> (r matches RunOutcome::DeviceCreationFailed {
                    adapter,
                    status,
                    log,
                } && adapter == sel.0 && status == created.1 && log@ == spec_log_line(
                    spec_create_site(),
                    created.1,
                    ""@,
                )))
            }))
        }),
{
    let sel = select_adapter(factory, policy);
    if sel.handle.is_null() {
        let log = sel.log.unwrap();
        RunOutcome::AdapterSelectionFailed { status: sel.status, log }
    } else {
        let neg = negotiate_device(factory, sel.handle, requested);
        if succeeded(neg.status) {
            RunOutcome::DeviceCreated { adapter: sel.handle, device: neg.device }
        } else {
            let log = neg.log.unwrap();
            RunOutcome::DeviceCreationFailed { adapter: sel.handle, status: neg.status, log }
        }
    }
}

} // verus!
