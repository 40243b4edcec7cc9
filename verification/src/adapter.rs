//! Adapter descriptors and their rendered display blocks.
//!
//! A descriptor is the read-only snapshot the platform returns for one
//! adapter: a vendor-supplied name, four raw identifiers, and three memory
//! sizes in bytes.  The inventory renders one fixed-format block per
//! adapter: identifiers in hexadecimal, memory sizes in whole mebibytes
//! (truncating division), and a leading marker on the selected adapter.

use vstd::prelude::*;

use crate::render::{
    dec_string, hex_lower_string, pad_left, spec_dec, spec_hex_lower, spec_pad_left,
};

verus! {

/// One mebibyte, the unit memory sizes are displayed in.
pub const MIB: u64 = 1024 * 1024;

/// The platform's read-only snapshot of one adapter.
pub struct AdapterDescriptor {
    /// Vendor-supplied description text; the platform hands it as a
    /// wide-unit buffer, decoded at the boundary (see `crate::wide`).
    pub name: String,
    /// Raw platform identifiers, display-only.
    pub vendor_id: u32,
    pub device_id: u32,
    pub subsystem_id: u32,
    pub revision: u32,
    /// Memory sizes in bytes.
    pub dedicated_video_memory: u64,
    pub dedicated_system_memory: u64,
    pub shared_system_memory: u64,
}

/// A byte count as whole mebibytes: truncating division, never rounding.
pub fn to_mib(bytes: u64) -> (r: u64)
    ensures
        r == bytes / MIB,
{
    bytes / MIB
}

/// The marker that opens a display block: a glyph on the selected adapter,
/// a space on every other.
pub open spec fn spec_marker(marked: bool) -> Seq<char> {
    if marked {
        "*"@
    } else {
        " "@
    }
}

/// A raw identifier as displayed: `0x` and lower-case hexadecimal digits.
pub open spec fn spec_hex_field(v: u32) -> Seq<char> {
    "0x"@ + spec_hex_lower(v as nat)
}

/// The fixed-format display block for one adapter.
pub open spec fn spec_adapter_block(d: AdapterDescriptor, index: nat, marked: bool) -> Seq<
    char,
> {
    spec_marker(marked) + " Adapter "@ + spec_dec(index) + ": "@ + d.name@ + "\n"@
        + "    VendorId:      "@ + spec_pad_left(spec_hex_field(d.vendor_id), 10) + "\n"@
        + "    DeviceId:      "@ + spec_pad_left(spec_hex_field(d.device_id), 10) + "\n"@
        + "    SubSysId:      "@ + spec_pad_left(spec_hex_field(d.subsystem_id), 10) + "\n"@
        + "    Revision:      "@ + spec_pad_left(spec_hex_field(d.revision), 10) + "\n"@
        + "    Video Memory:  "@ + spec_pad_left(
        spec_dec((d.dedicated_video_memory / MIB) as nat),
        6,
    ) + " MiB\n"@ + "    System Memory: "@ + spec_pad_left(
        spec_dec((d.dedicated_system_memory / MIB) as nat),
        6,
    ) + " MiB\n"@ + "    Shared Memory: "@ + spec_pad_left(
        spec_dec((d.shared_system_memory / MIB) as nat),
        6,
    ) + " MiB\n"@ + "\n"@
}

fn hex_field(v: u32) -> (r: String)
    ensures
        r@ == spec_hex_field(v),
{
    let mut r = String::from_str("0x");
    let digits = hex_lower_string(v);
    r.append(digits.as_str());
    r
}

/// Renders the display block for one adapter, exactly as
/// `spec_adapter_block` states it.
pub fn render_adapter_block(d: &AdapterDescriptor, index: u32, marked: bool) -> (r: String)
    ensures
        r@ == spec_adapter_block(*d, index as nat, marked),
{
    let mut r = String::new();
    if marked {
        r.append("*");
    } else {
        r.append(" ");
    }
    r.append(" Adapter ");
    let idx = dec_string(index as u64);
    r.append(idx.as_str());
    r.append(": ");
    r.append(d.name.as_str());
    r.append("\n");

    r.append("    VendorId:      ");
    let f = pad_left(hex_field(d.vendor_id), 10);
    r.append(f.as_str());
    r.append("\n");

    r.append("    DeviceId:      ");
    let f = pad_left(hex_field(d.device_id), 10);
    r.append(f.as_str());
    r.append("\n");

    r.append("    SubSysId:      ");
    let f = pad_left(hex_field(d.subsystem_id), 10);
    r.append(f.as_str());
    r.append("\n");

    r.append("    Revision:      ");
    let f = pad_left(hex_field(d.revision), 10);
    r.append(f.as_str());
    r.append("\n");

    r.append("    Video Memory:  ");
    let m = pad_left(dec_string(to_mib(d.dedicated_video_memory)), 6);
    r.append(m.as_str());
    r.append(" MiB\n");

    r.append("    System Memory: ");
    let m = pad_left(dec_string(to_mib(d.dedicated_system_memory)), 6);
    r.append(m.as_str());
    r.append(" MiB\n");

    r.append("    Shared Memory: ");
    let m = pad_left(dec_string(to_mib(d.shared_system_memory)), 6);
    r.append(m.as_str());
    r.append(" MiB\n");

    r.append("\n");
    proof {
        assert(r@ =~= spec_adapter_block(*d, index as nat, marked));
    }
    r
}

/// Law: a display block opens with the marker glyph exactly on the marked
/// adapter, and with a space on every other.
pub proof fn lemma_block_marker(d: AdapterDescriptor, index: nat, marked: bool)
    ensures
        spec_adapter_block(d, index, marked).len() > 0,
        marked ==> spec_adapter_block(d, index, marked)[0] == '*',
        !marked ==> spec_adapter_block(d, index, marked)[0] == ' ',
{
    reveal_strlit("*");
    reveal_strlit(" ");
}

} // verus!
