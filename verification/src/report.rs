//! Everything that one range says, decoded, and the lines that show it.

use vstd::prelude::*;
use vstd::string::StringExecFns;
use crate::address::PciAddress;
use crate::hex::{hex, hex_padded, to_hex, to_hex_padded};

verus! {

/// The decoded fields of one range.
#[derive(Debug, Clone, Copy, PartialEq, Eq, Structural)]
pub struct Report {
    /// The address on the PCI side.
    pub address: PciAddress,
    /// The address on the parent's side.
    pub physical_addr: u64,
    /// The length of the range.
    pub size: u64,
    /// Whether the range may be relocated.
    pub relocatable: bool,
    /// Whether the range may be prefetched.
    pub prefetchable: bool,
    /// Whether the address is aliased.
    pub aliased: bool,
}

/// A flag as text.
pub open spec fn bool_text(b: bool) -> Seq<char> {
    if b {
        "true"@
    } else {
        "false"@
    }
}

/// Writes a flag as text.
fn bool_str(b: bool) -> (s: &'static str)
    ensures
        s@ == bool_text(b),
{
    if b {
        "true"
    } else {
        "false"
    }
}

impl Report {
    /// The four lines that show a range: the PCI address; the physical
    /// address, in sixteen hexadecimal digits; the size, in as many digits
    /// as it takes; the three flags.
    pub open spec fn spec_lines(&self) -> Seq<Seq<char>> {
        seq![
            "PciAddress: "@ + self.address.spec_render(),
            "PhysicalAddress: 0x"@ + hex_padded(self.physical_addr as nat, 16),
            "Size: 0x"@ + hex(self.size as nat),
            "relocatable: "@ + bool_text(self.relocatable) + ", prefetchable: "@ + bool_text(
                self.prefetchable,
            ) + ", aliased: "@ + bool_text(self.aliased),
        ]
    }

    /// Writes the four lines that show the range.
    pub fn lines(&self) -> (lines: Vec<String>)
        ensures
            lines.deep_view() == self.spec_lines(),
            lines@.len() == 4,
    {
        let address = String::from_str("PciAddress: ").concat(self.address.render().as_str());
        let physical = String::from_str("PhysicalAddress: 0x").concat(
            to_hex_padded(self.physical_addr, 16).as_str(),
        );
        let size = String::from_str("Size: 0x").concat(to_hex(self.size).as_str());
        let flags = String::from_str("relocatable: ");
        let flags = flags.concat(bool_str(self.relocatable));
        let flags = flags.concat(", prefetchable: ");
        let flags = flags.concat(bool_str(self.prefetchable));
        let flags = flags.concat(", aliased: ");
        let flags = flags.concat(bool_str(self.aliased));
        let mut lines: Vec<String> = Vec::new();
        lines.push(address);
        lines.push(physical);
        lines.push(size);
        lines.push(flags);
        assert(lines.deep_view() =~= self.spec_lines());
        lines
    }
}

} // verus!
