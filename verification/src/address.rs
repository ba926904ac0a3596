//! The PCI side of a range: an address in one of the four PCI address spaces.

use vstd::prelude::*;
use vstd::string::StringExecFns;
use crate::hex::{hex_padded, lemma_hex_padded_len, pow16, to_hex_padded};

verus! {

/// A decoded PCI address. The variant is the address space that the first
/// cell selects; each carries only what that space needs.
#[derive(Debug, Clone, Copy, PartialEq, Eq, Structural)]
pub enum PciAddress {
    /// An address in I/O space.
    IO(u32),
    /// A configuration-space address: the bus/device/function identifier.
    Config(u16),
    /// An address in 32-bit memory space.
    MMIO32(u32),
    /// An address in 64-bit memory space.
    MMIO64(u64),
}

/// The bus number of an identifier: its upper eight bits.
pub open spec fn bus(bdf: u16) -> u16 {
    bdf >> 8
}

/// The device number of an identifier: bits 7 down to 3.
pub open spec fn device(bdf: u16) -> u16 {
    (bdf & 0xff) >> 3
}

/// What is shown as the function of an identifier: bit 3 alone, left in
/// its place, so either 0 or 8. The lower three bits are not shown.
pub open spec fn func(bdf: u16) -> u16 {
    bdf & 0x8
}

/// The three parts of an identifier fit the widths they are shown with: two
/// digits for the bus, two for the device, one for the function.
pub proof fn lemma_bdf_parts(bdf: u16)
    ensures
        bus(bdf) <= 0xff,
        bus(bdf) == bdf / 0x100,
        device(bdf) <= 0x1f,
        device(bdf) == (bdf / 8) % 32,
        func(bdf) == 0 || func(bdf) == 8,
        func(bdf) == 8 <==> (bdf / 8) % 2 == 1,
{
    assert(bdf >> 8 <= 0xff && bdf >> 8 == bdf / 0x100) by (bit_vector);
    assert((bdf & 0xff) >> 3 <= 0x1f && (bdf & 0xff) >> 3 == (bdf / 8) % 32) by (bit_vector);
    assert((bdf & 0x8 == 0 || bdf & 0x8 == 8) && (bdf & 0x8 == 8 <==> (bdf / 8) % 2 == 1))
        by (bit_vector);
}

impl PciAddress {
    /// The address as text: the name of its address space, and in brackets
    /// the value in hexadecimal, padded with zeros to the width of that
    /// space. A configuration address shows bus, device and function apart.
    pub open spec fn spec_render(&self) -> Seq<char> {
        match *self {
            PciAddress::IO(io) => "IO(0x"@ + hex_padded(io as nat, 8) + ")"@,
            PciAddress::Config(bdf) => "Config(Bus(0x"@ + hex_padded(bus(bdf) as nat, 2)
                + "), Device(0x"@ + hex_padded(device(bdf) as nat, 2) + "), Func(0x"@ + hex_padded(
                func(bdf) as nat,
                1,
            ) + "))"@,
            PciAddress::MMIO32(a32) => "MMIO32(0x"@ + hex_padded(a32 as nat, 8) + ")"@,
            PciAddress::MMIO64(a64) => "MMIO64(0x"@ + hex_padded(a64 as nat, 16) + ")"@,
        }
    }

    /// Writes the address as text.
    pub fn render(&self) -> (s: String)
        ensures
            s@ == self.spec_render(),
    {
        match *self {
            PciAddress::IO(io) => {
                let s = String::from_str("IO(0x");
                let s = s.concat(to_hex_padded(io as u64, 8).as_str());
                s.concat(")")
            },
            PciAddress::Config(bdf) => {
                let s = String::from_str("Config(Bus(0x");
                let s = s.concat(to_hex_padded((bdf >> 8) as u64, 2).as_str());
                let s = s.concat("), Device(0x");
                let s = s.concat(to_hex_padded(((bdf & 0xff) >> 3) as u64, 2).as_str());
                let s = s.concat("), Func(0x");
                let s = s.concat(to_hex_padded((bdf & 0x8) as u64, 1).as_str());
                s.concat("))")
            },
            PciAddress::MMIO32(a32) => {
                let s = String::from_str("MMIO32(0x");
                let s = s.concat(to_hex_padded(a32 as u64, 8).as_str());
                s.concat(")")
            },
            PciAddress::MMIO64(a64) => {
                let s = String::from_str("MMIO64(0x");
                let s = s.concat(to_hex_padded(a64, 16).as_str());
                s.concat(")")
            },
        }
    }
}

/// Every value fits the width it is shown with, so the text of an address
/// has a length that depends on its address space alone.
pub proof fn lemma_render_len(address: PciAddress)
    ensures
        address.spec_render().len() == match address {
            PciAddress::IO(_) => 14nat,
            PciAddress::Config(_) => 42nat,
            PciAddress::MMIO32(_) => 18nat,
            PciAddress::MMIO64(_) => 26nat,
        },
{
    reveal_with_fuel(pow16, 17);
    match address {
        PciAddress::IO(io) => {
            reveal_strlit("IO(0x");
            reveal_strlit(")");
            lemma_hex_padded_len(io as nat, 8);
        },
        PciAddress::Config(bdf) => {
            reveal_strlit("Config(Bus(0x");
            reveal_strlit("), Device(0x");
            reveal_strlit("), Func(0x");
            reveal_strlit("))");
            lemma_bdf_parts(bdf);
            lemma_hex_padded_len(bus(bdf) as nat, 2);
            lemma_hex_padded_len(device(bdf) as nat, 2);
            lemma_hex_padded_len(func(bdf) as nat, 1);
        },
        PciAddress::MMIO32(a32) => {
            reveal_strlit("MMIO32(0x");
            reveal_strlit(")");
            lemma_hex_padded_len(a32 as nat, 8);
        },
        PciAddress::MMIO64(a64) => {
            reveal_strlit("MMIO64(0x");
            reveal_strlit(")");
            lemma_hex_padded_len(a64 as nat, 16);
        },
    }
}

} // verus!
