//! The seven cells of one range, and the fields read from them.

use vstd::prelude::*;
use crate::address::PciAddress;
use crate::word::{
    bdf, bit_is_set, join, lemma_join, lemma_selector, selector, space, ALIASED_BIT,
    PREFETCHABLE_BIT, RELOCATABLE_BIT,
};

verus! {

/// The seven cells of a range, in the order in which they are given.
#[derive(Debug, Clone, Copy, PartialEq, Eq, Structural)]
pub enum Cell {
    /// First cell of the PCI address.
    High,
    /// Second cell of the PCI address.
    Mid,
    /// Third cell of the PCI address.
    Low,
    /// Upper half of the physical address.
    PhyHigh,
    /// Lower half of the physical address.
    PhyLow,
    /// Upper half of the size.
    SizeHigh,
    /// Lower half of the size.
    SizeLow,
}

impl Cell {
    /// The place of the cell among the seven, counted from zero.
    pub open spec fn position(self) -> int {
        match self {
            Cell::High => 0,
            Cell::Mid => 1,
            Cell::Low => 2,
            Cell::PhyHigh => 3,
            Cell::PhyLow => 4,
            Cell::SizeHigh => 5,
            Cell::SizeLow => 6,
        }
    }
}

/// The cell at place `i` of a list of cells; absent where the list ends
/// before it.
pub open spec fn cell_at(cells: Seq<Option<u32>>, i: int) -> Option<u32> {
    if 0 <= i < cells.len() {
        cells[i]
    } else {
        None
    }
}

/// One entry of a PCI `ranges` property, cell by cell.
///
/// A cell that was not supplied, or that could not be read as a number, is
/// `None`. It never counts as zero: every field that needs it is absent too.
#[derive(Debug, Clone, Copy, PartialEq, Eq, Structural)]
pub struct PCIMap {
    /// First cell of the PCI address: flags, address space and identifier.
    pub high: Option<u32>,
    /// Second cell of the PCI address: upper half of a 64-bit address.
    pub mid: Option<u32>,
    /// Third cell of the PCI address: the address, or its lower half.
    pub low: Option<u32>,
    /// Upper half of the physical address.
    pub phy_high: Option<u32>,
    /// Lower half of the physical address.
    pub phy_low: Option<u32>,
    /// Upper half of the size.
    pub size_high: Option<u32>,
    /// Lower half of the size.
    pub size_low: Option<u32>,
}

impl PCIMap {
    /// The cell `c` of this range.
    pub open spec fn cell(&self, c: Cell) -> Option<u32> {
        match c {
            Cell::High => self.high,
            Cell::Mid => self.mid,
            Cell::Low => self.low,
            Cell::PhyHigh => self.phy_high,
            Cell::PhyLow => self.phy_low,
            Cell::SizeHigh => self.size_high,
            Cell::SizeLow => self.size_low,
        }
    }

    /// The range whose cells are those of the list, each at its place. A
    /// cell for which the list is too short is absent; what the list holds
    /// beyond the seventh cell is not looked at.
    pub open spec fn spec_from_cells(cells: Seq<Option<u32>>) -> PCIMap {
        PCIMap {
            high: cell_at(cells, 0),
            mid: cell_at(cells, 1),
            low: cell_at(cells, 2),
            phy_high: cell_at(cells, 3),
            phy_low: cell_at(cells, 4),
            size_high: cell_at(cells, 5),
            size_low: cell_at(cells, 6),
        }
    }

    /// Builds a range from a list of cells. Nothing is checked here: each
    /// field asks for the cells it needs when it is read.
    pub fn from_cells(cells: &[Option<u32>]) -> (m: PCIMap)
        ensures
            m == PCIMap::spec_from_cells(cells@),
            forall|c: Cell| #[trigger] m.cell(c) == cell_at(cells@, c.position()),
    {
        let n: usize = cells.len();
        PCIMap {
            high: if 0 < n { cells[0] } else { None },
            mid: if 1 < n { cells[1] } else { None },
            low: if 2 < n { cells[2] } else { None },
            phy_high: if 3 < n { cells[3] } else { None },
            phy_low: if 4 < n { cells[4] } else { None },
            size_high: if 5 < n { cells[5] } else { None },
            size_low: if 6 < n { cells[6] } else { None },
        }
    }

    /// The first cell, in the order of the cells, that is absent.
    pub open spec fn spec_first_absent(&self) -> Option<Cell> {
        if self.high is None {
            Some(Cell::High)
        } else if self.mid is None {
            Some(Cell::Mid)
        } else if self.low is None {
            Some(Cell::Low)
        } else if self.phy_high is None {
            Some(Cell::PhyHigh)
        } else if self.phy_low is None {
            Some(Cell::PhyLow)
        } else if self.size_high is None {
            Some(Cell::SizeHigh)
        } else if self.size_low is None {
            Some(Cell::SizeLow)
        } else {
            None
        }
    }

    /// Finds the first cell that is absent, whether or not a field needs it.
    pub fn first_absent(&self) -> (r: Option<Cell>)
        ensures
            r == self.spec_first_absent(),
            r matches Some(c) ==> self.cell(c) is None && forall|b: Cell|
                b.position() < c.position() ==> (#[trigger] self.cell(b)) is Some,
            r is None <==> forall|c: Cell| (#[trigger] self.cell(c)) is Some,
    {
        let r = if self.high.is_none() {
            Some(Cell::High)
        } else if self.mid.is_none() {
            Some(Cell::Mid)
        } else if self.low.is_none() {
            Some(Cell::Low)
        } else if self.phy_high.is_none() {
            Some(Cell::PhyHigh)
        } else if self.phy_low.is_none() {
            Some(Cell::PhyLow)
        } else if self.size_high.is_none() {
            Some(Cell::SizeHigh)
        } else if self.size_low.is_none() {
            Some(Cell::SizeLow)
        } else {
            None
        };
        proof {
            if r is Some {
                assert(self.cell(r->0) is None);
            }
        }
        r
    }

    /// The PCI address that the first three cells describe, if every cell
    /// that its address space needs is present.
    ///
    /// Configuration space needs `high` alone; I/O and 32-bit memory space
    /// need `high` and `low`; 64-bit memory space needs `high`, `mid` and
    /// `low`.
    pub open spec fn spec_address(&self) -> Option<PciAddress> {
        match self.high {
            None => None,
            Some(high) => if selector(high) == 0 {
                Some(PciAddress::Config(bdf(high)))
            } else if selector(high) == 1 {
                match self.low {
                    Some(low) => Some(PciAddress::IO(low)),
                    None => None,
                }
            } else if selector(high) == 2 {
                match self.low {
                    Some(low) => Some(PciAddress::MMIO32(low)),
                    None => None,
                }
            } else {
                match (self.mid, self.low) {
                    (Some(mid), Some(low)) => Some(PciAddress::MMIO64(join(mid, low))),
                    _ => None,
                }
            },
        }
    }

    /// A flag of the first cell, if that cell is present.
    pub open spec fn spec_flag(&self, n: usize) -> Option<bool> {
        match self.high {
            Some(high) => Some(bit_is_set(high, n)),
            None => None,
        }
    }

    /// The physical address, if both of its cells are present.
    pub open spec fn spec_physical_addr(&self) -> Option<u64> {
        match (self.phy_high, self.phy_low) {
            (Some(high), Some(low)) => Some(join(high, low)),
            _ => None,
        }
    }

    /// The size, if both of its cells are present.
    pub open spec fn spec_size(&self) -> Option<u64> {
        match (self.size_high, self.size_low) {
            (Some(high), Some(low)) => Some(join(high, low)),
            _ => None,
        }
    }

    /// Decodes the PCI address.
    pub fn address(&self) -> (r: Option<PciAddress>)
        ensures
            r == self.spec_address(),
            r is None <==> (self.high is None || (selector(self.high->0) != 0 && self.low is None)
                || (selector(self.high->0) == 3 && self.mid is None)),
            self.high is Some && selector(self.high->0) == 0 ==> r == Some(
                PciAddress::Config(bdf(self.high->0)),
            ),
            self.high is Some && selector(self.high->0) == 1 && self.low is Some ==> r == Some(
                PciAddress::IO(self.low->0),
            ),
            self.high is Some && selector(self.high->0) == 2 && self.low is Some ==> r == Some(
                PciAddress::MMIO32(self.low->0),
            ),
            self.high is Some && selector(self.high->0) == 3 && self.mid is Some && self.low is Some
                ==> r == Some(
                PciAddress::MMIO64(((self.mid->0 as u64) << 32) | (self.low->0 as u64)),
            ),
    {
        let high: u32 = self.high?;
        let space: u32 = space(high);
        if space == 0 {
            let id: u32 = (high >> 8) & 0xffff;
            assert(id <= 0xffff) by (bit_vector)
                requires
                    id == (high >> 8) & 0xffff,
            ;
            Some(PciAddress::Config(id as u16))
        } else if space == 1 {
            Some(PciAddress::IO(self.low?))
        } else if space == 2 {
            Some(PciAddress::MMIO32(self.low?))
        } else {
            Some(PciAddress::MMIO64(Self::to_u64(self.mid?, self.low?)))
        }
    }

    /// Whether bit `n` of `i` is set.
    pub fn check_bit(i: u32, n: usize) -> (r: bool)
        requires
            n < 32,
        ensures
            r == bit_is_set(i, n),
    {
        (i >> n) & 0x1 != 0
    }

    /// Whether the range may be relocated: bit 31 of the first cell.
    pub fn relocatable(&self) -> (r: Option<bool>)
        ensures
            r == self.spec_flag(RELOCATABLE_BIT),
            r is None <==> self.high is None,
    {
        Some(Self::check_bit(self.high?, RELOCATABLE_BIT))
    }

    /// Whether the range may be prefetched: bit 30 of the first cell.
    pub fn prefetchable(&self) -> (r: Option<bool>)
        ensures
            r == self.spec_flag(PREFETCHABLE_BIT),
            r is None <==> self.high is None,
    {
        Some(Self::check_bit(self.high?, PREFETCHABLE_BIT))
    }

    /// Whether the address is aliased: bit 29 of the first cell.
    pub fn aliased(&self) -> (r: Option<bool>)
        ensures
            r == self.spec_flag(ALIASED_BIT),
            r is None <==> self.high is None,
    {
        Some(Self::check_bit(self.high?, ALIASED_BIT))
    }

    /// Joins two cells into a 64-bit value, `h` above `l`.
    pub fn to_u64(h: u32, l: u32) -> (r: u64)
        ensures
            r == join(h, l),
    {
        proof {
            lemma_join(h, l);
        }
        ((h as u64) << 32) + l as u64
    }

    /// The physical address that the range is mapped to.
    pub fn physical_addr(&self) -> (r: Option<u64>)
        ensures
            r == self.spec_physical_addr(),
            r is None <==> (self.phy_high is None || self.phy_low is None),
            self.phy_high is Some && self.phy_low is Some ==> r == Some(
                ((self.phy_high->0 as u64) << 32) | (self.phy_low->0 as u64),
            ),
    {
        Some(Self::to_u64(self.phy_high?, self.phy_low?))
    }

    /// The size of the range.
    pub fn size(&self) -> (r: Option<u64>)
        ensures
            r == self.spec_size(),
            r is None <==> (self.size_high is None || self.size_low is None),
            self.size_high is Some && self.size_low is Some ==> r == Some(
                ((self.size_high->0 as u64) << 32) | (self.size_low->0 as u64),
            ),
    {
        Some(Self::to_u64(self.size_high?, self.size_low?))
    }
}

/// Each field reads only the cells it needs: two ranges that agree on those
/// cells agree on the field, whatever their other cells hold.
pub proof fn lemma_fields_read_only_their_cells(a: PCIMap, b: PCIMap)
    ensures
        a.high == b.high && a.high is Some && selector(a.high->0) == 0 ==> a.spec_address()
            == b.spec_address(),
        a.high == b.high && a.low == b.low && a.high is Some && selector(a.high->0) != 3
            ==> a.spec_address() == b.spec_address(),
        a.high == b.high && a.mid == b.mid && a.low == b.low ==> a.spec_address()
            == b.spec_address(),
        a.high == b.high ==> forall|n: usize| a.spec_flag(n) == b.spec_flag(n),
        a.phy_high == b.phy_high && a.phy_low == b.phy_low ==> a.spec_physical_addr()
            == b.spec_physical_addr(),
        a.size_high == b.size_high && a.size_low == b.size_low ==> a.spec_size() == b.spec_size(),
{
    if a.high is Some {
        lemma_selector(a.high->0);
    }
}

} // verus!
