//! The fields of a range, read so that a failure names the cell that is
//! missing.

use vstd::prelude::*;
use crate::address::PciAddress;
use crate::error::DecodeError;
use crate::map::{Cell, PCIMap};
use crate::report::Report;
use crate::word::{
    lemma_selector, selector, space, ALIASED_BIT, PREFETCHABLE_BIT, RELOCATABLE_BIT,
};

verus! {

impl PCIMap {
    /// The first cell, in the order of the cells, that the PCI address needs
    /// and that is absent.
    pub open spec fn address_missing(&self) -> Option<Cell> {
        if self.high is None {
            Some(Cell::High)
        } else if selector(self.high->0) == 3 && self.mid is None {
            Some(Cell::Mid)
        } else if selector(self.high->0) != 0 && self.low is None {
            Some(Cell::Low)
        } else {
            None
        }
    }

    /// The first cell that the physical address needs and that is absent.
    pub open spec fn physical_addr_missing(&self) -> Option<Cell> {
        if self.phy_high is None {
            Some(Cell::PhyHigh)
        } else if self.phy_low is None {
            Some(Cell::PhyLow)
        } else {
            None
        }
    }

    /// The first cell that the size needs and that is absent.
    pub open spec fn size_missing(&self) -> Option<Cell> {
        if self.size_high is None {
            Some(Cell::SizeHigh)
        } else if self.size_low is None {
            Some(Cell::SizeLow)
        } else {
            None
        }
    }

    /// The PCI address, or the error that names the cell it misses.
    pub open spec fn spec_try_address(&self) -> Result<PciAddress, DecodeError> {
        match self.spec_address() {
            Some(address) => Ok(address),
            None => Err(DecodeError::MissingField(self.address_missing()->0)),
        }
    }

    /// The flag at bit `n` of the first cell, or the error that names that
    /// cell as missing.
    pub open spec fn spec_try_flag(&self, n: usize) -> Result<bool, DecodeError> {
        match self.spec_flag(n) {
            Some(flag) => Ok(flag),
            None => Err(DecodeError::MissingField(Cell::High)),
        }
    }

    /// The physical address, or the error that names the cell it misses.
    pub open spec fn spec_try_physical_addr(&self) -> Result<u64, DecodeError> {
        match self.spec_physical_addr() {
            Some(address) => Ok(address),
            None => Err(DecodeError::MissingField(self.physical_addr_missing()->0)),
        }
    }

    /// The size, or the error that names the cell it misses.
    pub open spec fn spec_try_size(&self) -> Result<u64, DecodeError> {
        match self.spec_size() {
            Some(size) => Ok(size),
            None => Err(DecodeError::MissingField(self.size_missing()->0)),
        }
    }

    /// Whether the report of this range reads the cell `c`. Which cells of
    /// the PCI address are read depends on the address space; the cells of
    /// the physical address and of the size always are.
    pub open spec fn needs(&self, c: Cell) -> bool {
        match c {
            Cell::Mid => self.high is Some && selector(self.high->0) == 3,
            Cell::Low => self.high is Some && selector(self.high->0) != 0,
            _ => true,
        }
    }

    /// The first cell, in the order of the cells, that the report needs and
    /// that is absent: the one that the address misses, else the one that
    /// the physical address misses, else the one that the size misses.
    pub open spec fn first_missing(&self) -> Option<Cell> {
        if self.address_missing() is Some {
            self.address_missing()
        } else if self.physical_addr_missing() is Some {
            self.physical_addr_missing()
        } else {
            self.size_missing()
        }
    }

    /// The report of this range: all of its fields where no cell that they
    /// need is absent, and else the error that names the first such cell.
    pub open spec fn spec_report(&self) -> Result<Report, DecodeError> {
        match self.first_missing() {
            Some(c) => Err(DecodeError::MissingField(c)),
            None => Ok(
                Report {
                    address: self.spec_address()->0,
                    physical_addr: self.spec_physical_addr()->0,
                    size: self.spec_size()->0,
                    relocatable: self.spec_flag(RELOCATABLE_BIT)->0,
                    prefetchable: self.spec_flag(PREFETCHABLE_BIT)->0,
                    aliased: self.spec_flag(ALIASED_BIT)->0,
                },
            ),
        }
    }

    /// Decodes the PCI address, or names the first cell that it needs and
    /// that is absent.
    pub fn try_address(&self) -> (r: Result<PciAddress, DecodeError>)
        ensures
            r == self.spec_try_address(),
            r is Ok <==> self.address_missing() is None,
    {
        match self.address() {
            Some(address) => Ok(address),
            None => match self.high {
                None => Err(DecodeError::MissingField(Cell::High)),
                Some(high) => if space(high) == 3 && self.mid.is_none() {
                    Err(DecodeError::MissingField(Cell::Mid))
                } else {
                    Err(DecodeError::MissingField(Cell::Low))
                },
            },
        }
    }

    /// Whether the range may be relocated, or the first cell named as
    /// missing.
    pub fn try_relocatable(&self) -> (r: Result<bool, DecodeError>)
        ensures
            r == self.spec_try_flag(RELOCATABLE_BIT),
    {
        match self.relocatable() {
            Some(flag) => Ok(flag),
            None => Err(DecodeError::MissingField(Cell::High)),
        }
    }

    /// Whether the range may be prefetched, or the first cell named as
    /// missing.
    pub fn try_prefetchable(&self) -> (r: Result<bool, DecodeError>)
        ensures
            r == self.spec_try_flag(PREFETCHABLE_BIT),
    {
        match self.prefetchable() {
            Some(flag) => Ok(flag),
            None => Err(DecodeError::MissingField(Cell::High)),
        }
    }

    /// Whether the address is aliased, or the first cell named as missing.
    pub fn try_aliased(&self) -> (r: Result<bool, DecodeError>)
        ensures
            r == self.spec_try_flag(ALIASED_BIT),
    {
        match self.aliased() {
            Some(flag) => Ok(flag),
            None => Err(DecodeError::MissingField(Cell::High)),
        }
    }

    /// Decodes the physical address, or names the first of its cells that
    /// is absent.
    pub fn try_physical_addr(&self) -> (r: Result<u64, DecodeError>)
        ensures
            r == self.spec_try_physical_addr(),
            r is Ok <==> self.physical_addr_missing() is None,
    {
        match self.physical_addr() {
            Some(address) => Ok(address),
            None => if self.phy_high.is_none() {
                Err(DecodeError::MissingField(Cell::PhyHigh))
            } else {
                Err(DecodeError::MissingField(Cell::PhyLow))
            },
        }
    }

    /// Decodes the size, or names the first of its cells that is absent.
    pub fn try_size(&self) -> (r: Result<u64, DecodeError>)
        ensures
            r == self.spec_try_size(),
            r is Ok <==> self.size_missing() is None,
    {
        match self.size() {
            Some(size) => Ok(size),
            None => if self.size_high.is_none() {
                Err(DecodeError::MissingField(Cell::SizeHigh))
            } else {
                Err(DecodeError::MissingField(Cell::SizeLow))
            },
        }
    }

    /// Decodes every field of the range, or names the first cell that is
    /// needed and absent. No field is given unless all of them can be.
    pub fn report(&self) -> (r: Result<Report, DecodeError>)
        ensures
            r == self.spec_report(),
            r is Ok <==> self.spec_address() is Some && self.spec_physical_addr() is Some
                && self.spec_size() is Some,
            r is Err ==> r->Err_0 is MissingField && self.needs(r->Err_0->MissingField_0)
                && self.cell(r->Err_0->MissingField_0) is None,
    {
        let address = self.try_address()?;
        let physical_addr: u64 = self.try_physical_addr()?;
        let size: u64 = self.try_size()?;
        let relocatable = self.try_relocatable()?;
        let prefetchable = self.try_prefetchable()?;
        let aliased = self.try_aliased()?;
        Ok(Report { address, physical_addr, size, relocatable, prefetchable, aliased })
    }
}

/// The cell that a report names is the first that it needs and lacks: every
/// cell before it is present or not needed. A report is given exactly when
/// no cell that it needs is absent, which is when the address, the physical
/// address and the size can each be read.
pub proof fn lemma_first_missing(map: PCIMap)
    ensures
        map.first_missing() matches Some(c) ==> map.needs(c) && map.cell(c) is None && forall|
            b: Cell,
        |
            b.position() < c.position() && map.needs(b) ==> (#[trigger] map.cell(b)) is Some,
        map.first_missing() is None <==> forall|c: Cell|
            map.needs(c) ==> (#[trigger] map.cell(c)) is Some,
        map.first_missing() is None <==> map.spec_address() is Some && map.spec_physical_addr()
            is Some && map.spec_size() is Some,
{
    if map.high is Some {
        lemma_selector(map.high->0);
    }
    if map.first_missing() is Some {
        let c = map.first_missing()->0;
        assert(map.needs(c) && map.cell(c) is None);
    }
}

/// A range with no absent cell has a report.
pub proof fn lemma_complete_map_reports(map: PCIMap)
    requires
        map.spec_first_absent() is None,
    ensures
        map.first_missing() is None,
        map.spec_report() is Ok,
{
}

} // verus!
