//! Decoding of one PCI `ranges` entry of a device tree: seven 32-bit cells
//! that give a PCI address, the physical address it is mapped to, the size of
//! the window and three attribute flags.
//!
//! [`map::PCIMap`] holds the cells and reads each field from the cells that
//! the field needs; [`checked`] reads the same fields and names the cell
//! that is missing. [`address::PciAddress`] and [`report::Report`] say how
//! the fields are shown, [`parse`] and [`hex`] how a cell is read and a
//! value is written, and [`cli`] puts these together for one invocation.

pub mod address;
pub mod checked;
pub mod cli;
pub mod error;
pub mod hex;
pub mod map;
pub mod parse;
pub mod report;
pub mod word;
