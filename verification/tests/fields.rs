use pci_range::address::PciAddress;
use pci_range::map::{Cell, PCIMap};

fn full(high: u32, mid: u32, low: u32) -> PCIMap {
    PCIMap {
        high: Some(high),
        mid: Some(mid),
        low: Some(low),
        phy_high: Some(0),
        phy_low: Some(0),
        size_high: Some(0),
        size_low: Some(0),
    }
}

fn empty() -> PCIMap {
    PCIMap::from_cells(&[])
}

#[test]
fn config_address_is_bits_23_to_8() {
    let m = full(0x0012_3456, 0xdead_beef, 0xcafe_f00d);
    assert_eq!(m.address(), Some(PciAddress::Config(0x1234)));
}

#[test]
fn config_address_needs_only_high() {
    let m = PCIMap { high: Some(0x80ff_ff00), ..empty() };
    assert_eq!(m.address(), Some(PciAddress::Config(0xffff)));
}

#[test]
fn config_address_ignores_flag_bits() {
    let m = PCIMap { high: Some(0xe0ab_cd12), ..empty() };
    assert_eq!(m.address(), Some(PciAddress::Config(0xabcd)));
}

#[test]
fn io_address_is_low() {
    let m = full(0x0100_0000, 0x1111_1111, 0x0000_1000);
    assert_eq!(m.address(), Some(PciAddress::IO(0x1000)));
}

#[test]
fn io_address_does_not_need_mid() {
    let m = PCIMap { high: Some(0x8100_0000), low: Some(0xffff_ffff), ..empty() };
    assert_eq!(m.address(), Some(PciAddress::IO(0xffff_ffff)));
}

#[test]
fn mmio32_address_is_low() {
    let m = full(0x0200_0000, 0x1111_1111, 0xe000_0000);
    assert_eq!(m.address(), Some(PciAddress::MMIO32(0xe000_0000)));
}

#[test]
fn mmio64_address_joins_mid_and_low() {
    let m = full(0x0300_0000, 0x0000_0001, 0x8000_0000);
    assert_eq!(m.address(), Some(PciAddress::MMIO64(0x0000_0001_8000_0000)));
}

#[test]
fn mmio64_address_of_largest_halves() {
    let m = full(0xc3ff_ffff, 0xffff_ffff, 0xffff_ffff);
    assert_eq!(m.address(), Some(PciAddress::MMIO64(u64::MAX)));
}

#[test]
fn address_without_high_is_absent() {
    let m = PCIMap { mid: Some(1), low: Some(2), ..empty() };
    assert_eq!(m.address(), None);
}

#[test]
fn io_address_without_low_is_absent() {
    let m = PCIMap { high: Some(0x0100_0000), mid: Some(0), ..empty() };
    assert_eq!(m.address(), None);
}

#[test]
fn mmio32_address_without_low_is_absent() {
    let m = PCIMap { high: Some(0x0200_0000), mid: Some(0), ..empty() };
    assert_eq!(m.address(), None);
}

#[test]
fn mmio64_address_without_mid_is_absent() {
    let m = PCIMap { high: Some(0x0300_0000), low: Some(0), ..empty() };
    assert_eq!(m.address(), None);
}

#[test]
fn mmio64_address_without_low_is_absent() {
    let m = PCIMap { high: Some(0x0300_0000), mid: Some(0), ..empty() };
    assert_eq!(m.address(), None);
}

#[test]
fn relocatable_alone() {
    let m = PCIMap { high: Some(0x8000_0000), ..empty() };
    assert_eq!(m.relocatable(), Some(true));
    assert_eq!(m.prefetchable(), Some(false));
    assert_eq!(m.aliased(), Some(false));
}

#[test]
fn prefetchable_alone() {
    let m = PCIMap { high: Some(0x4000_0000), ..empty() };
    assert_eq!(m.relocatable(), Some(false));
    assert_eq!(m.prefetchable(), Some(true));
    assert_eq!(m.aliased(), Some(false));
}

#[test]
fn aliased_alone() {
    let m = PCIMap { high: Some(0x2000_0000), ..empty() };
    assert_eq!(m.relocatable(), Some(false));
    assert_eq!(m.prefetchable(), Some(false));
    assert_eq!(m.aliased(), Some(true));
}

#[test]
fn no_flag_in_the_lower_bits() {
    let m = PCIMap { high: Some(0x1fff_ffff), ..empty() };
    assert_eq!(m.relocatable(), Some(false));
    assert_eq!(m.prefetchable(), Some(false));
    assert_eq!(m.aliased(), Some(false));
}

#[test]
fn every_combination_of_flags() {
    for bits in 0u32..8 {
        let m = PCIMap { high: Some(bits << 29), ..empty() };
        assert_eq!(m.relocatable(), Some(bits & 4 != 0));
        assert_eq!(m.prefetchable(), Some(bits & 2 != 0));
        assert_eq!(m.aliased(), Some(bits & 1 != 0));
    }
}

#[test]
fn flags_without_high_are_absent() {
    let m = PCIMap { high: None, ..full(0, 0xffff_ffff, 0xffff_ffff) };
    assert_eq!(m.relocatable(), None);
    assert_eq!(m.prefetchable(), None);
    assert_eq!(m.aliased(), None);
}

#[test]
fn check_bit_reads_each_place() {
    assert!(PCIMap::check_bit(1, 0));
    assert!(!PCIMap::check_bit(1, 1));
    assert!(PCIMap::check_bit(0x8000_0000, 31));
    assert!(!PCIMap::check_bit(0x7fff_ffff, 31));
    assert!(PCIMap::check_bit(0x0001_0000, 16));
}

#[test]
fn to_u64_puts_high_above_low() {
    assert_eq!(PCIMap::to_u64(0, 0), 0);
    assert_eq!(PCIMap::to_u64(1, 0), 0x1_0000_0000);
    assert_eq!(PCIMap::to_u64(0, 1), 1);
    assert_eq!(PCIMap::to_u64(0x1234_5678, 0x9abc_def0), 0x1234_5678_9abc_def0);
    assert_eq!(PCIMap::to_u64(0xffff_ffff, 0xffff_ffff), u64::MAX);
}

#[test]
fn physical_addr_joins_its_cells() {
    let m = PCIMap { phy_high: Some(0x12), phy_low: Some(0xf000_0000), ..empty() };
    assert_eq!(m.physical_addr(), Some(0x12_f000_0000));
}

#[test]
fn physical_addr_needs_both_cells() {
    let m = PCIMap { phy_high: None, ..full(0, 0, 0) };
    assert_eq!(m.physical_addr(), None);
    let m = PCIMap { phy_low: None, ..full(0, 0, 0) };
    assert_eq!(m.physical_addr(), None);
}

#[test]
fn physical_addr_does_not_read_other_cells() {
    let m = PCIMap { phy_high: Some(0), phy_low: Some(7), ..empty() };
    assert_eq!(m.physical_addr(), Some(7));
}

#[test]
fn size_joins_its_cells() {
    let m = PCIMap { size_high: Some(0x1), size_low: Some(0x1000), ..empty() };
    assert_eq!(m.size(), Some(0x1_0000_1000));
}

#[test]
fn size_needs_both_cells() {
    let m = PCIMap { size_high: None, ..full(0, 0, 0) };
    assert_eq!(m.size(), None);
    let m = PCIMap { size_low: None, ..full(0, 0, 0) };
    assert_eq!(m.size(), None);
}

#[test]
fn from_cells_fills_by_position() {
    let m = PCIMap::from_cells(&[Some(1), Some(2), Some(3), Some(4), Some(5), Some(6), Some(7)]);
    assert_eq!(
        m,
        PCIMap {
            high: Some(1),
            mid: Some(2),
            low: Some(3),
            phy_high: Some(4),
            phy_low: Some(5),
            size_high: Some(6),
            size_low: Some(7),
        }
    );
}

#[test]
fn from_cells_leaves_the_rest_absent() {
    let m = PCIMap::from_cells(&[Some(1), None, Some(3)]);
    assert_eq!(
        m,
        PCIMap {
            high: Some(1),
            mid: None,
            low: Some(3),
            phy_high: None,
            phy_low: None,
            size_high: None,
            size_low: None,
        }
    );
}

#[test]
fn from_cells_of_nothing_is_all_absent() {
    let m = PCIMap::from_cells(&[]);
    assert_eq!(m.first_absent(), Some(Cell::High));
    assert_eq!(m.address(), None);
    assert_eq!(m.physical_addr(), None);
    assert_eq!(m.size(), None);
    assert_eq!(m.relocatable(), None);
}

#[test]
fn from_cells_stops_at_the_seventh() {
    let m = PCIMap::from_cells(&[
        Some(1),
        Some(2),
        Some(3),
        Some(4),
        Some(5),
        Some(6),
        Some(7),
        Some(8),
        None,
    ]);
    assert_eq!(m.size_low, Some(7));
    assert_eq!(m.first_absent(), None);
}

#[test]
fn absent_cell_is_not_zero() {
    let zero = PCIMap { phy_high: Some(0), phy_low: Some(0), ..empty() };
    let absent = PCIMap { phy_high: Some(0), phy_low: None, ..empty() };
    assert_eq!(zero.physical_addr(), Some(0));
    assert_eq!(absent.physical_addr(), None);
}

#[test]
fn first_absent_goes_by_position() {
    let all = full(0, 0, 0);
    assert_eq!(all.first_absent(), None);
    assert_eq!(PCIMap { high: None, ..all }.first_absent(), Some(Cell::High));
    assert_eq!(PCIMap { mid: None, ..all }.first_absent(), Some(Cell::Mid));
    assert_eq!(PCIMap { low: None, ..all }.first_absent(), Some(Cell::Low));
    assert_eq!(PCIMap { phy_high: None, ..all }.first_absent(), Some(Cell::PhyHigh));
    assert_eq!(PCIMap { phy_low: None, ..all }.first_absent(), Some(Cell::PhyLow));
    assert_eq!(PCIMap { size_high: None, ..all }.first_absent(), Some(Cell::SizeHigh));
    assert_eq!(PCIMap { size_low: None, ..all }.first_absent(), Some(Cell::SizeLow));
    assert_eq!(PCIMap { mid: None, size_low: None, ..all }.first_absent(), Some(Cell::Mid));
}
