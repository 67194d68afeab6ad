use machine_parts::CPUSocket;
use machine_parts::CapacityError;
use machine_parts::Motherboard;
use machine_parts::PartMetadata;
use machine_parts::RAMType;

fn board(id: &str, ram_slots: u8, pci_slots: u8) -> Motherboard {
    Motherboard::new(
        PartMetadata::new(
            "X670E Test".to_string(),
            "Acme".to_string(),
            250,
            id.to_string(),
        ),
        CPUSocket::AM5,
        "X670E".to_string(),
        RAMType::DDR5,
        ram_slots,
        pci_slots,
    )
}

#[test]
fn new_board_starts_empty() {
    let b = board("b0", 4, 2);
    assert_eq!(b.get_used_ram_slots(), 0);
    assert_eq!(b.get_used_pci_slots(), 0);
    assert_eq!(b.get_ram_slots(), 4);
    assert_eq!(b.get_pci_slots(), 2);
}

#[test]
fn metadata_is_kept() {
    let b = board("b1", 4, 2);
    assert_eq!(b.base.get_id(), "b1");
    assert_eq!(b.base.model, "X670E Test");
    assert_eq!(b.base.manufacturer, "Acme");
    assert_eq!(b.base.price, 250);
    assert_eq!(b.chipset, "X670E");
}

#[test]
fn set_ram_within_capacity_updates() {
    let mut b = board("b2", 4, 2);
    assert_eq!(b.set_used_ram_slots(3), Ok(()));
    assert_eq!(b.get_used_ram_slots(), 3);
    assert_eq!(b.set_used_ram_slots(1), Ok(()));
    assert_eq!(b.get_used_ram_slots(), 1);
}

#[test]
fn set_ram_exact_fill_succeeds() {
    let mut b = board("b3", 4, 2);
    assert_eq!(b.set_used_ram_slots(4), Ok(()));
    assert_eq!(b.get_used_ram_slots(), 4);
}

#[test]
fn set_ram_over_capacity_fails_unchanged() {
    let mut b = board("b4", 4, 2);
    assert_eq!(b.set_used_ram_slots(4), Ok(()));
    assert_eq!(
        b.set_used_ram_slots(5),
        Err(CapacityError::CapacityExceeded)
    );
    assert_eq!(b.get_used_ram_slots(), 4);
}

#[test]
fn set_pci_within_capacity_updates() {
    let mut b = board("b5", 4, 2);
    assert_eq!(b.set_used_pci_slots(2), Ok(()));
    assert_eq!(b.get_used_pci_slots(), 2);
}

#[test]
fn set_pci_over_capacity_fails_unchanged() {
    let mut b = board("b6", 4, 2);
    assert_eq!(b.set_used_pci_slots(1), Ok(()));
    assert_eq!(
        b.set_used_pci_slots(3),
        Err(CapacityError::CapacityExceeded)
    );
    assert_eq!(b.get_used_pci_slots(), 1);
}

#[test]
fn counters_are_independent() {
    let mut b = board("b7", 4, 2);
    assert_eq!(b.set_used_ram_slots(4), Ok(()));
    assert_eq!(b.set_used_pci_slots(2), Ok(()));
    assert_eq!(b.get_used_ram_slots(), 4);
    assert_eq!(b.get_used_pci_slots(), 2);
    assert_eq!(
        b.set_used_ram_slots(5),
        Err(CapacityError::CapacityExceeded)
    );
    assert_eq!(b.get_used_pci_slots(), 2);
}

#[test]
fn zero_capacity_board() {
    let mut b = board("b8", 0, 0);
    assert_eq!(b.set_used_ram_slots(0), Ok(()));
    assert_eq!(
        b.set_used_ram_slots(1),
        Err(CapacityError::CapacityExceeded)
    );
    assert_eq!(b.get_used_ram_slots(), 0);
    assert_eq!(
        b.set_used_pci_slots(1),
        Err(CapacityError::CapacityExceeded)
    );
}

#[test]
fn largest_capacity_board() {
    let mut b = board("b9", u8::MAX, u8::MAX);
    assert_eq!(b.set_used_ram_slots(u8::MAX), Ok(()));
    assert_eq!(b.get_used_ram_slots(), u8::MAX);
    assert_eq!(b.set_used_pci_slots(u8::MAX), Ok(()));
    assert_eq!(b.get_used_pci_slots(), u8::MAX);
}
