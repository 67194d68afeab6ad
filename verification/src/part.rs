//! Concrete part kinds and their capacity logic.
//!
//! [`PartMetadata`] carries an immutable, opaque identity together with
//! caller-editable descriptive fields. [`Motherboard`] is the slotted part:
//! its two usage counters are private and move only through validated
//! setters, so `used <= capacity` holds after every mutation. [`Part`] is
//! the closed catalog of part kinds; new kinds are added as new variants,
//! never by changing existing ones.
//!
//! Each executable type has a ghost view (`PartMetadataView`,
//! `MotherboardView`, `PartView`) exposing every field to specifications.

use vstd::prelude::*;
use crate::hardware::CPUSocket;
use crate::hardware::RAMType;

verus! {

/// A usage-counter update was rejected.
#[derive(Clone, Copy, Debug, PartialEq, Eq)]
pub enum CapacityError {
    /// The requested usage count exceeds the part's fixed physical capacity.
    CapacityExceeded,
}

/// Basic part information: an opaque unique identity plus descriptive fields.
#[derive(Clone, Debug, PartialEq, Eq)]
pub struct PartMetadata {
    pub model: String,
    pub manufacturer: String,
    pub price: u16,
    id: String,
}

/// The ghost image of a [`PartMetadata`].
pub struct PartMetadataView {
    pub model: Seq<char>,
    pub manufacturer: Seq<char>,
    pub price: u16,
    pub id: Seq<char>,
}

impl View for PartMetadata {
    type V = PartMetadataView;

    closed spec fn view(&self) -> PartMetadataView {
        PartMetadataView {
            model: self.model@,
            manufacturer: self.manufacturer@,
            price: self.price,
            id: self.id@,
        }
    }
}

impl PartMetadata {
    /// Build part metadata around a caller-supplied identity token.
    /// The token is opaque and immutable from here on.
    pub fn new(model: String, manufacturer: String, price: u16, id: String) -> (r: PartMetadata)
        ensures
            r@.model == model@,
            r@.manufacturer == manufacturer@,
            r@.price == price,
            r@.id == id@,
    {
        PartMetadata { model, manufacturer, price, id }
    }

    /// Get this part's ID.
    pub fn get_id(&self) -> (r: &String)
        ensures
            r@ == self@.id,
    {
        &self.id
    }
}

/// A mainboard with a fixed number of RAM slots and expansion (PCI) slots.
#[derive(Clone, Debug, PartialEq, Eq)]
pub struct Motherboard {
    pub base: PartMetadata,
    pub socket: CPUSocket,
    pub chipset: String,
    pub ram_type: RAMType,
    ram_slots: u8,
    used_ram_slots: u8,
    pci_slots: u8,
    used_pci_slots: u8,
}

/// The ghost image of a [`Motherboard`].
pub struct MotherboardView {
    pub base: PartMetadataView,
    pub socket: CPUSocket,
    pub chipset: Seq<char>,
    pub ram_type: RAMType,
    pub ram_slots: u8,
    pub used_ram_slots: u8,
    pub pci_slots: u8,
    pub used_pci_slots: u8,
}

impl View for Motherboard {
    type V = MotherboardView;

    closed spec fn view(&self) -> MotherboardView {
        MotherboardView {
            base: self.base@,
            socket: self.socket,
            chipset: self.chipset@,
            ram_type: self.ram_type,
            ram_slots: self.ram_slots,
            used_ram_slots: self.used_ram_slots,
            pci_slots: self.pci_slots,
            used_pci_slots: self.used_pci_slots,
        }
    }
}

impl MotherboardView {
    /// Neither usage counter exceeds its capacity.
    pub open spec fn wf(&self) -> bool {
        &&& self.used_ram_slots <= self.ram_slots
        &&& self.used_pci_slots <= self.pci_slots
    }
}

impl Motherboard {
    /// Neither usage counter exceeds its capacity. Established at
    /// construction and preserved by every setter.
    pub open spec fn wf(&self) -> bool {
        self@.wf()
    }

    /// Create a new motherboard with both usage counters at zero.
    /// The two capacities are fixed for the life of the object.
    pub fn new(
        base: PartMetadata,
        socket: CPUSocket,
        chipset: String,
        ram_type: RAMType,
        ram_slots: u8,
        pci_slots: u8,
    ) -> (r: Motherboard)
        ensures
            r@ == (MotherboardView {
                base: base@,
                socket,
                chipset: chipset@,
                ram_type,
                ram_slots,
                used_ram_slots: 0,
                pci_slots,
                used_pci_slots: 0,
            }),
            r.wf(),
    {
        Motherboard {
            base,
            socket,
            chipset,
            ram_type,
            ram_slots,
            used_ram_slots: 0,
            pci_slots,
            used_pci_slots: 0,
        }
    }

    /// Get the RAM slot capacity.
    pub fn get_ram_slots(&self) -> (r: u8)
        ensures
            r == self@.ram_slots,
    {
        self.ram_slots
    }

    /// Get the expansion slot capacity.
    pub fn get_pci_slots(&self) -> (r: u8)
        ensures
            r == self@.pci_slots,
    {
        self.pci_slots
    }

    /// Get the amount of used RAM slots.
    pub fn get_used_ram_slots(&self) -> (r: u8)
        ensures
            r == self@.used_ram_slots,
    {
        self.used_ram_slots
    }

    /// Set the amount of used RAM slots. Succeeds exactly when the new
    /// amount fits the fixed capacity (filling every slot is allowed); on
    /// failure the board is left unchanged.
    pub fn set_used_ram_slots(&mut self, new_amount: u8) -> (r: Result<(), CapacityError>)
        ensures
            new_amount <= old(self)@.ram_slots ==> {
                &&& r == Ok::<(), CapacityError>(())
                &&& final(self)@ == (MotherboardView { used_ram_slots: new_amount, ..old(self)@ })
            },
            new_amount > old(self)@.ram_slots ==> {
                &&& r == Err::<(), CapacityError>(CapacityError::CapacityExceeded)
                &&& *final(self) == *old(self)
            },
            old(self).wf() ==> final(self).wf(),
    {
        if new_amount <= self.ram_slots {
            self.used_ram_slots = new_amount;
            Ok(())
        } else {
            Err(CapacityError::CapacityExceeded)
        }
    }

    /// Get the amount of used PCI slots.
    pub fn get_used_pci_slots(&self) -> (r: u8)
        ensures
            r == self@.used_pci_slots,
    {
        self.used_pci_slots
    }

    /// Set the amount of used PCI slots. Succeeds exactly when the new
    /// amount fits the fixed capacity (filling every slot is allowed); on
    /// failure the board is left unchanged.
    pub fn set_used_pci_slots(&mut self, new_amount: u8) -> (r: Result<(), CapacityError>)
        ensures
            new_amount <= old(self)@.pci_slots ==> {
                &&& r == Ok::<(), CapacityError>(())
                &&& final(self)@ == (MotherboardView { used_pci_slots: new_amount, ..old(self)@ })
            },
            new_amount > old(self)@.pci_slots ==> {
                &&& r == Err::<(), CapacityError>(CapacityError::CapacityExceeded)
                &&& *final(self) == *old(self)
            },
            old(self).wf() ==> final(self).wf(),
    {
        if new_amount <= self.pci_slots {
            self.used_pci_slots = new_amount;
            Ok(())
        } else {
            Err(CapacityError::CapacityExceeded)
        }
    }
}

/// The closed catalog of part kinds a machine can hold.
#[derive(Clone, Debug, PartialEq, Eq)]
pub enum Part {
    Motherboard(Motherboard),
}

/// The ghost image of a [`Part`].
pub enum PartView {
    Motherboard(MotherboardView),
}

impl View for Part {
    type V = PartView;

    open spec fn view(&self) -> PartView {
        match self {
            Part::Motherboard(m) => PartView::Motherboard(m@),
        }
    }
}

impl PartView {
    /// The identity of the contained part, whatever its kind.
    pub open spec fn id(&self) -> Seq<char> {
        match self {
            PartView::Motherboard(m) => m.base.id,
        }
    }
}

impl Part {
    /// Get the contained part's ID.
    pub fn get_id(&self) -> (r: &String)
        ensures
            r@ == self@.id(),
    {
        match self {
            Part::Motherboard(m) => m.base.get_id(),
        }
    }
}

} // verus!
