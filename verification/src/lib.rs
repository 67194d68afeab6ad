//! A model of a computer as an aggregate of interchangeable hardware parts.
//!
//! Parts carry an opaque identity and descriptive metadata; a slotted
//! mainboard additionally tracks two bounded usage counters (RAM slots,
//! expansion slots) behind validated setters. A [`machine::Machine`] owns a
//! collection of parts keyed by identity, rejecting duplicate identities on
//! insertion and addressing every removal by identity.

pub mod hardware;
pub mod machine;
pub mod part;

pub use hardware::CPUSocket;
pub use hardware::RAMType;
pub use machine::InventoryError;
pub use machine::Machine;
pub use machine::Uuid;
pub use part::CapacityError;
pub use part::Motherboard;
pub use part::Part;
pub use part::PartMetadata;
