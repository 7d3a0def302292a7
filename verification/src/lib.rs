//! A minimal first-stage boot loader for a RISC-V virtual machine target,
//! written against explicit data models of the hardware it drives.
//!
//! The crate brings up a virtio block device over a memory-mapped register
//! window, manages physical memory with a bitmap frame allocator, loads an
//! ELF64 image into physical memory, and hands an opaque entry point back to
//! the caller. Hardware state (registers, virtqueue memory, the transmit
//! stream of the console) is modelled as plain values held in owned
//! structures, so every decision the driver makes is stated and proved.

use vstd::prelude::*;

pub mod bootloader;
pub mod elf_loader;
pub mod frame_allocator;
pub mod uart;
pub mod virtio;

verus! {

/// Every failure the boot path can report.
///
/// Hardware and protocol failures are returned as typed results to the
/// immediate caller; only the boot sequencer turns one into a halt.
#[derive(Clone, Copy, Debug, PartialEq, Eq, Structural)]
pub enum BootError {
    /// The probe triplet (magic, version, device id) did not match a
    /// virtio block device.
    DeviceNotFound,
    /// The device refused the negotiated feature set.
    FeaturesRejected,
    /// Queue 0 reported a maximum size of zero.
    QueueUnavailable,
    /// The device completed a request with a non-zero status byte.
    IoStatusError,
    /// The used ring did not advance within the caller's retry budget.
    Timeout,
    /// The frame allocator has no free frame left.
    OutOfMemory,
    /// The image is not a well-formed ELF64 executable.
    InvalidFormat,
}

} // verus!
