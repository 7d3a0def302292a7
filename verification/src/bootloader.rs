//! Boot sequencer: drives component bring-up in a fixed order and decides
//! fatal-versus-continue on each step's result.
//!
//! The stages are linear: console, memory (withhold firmware-owned
//! ranges), block device (probe, then handshake), boot-info (a
//! memory-resident image handed in by the caller), image load, and finally
//! the transfer of control, which only the returned `EntryPoint` permits.
//! Any failure from the block device or the loader is fatal to the boot:
//! it is returned to the caller, which halts; there is no fallback path.

use vstd::prelude::*;

use crate::BootError;
use crate::elf_loader::EntryPoint;
use crate::elf_loader::PhysMemory;
use crate::elf_loader::elf_ok;
use crate::elf_loader::header_of;
use crate::elf_loader::load_elf;
use crate::elf_loader::load_result;
use crate::frame_allocator::FrameAllocator;
use crate::frame_allocator::reserve_spec;
use crate::uart::Console;
use crate::uart::encode_line;
use crate::virtio::VirtioBlk;
use crate::virtio::probe_ok;
use crate::virtio::same_except_regs;

verus! {

/// Load the kernel image into physical memory and hand back its entry
/// point. The jump itself is left to the caller: the entry value is the
/// only capability to perform it.
pub fn load_kernel(con: &mut Console, image: &Vec<u8>, mem: &mut PhysMemory) -> (r: Result<
    EntryPoint,
    BootError,
>)
    ensures
        final(mem).base_spec() == old(mem).base_spec(),
        elf_ok(image@, old(mem).base_spec() as int, old(mem)@.len() as int) ==> {
            &&& r is Ok
            &&& (r matches Ok(e) && e.addr_spec() == header_of(image@).e_entry)
            &&& final(mem)@ == load_result(old(mem)@, image@, old(mem).base_spec() as int)
            &&& final(con)@ == old(con)@ + encode_line("Loading kernel..."@) + encode_line(
                "Jumping to kernel"@,
            )
        },
        !elf_ok(image@, old(mem).base_spec() as int, old(mem)@.len() as int) ==> {
            &&& r == Result::<EntryPoint, BootError>::Err(BootError::InvalidFormat)
            &&& final(mem)@ == old(mem)@
            &&& final(con)@ == old(con)@ + encode_line("Loading kernel..."@)
        },
{
    con.println("Loading kernel...");
    let entry = match load_elf(image, mem) {
        Ok(e) => e,
        Err(e) => {
            return Err(e);
        },
    };
    con.println("Jumping to kernel");
    Ok(entry)
}

/// Run the whole boot sequence on one machine state: reserve the
/// firmware-owned range, probe and initialize the block device, and load
/// the memory-resident kernel image. Succeeds exactly when the device
/// identifies as a virtio block device, accepts the handshake, offers
/// queue 0, and the image is a well-formed ELF64 that fits the window.
pub fn boot(
    con: &mut Console,
    alloc: &mut FrameAllocator,
    dev: &mut VirtioBlk,
    image: &Vec<u8>,
    mem: &mut PhysMemory,
    reserve_start: usize,
    reserve_end: usize,
) -> (r: Result<EntryPoint, BootError>)
    requires
        old(alloc).wf(),
        old(dev).wf(),
    ensures
        final(alloc).wf(),
        final(dev).wf(),
        final(mem).base_spec() == old(mem).base_spec(),
        final(alloc).frames() == reserve_spec(
            old(alloc).frames(),
            reserve_start as int,
            reserve_end as int,
        ),
        same_except_regs(*old(dev), *final(dev)),
        !probe_ok(old(dev).regs) ==> {
            &&& r == Result::<EntryPoint, BootError>::Err(BootError::DeviceNotFound)
            &&& final(mem)@ == old(mem)@
        },
        probe_ok(old(dev).regs) && old(dev).regs.device_rejects_features ==> {
            &&& r == Result::<EntryPoint, BootError>::Err(BootError::FeaturesRejected)
            &&& final(mem)@ == old(mem)@
        },
        probe_ok(old(dev).regs) && !old(dev).regs.device_rejects_features && old(dev).regs.queue_num_max == 0
            ==> {
            &&& r == Result::<EntryPoint, BootError>::Err(BootError::QueueUnavailable)
            &&& final(mem)@ == old(mem)@
        },
        probe_ok(old(dev).regs) && !old(dev).regs.device_rejects_features && old(dev).regs.queue_num_max != 0
            ==> {
            &&& elf_ok(image@, old(mem).base_spec() as int, old(mem)@.len() as int) ==> {
                &&& r is Ok
                &&& (r matches Ok(e) && e.addr_spec() == header_of(image@).e_entry)
                &&& final(mem)@ == load_result(old(mem)@, image@, old(mem).base_spec() as int)
            }
            &&& !elf_ok(image@, old(mem).base_spec() as int, old(mem)@.len() as int) ==> {
                &&& r == Result::<EntryPoint, BootError>::Err(BootError::InvalidFormat)
                &&& final(mem)@ == old(mem)@
            }
        },
{
    con.println("=== RustyBoot-RISCV ===");

    // Memory: withhold the firmware-owned range from the pool before any
    // allocation can happen.
    con.println("Init memory");
    alloc.reserved_region(reserve_start, reserve_end);
    con.println("Memory reserved for bootloader");

    // Block device: probe, then drive the handshake.
    if !dev.probe(con) {
        return Err(BootError::DeviceNotFound);
    }
    match dev.init(con) {
        Ok(()) => (),
        Err(e) => {
            return Err(e);
        },
    }

    // Image load: the boot-info step handed us a memory-resident image.
    load_kernel(con, image, mem)
}

} // verus!
