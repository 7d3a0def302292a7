//! Virtio MMIO block-transport driver.
//!
//! The device presents a window of 32-bit registers; the driver owns one
//! virtqueue (descriptor table, available ring, used ring) and one request
//! buffer set (header, 512-byte data area, status byte), all singletons.
//! Register window, queue memory and request buffers are held as plain
//! values in one owned `VirtioBlk` state, together with the device side of
//! the protocol: the preset identification registers, whether the device
//! rejects the feature negotiation, and how it completes a published block
//! request. Every driver decision is proved against that model.

use vstd::prelude::*;

use crate::BootError;
use crate::uart::Console;
use crate::uart::encode_line;

verus! {

// Register offsets into the device window.
pub const MAGIC_VALUE: usize = 0x000;

pub const VERSION: usize = 0x004;

pub const DEVICE_ID: usize = 0x008;

pub const VENDOR_ID: usize = 0x00c;

pub const DEVICE_FEATURES: usize = 0x010;

pub const DRIVER_FEATURES: usize = 0x020;

pub const QUEUE_SEL: usize = 0x030;

pub const QUEUE_NUM_MAX: usize = 0x034;

pub const QUEUE_NUM: usize = 0x038;

pub const QUEUE_READY: usize = 0x044;

pub const QUEUE_NOTIFY: usize = 0x050;

pub const INTERRUPT_STATUS: usize = 0x060;

pub const INTERRUPT_ACK: usize = 0x064;

pub const STATUS: usize = 0x070;

pub const QUEUE_DESC_LOW: usize = 0x080;

pub const QUEUE_DESC_HIGH: usize = 0x084;

pub const QUEUE_AVAIL_LOW: usize = 0x090;

pub const QUEUE_AVAIL_HIGH: usize = 0x094;

pub const QUEUE_USED_LOW: usize = 0x0a0;

pub const QUEUE_USED_HIGH: usize = 0x0a4;

// Device status bits.
pub const STATUS_ACKNOWLEDGE: u32 = 1;

pub const STATUS_DRIVER: u32 = 2;

pub const STATUS_DRIVER_OK: u32 = 4;

pub const STATUS_FEATURES_OK: u32 = 8;

pub const STATUS_FAILED: u32 = 0x80;

/// Device id of a virtio block device.
pub const VIRTIO_BLK_DEVICE: u32 = 2;

/// The fixed virtio magic signature ("virt", little-endian).
pub const VIRTIO_MAGIC: u32 = 0x7472_6976;

// Descriptor flags.
pub const VRING_DESC_F_NEXT: u16 = 1;

pub const VRING_DESC_F_WRITE: u16 = 2;

/// Block request type: read a sector.
pub const VIRTIO_BLK_T_IN: u32 = 0;

/// Block request type: write a sector.
pub const VIRTIO_BLK_T_OUT: u32 = 1;

/// Negotiated queue depth: at most 8 descriptors.
pub const QUEUE_SIZE: usize = 8;

/// Bytes in one block-device sector.
pub const SECTOR_SIZE: usize = 512;

/// Bytes in the on-wire block request header (type, reserved, sector).
pub const BLK_REQ_HDR_SIZE: u32 = 16;

// Nominal physical addresses of the driver-owned, page-aligned queue and
// request areas, as the device is told to find them.
pub const DESC_AREA_ADDR: u64 = 0x8004_0000;

pub const AVAIL_AREA_ADDR: u64 = 0x8004_1000;

pub const USED_AREA_ADDR: u64 = 0x8004_2000;

pub const REQUEST_BUFFER_ADDR: u64 = 0x8004_3000;

pub const REQUEST_DATA_ADDR: u64 = REQUEST_BUFFER_ADDR + 16;

pub const STATUS_BYTE_ADDR: u64 = 0x8004_4000;

/// The device's register window. Identification registers, the device
/// feature word, the queue size limit and the failure flag belong to the
/// device and are preset; the rest are written by the driver.
#[derive(Clone, Copy, Debug, PartialEq, Eq, Structural)]
pub struct MmioRegs {
    pub magic: u32,
    pub version: u32,
    pub device_id: u32,
    pub vendor_id: u32,
    pub device_features: u32,
    pub queue_num_max: u32,
    pub interrupt_status: u32,
    /// Device side: it refuses the offered feature set, so it never
    /// latches `STATUS_FEATURES_OK`; status reads show that bit cleared.
    pub device_rejects_features: bool,
    pub driver_features: u32,
    pub queue_sel: u32,
    pub queue_num: u32,
    pub queue_ready: u32,
    pub queue_desc_low: u32,
    pub queue_desc_high: u32,
    pub queue_avail_low: u32,
    pub queue_avail_high: u32,
    pub queue_used_low: u32,
    pub queue_used_high: u32,
    pub status: u32,
    pub queue_notify: u32,
    pub interrupt_ack: u32,
}

/// What a 32-bit read at `off` returns.
pub open spec fn reg_read32(r: MmioRegs, off: int) -> u32 {
    if off == MAGIC_VALUE {
        r.magic
    } else if off == VERSION {
        r.version
    } else if off == DEVICE_ID {
        r.device_id
    } else if off == VENDOR_ID {
        r.vendor_id
    } else if off == DEVICE_FEATURES {
        r.device_features
    } else if off == QUEUE_NUM_MAX {
        r.queue_num_max
    } else if off == INTERRUPT_STATUS {
        r.interrupt_status
    } else if off == STATUS {
        if r.device_rejects_features {
            r.status & !STATUS_FEATURES_OK
        } else {
            r.status
        }
    } else {
        0
    }
}

/// The register file after a 32-bit write of `v` at `off`. Writes to
/// device-owned registers are ignored.
pub open spec fn reg_write32(r: MmioRegs, off: int, v: u32) -> MmioRegs {
    if off == DRIVER_FEATURES {
        MmioRegs { driver_features: v, ..r }
    } else if off == QUEUE_SEL {
        MmioRegs { queue_sel: v, ..r }
    } else if off == QUEUE_NUM {
        MmioRegs { queue_num: v, ..r }
    } else if off == QUEUE_READY {
        MmioRegs { queue_ready: v, ..r }
    } else if off == QUEUE_DESC_LOW {
        MmioRegs { queue_desc_low: v, ..r }
    } else if off == QUEUE_DESC_HIGH {
        MmioRegs { queue_desc_high: v, ..r }
    } else if off == QUEUE_AVAIL_LOW {
        MmioRegs { queue_avail_low: v, ..r }
    } else if off == QUEUE_AVAIL_HIGH {
        MmioRegs { queue_avail_high: v, ..r }
    } else if off == QUEUE_USED_LOW {
        MmioRegs { queue_used_low: v, ..r }
    } else if off == QUEUE_USED_HIGH {
        MmioRegs { queue_used_high: v, ..r }
    } else if off == STATUS {
        MmioRegs { status: v, ..r }
    } else if off == QUEUE_NOTIFY {
        MmioRegs { queue_notify: v, ..r }
    } else if off == INTERRUPT_ACK {
        MmioRegs { interrupt_ack: v, ..r }
    } else {
        r
    }
}

/// The low half of a 64-bit value.
pub open spec fn lo32(v: u64) -> u32 {
    (v % 0x1_0000_0000) as u32
}

/// The high half of a 64-bit value.
pub open spec fn hi32(v: u64) -> u32 {
    (v / 0x1_0000_0000) as u32
}

impl MmioRegs {
    /// A volatile 32-bit register read.
    pub fn mmio_read32(&self, offset: usize) -> (r: u32)
        ensures
            r == reg_read32(*self, offset as int),
    {
        if offset == MAGIC_VALUE {
            self.magic
        } else if offset == VERSION {
            self.version
        } else if offset == DEVICE_ID {
            self.device_id
        } else if offset == VENDOR_ID {
            self.vendor_id
        } else if offset == DEVICE_FEATURES {
            self.device_features
        } else if offset == QUEUE_NUM_MAX {
            self.queue_num_max
        } else if offset == INTERRUPT_STATUS {
            self.interrupt_status
        } else if offset == STATUS {
            if self.device_rejects_features {
                self.status & !STATUS_FEATURES_OK
            } else {
                self.status
            }
        } else {
            0
        }
    }

    /// A volatile 32-bit register write.
    pub fn mmio_write32(&mut self, offset: usize, v: u32)
        ensures
            *final(self) == reg_write32(*old(self), offset as int, v),
    {
        if offset == DRIVER_FEATURES {
            self.driver_features = v;
        } else if offset == QUEUE_SEL {
            self.queue_sel = v;
        } else if offset == QUEUE_NUM {
            self.queue_num = v;
        } else if offset == QUEUE_READY {
            self.queue_ready = v;
        } else if offset == QUEUE_DESC_LOW {
            self.queue_desc_low = v;
        } else if offset == QUEUE_DESC_HIGH {
            self.queue_desc_high = v;
        } else if offset == QUEUE_AVAIL_LOW {
            self.queue_avail_low = v;
        } else if offset == QUEUE_AVAIL_HIGH {
            self.queue_avail_high = v;
        } else if offset == QUEUE_USED_LOW {
            self.queue_used_low = v;
        } else if offset == QUEUE_USED_HIGH {
            self.queue_used_high = v;
        } else if offset == STATUS {
            self.status = v;
        } else if offset == QUEUE_NOTIFY {
            self.queue_notify = v;
        } else if offset == INTERRUPT_ACK {
            self.interrupt_ack = v;
        }
    }

    /// A 64-bit read out of two adjacent 32-bit registers, low word first.
    pub fn mmio_read64(&self, offset: usize) -> (r: u64)
        requires
            offset + 4 <= usize::MAX,
        ensures
            r == reg_read32(*self, offset as int) + reg_read32(*self, offset as int + 4)
                * 0x1_0000_0000,
    {
        let low = self.mmio_read32(offset) as u64;
        let high = self.mmio_read32(offset + 4) as u64;
        low + high * 0x1_0000_0000
    }

    /// A 64-bit write into two adjacent 32-bit registers, low word first.
    pub fn mmio_write64(&mut self, offset: usize, v: u64)
        requires
            offset + 4 <= usize::MAX,
        ensures
            *final(self) == reg_write32(
                reg_write32(*old(self), offset as int, lo32(v)),
                offset as int + 4,
                hi32(v),
            ),
    {
        self.mmio_write32(offset, (v % 0x1_0000_0000) as u32);
        self.mmio_write32(offset + 4, (v / 0x1_0000_0000) as u32);
    }
}

/// Whether the identification triplet names a virtio block device the
/// driver can talk to.
pub open spec fn probe_ok(r: MmioRegs) -> bool {
    &&& r.magic == VIRTIO_MAGIC
    &&& (r.version == 1 || r.version == 2)
    &&& r.device_id == VIRTIO_BLK_DEVICE
}

/// One entry of the virtqueue descriptor table.
#[derive(Clone, Copy, Debug, PartialEq, Eq, Structural)]
pub struct VirtqDesc {
    pub addr: u64,
    pub len: u32,
    pub flags: u16,
    pub next: u16,
}

/// How the device completes the next published block request: after
/// `delay` polls it writes `data` into the request's data buffer, writes
/// `status` into the status byte, and advances the used ring index.
pub struct BlockResponse {
    pub delay: u32,
    pub status: u8,
    pub data: Vec<u8>,
}

/// The whole block transport: register window, virtqueue memory, request
/// buffers, and the device's pending completion behaviour.
pub struct VirtioBlk {
    pub regs: MmioRegs,
    pub desc: Vec<VirtqDesc>,
    pub avail_flags: u16,
    pub avail_idx: u16,
    pub avail_ring: Vec<u16>,
    pub used_idx: u32,
    pub req_type: u32,
    pub req_reserved: u32,
    pub req_sector: u64,
    pub data: Vec<u8>,
    pub status_byte: u8,
    pub response: Option<BlockResponse>,
}

/// `x + 1` with 16-bit wraparound, as ring indices advance.
pub open spec fn wrap_inc16(x: u16) -> u16 {
    if x == 0xffff {
        0
    } else {
        (x + 1) as u16
    }
}

/// `x + 1` with 32-bit wraparound.
pub open spec fn wrap_inc32(x: u32) -> u32 {
    if x == 0xffff_ffff {
        0
    } else {
        (x + 1) as u32
    }
}

/// Everything but the request data buffer agrees.
pub open spec fn same_except_data(a: VirtioBlk, b: VirtioBlk) -> bool {
    &&& a.regs == b.regs
    &&& a.desc == b.desc
    &&& a.avail_flags == b.avail_flags
    &&& a.avail_idx == b.avail_idx
    &&& a.avail_ring == b.avail_ring
    &&& a.used_idx == b.used_idx
    &&& a.req_type == b.req_type
    &&& a.req_reserved == b.req_reserved
    &&& a.req_sector == b.req_sector
    &&& a.status_byte == b.status_byte
    &&& a.response == b.response
}

impl VirtioBlk {
    /// Queue memory and buffers have their fixed sizes, every slot of the
    /// available ring holds descriptor 0 (the chain head this driver
    /// publishes is always descriptor 0), and a pending completion carries
    /// exactly one sector of data.
    pub open spec fn wf(self) -> bool {
        &&& self.desc@.len() == QUEUE_SIZE
        &&& self.avail_ring@.len() == QUEUE_SIZE
        &&& (forall|t: int| 0 <= t < QUEUE_SIZE ==> self.avail_ring@[t] == 0u16)
        &&& self.data@.len() == SECTOR_SIZE
        &&& (self.response matches Some(b) ==> b.data@.len() == SECTOR_SIZE)
    }

    /// Bring up the transport state over a device whose register window
    /// and completion behaviour are given: queue memory zeroed, no request
    /// ever published.
    pub fn new(regs: MmioRegs, response: Option<BlockResponse>) -> (r: VirtioBlk)
        requires
            (response matches Some(b) ==> b.data@.len() == SECTOR_SIZE),
        ensures
            r.wf(),
            r.regs == regs,
            r.response == response,
            r.used_idx == 0,
            r.avail_idx == 0,
            r.status_byte == 0,
    {
        let mut desc: Vec<VirtqDesc> = Vec::new();
        let mut i: usize = 0;
        while i < QUEUE_SIZE
            invariant
                i <= QUEUE_SIZE,
                desc@.len() == i,
            decreases QUEUE_SIZE - i,
        {
            desc.push(VirtqDesc { addr: 0, len: 0, flags: 0, next: 0 });
            i = i + 1;
        }
        let mut avail_ring: Vec<u16> = Vec::new();
        let mut i: usize = 0;
        while i < QUEUE_SIZE
            invariant
                i <= QUEUE_SIZE,
                avail_ring@.len() == i,
                forall|t: int| 0 <= t < i ==> avail_ring@[t] == 0u16,
            decreases QUEUE_SIZE - i,
        {
            avail_ring.push(0u16);
            i = i + 1;
        }
        let mut data: Vec<u8> = Vec::new();
        let mut i: usize = 0;
        while i < SECTOR_SIZE
            invariant
                i <= SECTOR_SIZE,
                data@.len() == i,
            decreases SECTOR_SIZE - i,
        {
            data.push(0u8);
            i = i + 1;
        }
        VirtioBlk {
            regs,
            desc,
            avail_flags: 0,
            avail_idx: 0,
            avail_ring,
            used_idx: 0,
            req_type: 0,
            req_reserved: 0,
            req_sector: 0,
            data,
            status_byte: 0,
            response,
        }
    }

    /// Check the identification triplet: magic, version, device id. Logs
    /// the outcome; mutates nothing.
    pub fn probe(&self, con: &mut Console) -> (r: bool)
        ensures
            r == probe_ok(self.regs),
            r ==> final(con)@ == old(con)@ + encode_line("virtio: device detected"@),
            !r ==> final(con)@ == old(con)@ + encode_line("virtio: device not found"@),
    {
        let magic = self.regs.mmio_read32(MAGIC_VALUE);
        let version = self.regs.mmio_read32(VERSION);
        let device = self.regs.mmio_read32(DEVICE_ID);
        if magic == VIRTIO_MAGIC && (version == 1 || version == 2) && device == VIRTIO_BLK_DEVICE {
            con.println("virtio: device detected");
            true
        } else {
            con.println("virtio: device not found");
            false
        }
    }

    /// Ring the notification register for a queue.
    fn notify_queue(&mut self, queue: u32)
        ensures
            *final(self) == (VirtioBlk {
                regs: reg_write32(old(self).regs, QUEUE_NOTIFY as int, queue),
                ..*old(self)
            }),
    {
        self.regs.mmio_write32(QUEUE_NOTIFY, queue);
    }

    /// Drive the virtio handshake to `DriverOk`: acknowledge, declare the
    /// driver, offer no features, check the device accepted, size queue 0,
    /// program the three queue addresses, mark the queue ready.
    ///
    /// Fails with `FeaturesRejected` exactly when the re-read status shows
    /// the device cleared the `STATUS_FEATURES_OK` bit, and with
    /// `QueueUnavailable` exactly when queue 0 has maximum size 0.
    pub fn init(&mut self, con: &mut Console) -> (r: Result<(), BootError>)
        ensures
            same_except_regs(*old(self), *final(self)),
            old(self).regs.device_rejects_features ==> {
                &&& r == Result::<(), BootError>::Err(BootError::FeaturesRejected)
                &&& final(self).regs == (MmioRegs {
                    driver_features: 0,
                    status: STATUS_ACKNOWLEDGE | STATUS_DRIVER | STATUS_FEATURES_OK,
                    ..old(self).regs
                })
                &&& final(con)@ == old(con)@ + encode_line("virtio: device rejected features"@)
            },
            !old(self).regs.device_rejects_features && old(self).regs.queue_num_max == 0 ==> {
                &&& r == Result::<(), BootError>::Err(BootError::QueueUnavailable)
                &&& final(self).regs == (MmioRegs {
                    driver_features: 0,
                    queue_sel: 0,
                    status: STATUS_ACKNOWLEDGE | STATUS_DRIVER | STATUS_FEATURES_OK,
                    ..old(self).regs
                })
                &&& final(con)@ == old(con)@ + encode_line("virtio: queue 0 not available"@)
            },
            !old(self).regs.device_rejects_features && old(self).regs.queue_num_max != 0 ==> {
                &&& r == Result::<(), BootError>::Ok(())
                &&& final(self).regs == (MmioRegs {
                    driver_features: 0,
                    queue_sel: 0,
                    queue_num: if old(self).regs.queue_num_max >= 8 {
                        8u32
                    } else {
                        old(self).regs.queue_num_max
                    },
                    queue_ready: 1,
                    queue_desc_low: lo32(DESC_AREA_ADDR),
                    queue_desc_high: hi32(DESC_AREA_ADDR),
                    queue_avail_low: lo32(AVAIL_AREA_ADDR),
                    queue_avail_high: hi32(AVAIL_AREA_ADDR),
                    queue_used_low: lo32(USED_AREA_ADDR),
                    queue_used_high: hi32(USED_AREA_ADDR),
                    status: STATUS_ACKNOWLEDGE | STATUS_DRIVER | STATUS_FEATURES_OK
                        | STATUS_DRIVER_OK,
                    ..old(self).regs
                })
                &&& final(con)@ == old(con)@ + encode_line("virtio: init done"@)
            },
    {
        self.regs.mmio_write32(STATUS, STATUS_ACKNOWLEDGE);
        self.regs.mmio_write32(STATUS, STATUS_ACKNOWLEDGE | STATUS_DRIVER);

        // Read device features; this minimal driver accepts none.
        let dev_feats = self.regs.mmio_read32(DEVICE_FEATURES);
        let _ = dev_feats;
        self.regs.mmio_write32(DRIVER_FEATURES, 0);

        self.regs.mmio_write32(STATUS, STATUS_ACKNOWLEDGE | STATUS_DRIVER | STATUS_FEATURES_OK);
        let status_after_features = self.regs.mmio_read32(STATUS);
        proof {
            assert((((1u32 | 2u32) | 8u32) & !8u32) & 8u32 == 0u32) by (bit_vector);
            assert(((1u32 | 2u32) | 8u32) & 8u32 != 0u32) by (bit_vector);
        }
        if (status_after_features & STATUS_FEATURES_OK) == 0 {
            con.println("virtio: device rejected features");
            return Err(BootError::FeaturesRejected);
        }

        // Select queue 0 and negotiate its size.
        self.regs.mmio_write32(QUEUE_SEL, 0);
        let qmax = self.regs.mmio_read32(QUEUE_NUM_MAX);
        if qmax == 0 {
            con.println("virtio: queue 0 not available");
            return Err(BootError::QueueUnavailable);
        }
        let qsize = if qmax >= 8 {
            8
        } else {
            qmax
        };
        self.regs.mmio_write32(QUEUE_NUM, qsize);

        // Tell the device where the queue memory lives.
        self.regs.mmio_write64(QUEUE_DESC_LOW, DESC_AREA_ADDR);
        self.regs.mmio_write64(QUEUE_AVAIL_LOW, AVAIL_AREA_ADDR);
        self.regs.mmio_write64(QUEUE_USED_LOW, USED_AREA_ADDR);

        self.regs.mmio_write32(QUEUE_READY, 1);
        self.regs.mmio_write32(
            STATUS,
            STATUS_ACKNOWLEDGE | STATUS_DRIVER | STATUS_FEATURES_OK | STATUS_DRIVER_OK,
        );
        con.println("virtio: init done");
        Ok(())
    }

    /// Read one 512-byte sector into `buf`, synchronously: publish a
    /// three-descriptor chain (header, data buffer, status byte), ring the
    /// doorbell for queue 0, and poll the used-ring index until it
    /// advances past its value at call start or the retry budget runs out.
    ///
    /// The request buffers and the queue are singletons, so at most one
    /// request may be in flight system-wide; the exclusive `&mut`
    /// receiver is what serializes callers.
    #[verifier::loop_isolation(false)]
    pub fn read_block(&mut self, lba: u64, buf: &mut Vec<u8>, budget: u32) -> (r: Result<
        (),
        BootError,
    >)
        requires
            old(self).wf(),
            old(buf)@.len() == SECTOR_SIZE,
        ensures
            final(self).wf(),
            final(buf)@.len() == SECTOR_SIZE,
            final(self).req_type == VIRTIO_BLK_T_IN,
            final(self).req_reserved == 0,
            final(self).req_sector == lba,
            final(self).desc@[0] == (VirtqDesc {
                addr: REQUEST_BUFFER_ADDR,
                len: BLK_REQ_HDR_SIZE,
                flags: VRING_DESC_F_NEXT,
                next: 1,
            }),
            final(self).desc@[1] == (VirtqDesc {
                addr: REQUEST_DATA_ADDR,
                len: SECTOR_SIZE as u32,
                flags: VRING_DESC_F_NEXT | VRING_DESC_F_WRITE,
                next: 2,
            }),
            final(self).desc@[2] == (VirtqDesc {
                addr: STATUS_BYTE_ADDR,
                len: 1,
                flags: VRING_DESC_F_WRITE,
                next: 0,
            }),
            final(self).avail_flags == 0,
            final(self).avail_ring@[0] == 0,
            final(self).avail_idx == wrap_inc16(old(self).avail_idx),
            final(self).regs == (MmioRegs { queue_notify: 0, ..old(self).regs }),
            final(self).response == old(self).response,
            (match old(self).response {
                Some(resp) => {
                    if resp.delay < budget {
                        if resp.status == 0 {
                            &&& r == Result::<(), BootError>::Ok(())
                            &&& final(buf)@ == resp.data@
                            &&& final(self).data@ == resp.data@
                            &&& final(self).status_byte == 0
                            &&& final(self).used_idx == wrap_inc32(old(self).used_idx)
                        } else {
                            &&& r == Result::<(), BootError>::Err(BootError::IoStatusError)
                            &&& final(buf)@ == old(buf)@
                            &&& final(self).data@ == resp.data@
                            &&& final(self).status_byte == resp.status
                            &&& final(self).used_idx == wrap_inc32(old(self).used_idx)
                        }
                    } else {
                        &&& r == Result::<(), BootError>::Err(BootError::Timeout)
                        &&& final(buf)@ == old(buf)@
                        &&& final(self).data@ == Seq::new(SECTOR_SIZE as nat, |t: int| 0u8)
                        &&& final(self).status_byte == 0
                        &&& final(self).used_idx == old(self).used_idx
                    }
                },
                None => {
                    &&& r == Result::<(), BootError>::Err(BootError::Timeout)
                    &&& final(buf)@ == old(buf)@
                    &&& final(self).data@ == Seq::new(SECTOR_SIZE as nat, |t: int| 0u8)
                    &&& final(self).status_byte == 0
                    &&& final(self).used_idx == old(self).used_idx
                },
            }),
    {
        // Fill the shared request header: a read of sector `lba`.
        self.req_type = VIRTIO_BLK_T_IN;
        self.req_reserved = 0;
        self.req_sector = lba;

        // Zero the shared data area.
        let ghost after_hdr = *self;
        let mut i: usize = 0;
        while i < SECTOR_SIZE
            invariant
                same_except_data(*self, after_hdr),
                self.data@.len() == SECTOR_SIZE,
                i <= SECTOR_SIZE,
                forall|t: int| 0 <= t < i ==> self.data@[t] == 0u8,
            decreases SECTOR_SIZE - i,
        {
            self.data.set(i, 0u8);
            i = i + 1;
        }
        proof {
            assert(self.data@ =~= Seq::new(SECTOR_SIZE as nat, |t: int| 0u8));
        }
        self.status_byte = 0;

        // Build the three-descriptor chain; the rest of the table is
        // cleared, as the hardware table was.
        self.desc.set(
            0,
            VirtqDesc {
                addr: REQUEST_BUFFER_ADDR,
                len: BLK_REQ_HDR_SIZE,
                flags: VRING_DESC_F_NEXT,
                next: 1,
            },
        );
        self.desc.set(
            1,
            VirtqDesc {
                addr: REQUEST_DATA_ADDR,
                len: SECTOR_SIZE as u32,
                flags: VRING_DESC_F_NEXT | VRING_DESC_F_WRITE,
                next: 2,
            },
        );
        self.desc.set(
            2,
            VirtqDesc { addr: STATUS_BYTE_ADDR, len: 1, flags: VRING_DESC_F_WRITE, next: 0 },
        );
        let zero_desc = VirtqDesc { addr: 0, len: 0, flags: 0, next: 0 };
        self.desc.set(3, zero_desc);
        self.desc.set(4, zero_desc);
        self.desc.set(5, zero_desc);
        self.desc.set(6, zero_desc);
        self.desc.set(7, zero_desc);

        // Publish the chain head into the available ring and ring the
        // doorbell; the writes above must be visible to the device first.
        self.avail_flags = 0;
        self.avail_ring.set(0, 0);
        self.avail_idx = if self.avail_idx == 0xffff {
            0
        } else {
            self.avail_idx + 1
        };
        self.notify_queue(0);

        let start_used = self.used_idx;
        let ghost published = *self;
        let mut tries: u32 = 0;
        while tries < budget
            invariant
                *self == published,
                buf@ == old(buf)@,
                tries <= budget,
                (published.response matches Some(resp) ==> tries <= resp.delay),
            decreases budget - tries,
        {
            // Device side of the model: when the delay has elapsed, the
            // device writes the data buffer and the status byte through
            // the chain, then advances the used-ring index.
            let complete = match &self.response {
                Some(resp) => tries == resp.delay,
                None => false,
            };
            if complete {
                let ghost before = *self;
                let mut j: usize = 0;
                while j < SECTOR_SIZE
                    invariant
                        same_except_data(*self, before),
                        self.data@.len() == SECTOR_SIZE,
                        j <= SECTOR_SIZE,
                        forall|t: int|
                            0 <= t < j ==> self.data@[t] == before.response.unwrap().data@[t],
                    decreases SECTOR_SIZE - j,
                {
                    let b = if let Some(resp) = &self.response {
                        resp.data[j]
                    } else {
                        0
                    };
                    self.data.set(j, b);
                    j = j + 1;
                }
                self.status_byte = if let Some(resp) = &self.response {
                    resp.status
                } else {
                    0
                };
                self.used_idx = if start_used == 0xffff_ffff {
                    0
                } else {
                    start_used + 1
                };
                proof {
                    assert(self.data@ =~= published.response.unwrap().data@);
                }
            }
            if self.used_idx != start_used {
                // Completion: inspect the status byte, then hand the
                // sector out to the caller.
                if self.status_byte != 0 {
                    return Err(BootError::IoStatusError);
                }
                let mut j: usize = 0;
                while j < SECTOR_SIZE
                    invariant
                        buf@.len() == SECTOR_SIZE,
                        j <= SECTOR_SIZE,
                        forall|t: int| 0 <= t < j ==> buf@[t] == self.data@[t],
                    decreases SECTOR_SIZE - j,
                {
                    let b = self.data[j];
                    buf.set(j, b);
                    j = j + 1;
                }
                proof {
                    assert(buf@ =~= self.data@);
                }
                return Ok(());
            }
            tries = tries + 1;
        }
        Err(BootError::Timeout)
    }
}

/// Everything but the register window agrees.
pub open spec fn same_except_regs(a: VirtioBlk, b: VirtioBlk) -> bool {
    &&& a.desc == b.desc
    &&& a.avail_flags == b.avail_flags
    &&& a.avail_idx == b.avail_idx
    &&& a.avail_ring == b.avail_ring
    &&& a.used_idx == b.used_idx
    &&& a.req_type == b.req_type
    &&& a.req_reserved == b.req_reserved
    &&& a.req_sector == b.req_sector
    &&& a.data == b.data
    &&& a.status_byte == b.status_byte
    &&& a.response == b.response
}

} // verus!
