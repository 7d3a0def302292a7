use rustyboot::BootError;
use rustyboot::uart::Console;
use rustyboot::virtio::AVAIL_AREA_ADDR;
use rustyboot::virtio::BlockResponse;
use rustyboot::virtio::DESC_AREA_ADDR;
use rustyboot::virtio::MmioRegs;
use rustyboot::virtio::QUEUE_DESC_LOW;
use rustyboot::virtio::REQUEST_BUFFER_ADDR;
use rustyboot::virtio::REQUEST_DATA_ADDR;
use rustyboot::virtio::STATUS_BYTE_ADDR;
use rustyboot::virtio::USED_AREA_ADDR;
use rustyboot::virtio::VIRTIO_BLK_DEVICE;
use rustyboot::virtio::VIRTIO_MAGIC;
use rustyboot::virtio::VirtioBlk;

fn block_device_regs() -> MmioRegs {
    MmioRegs {
        magic: VIRTIO_MAGIC,
        version: 2,
        device_id: VIRTIO_BLK_DEVICE,
        vendor_id: 0x554d_4551,
        device_features: 0,
        queue_num_max: 16,
        interrupt_status: 0,
        device_rejects_features: false,
        driver_features: 0,
        queue_sel: 0,
        queue_num: 0,
        queue_ready: 0,
        queue_desc_low: 0,
        queue_desc_high: 0,
        queue_avail_low: 0,
        queue_avail_high: 0,
        queue_used_low: 0,
        queue_used_high: 0,
        status: 0,
        queue_notify: 0,
        interrupt_ack: 0,
    }
}

#[test]
fn probe_accepts_the_matching_triplet() {
    let mut con = Console::init();
    let dev = VirtioBlk::new(block_device_regs(), None);
    assert!(dev.probe(&mut con));
    assert_eq!(con.transmitted(), &b"virtio: device detected\r\n".to_vec());
    let mut v1 = block_device_regs();
    v1.version = 1;
    assert!(VirtioBlk::new(v1, None).probe(&mut con));
}

#[test]
fn probe_rejects_any_deviating_triplet() {
    let mut con = Console::init();
    let mut bad_magic = block_device_regs();
    bad_magic.magic = 0;
    assert!(!VirtioBlk::new(bad_magic, None).probe(&mut con));
    assert_eq!(con.transmitted(), &b"virtio: device not found\r\n".to_vec());
    let mut bad_version = block_device_regs();
    bad_version.version = 3;
    assert!(!VirtioBlk::new(bad_version, None).probe(&mut con));
    let mut bad_id = block_device_regs();
    bad_id.device_id = 1;
    assert!(!VirtioBlk::new(bad_id, None).probe(&mut con));
}

#[test]
fn init_drives_the_handshake_to_driver_ok() {
    let mut con = Console::init();
    let mut dev = VirtioBlk::new(block_device_regs(), None);
    assert_eq!(dev.init(&mut con), Ok(()));
    assert_eq!(dev.regs.status, 1 | 2 | 8 | 4);
    assert_eq!(dev.regs.queue_num, 8);
    assert_eq!(dev.regs.queue_ready, 1);
    assert_eq!(dev.regs.driver_features, 0);
    assert_eq!(dev.regs.queue_desc_low, DESC_AREA_ADDR as u32);
    assert_eq!(dev.regs.queue_desc_high, (DESC_AREA_ADDR >> 32) as u32);
    assert_eq!(dev.regs.queue_avail_low, AVAIL_AREA_ADDR as u32);
    assert_eq!(dev.regs.queue_used_low, USED_AREA_ADDR as u32);
    assert_eq!(con.transmitted(), &b"virtio: init done\r\n".to_vec());
}

#[test]
fn init_clamps_the_queue_size_to_the_device_maximum() {
    let mut con = Console::init();
    let mut small = block_device_regs();
    small.queue_num_max = 4;
    let mut dev = VirtioBlk::new(small, None);
    assert_eq!(dev.init(&mut con), Ok(()));
    assert_eq!(dev.regs.queue_num, 4);
}

#[test]
fn init_reports_rejected_features() {
    let mut con = Console::init();
    let mut regs = block_device_regs();
    regs.device_rejects_features = true;
    let mut dev = VirtioBlk::new(regs, None);
    assert_eq!(dev.init(&mut con), Err(BootError::FeaturesRejected));
    assert_eq!(con.transmitted(), &b"virtio: device rejected features\r\n".to_vec());
}

#[test]
fn init_reports_a_missing_queue() {
    let mut con = Console::init();
    let mut regs = block_device_regs();
    regs.queue_num_max = 0;
    let mut dev = VirtioBlk::new(regs, None);
    assert_eq!(dev.init(&mut con), Err(BootError::QueueUnavailable));
    assert_eq!(con.transmitted(), &b"virtio: queue 0 not available\r\n".to_vec());
}

fn sector_pattern() -> Vec<u8> {
    (0..512).map(|i| (i % 251) as u8).collect()
}

#[test]
fn read_block_returns_the_sector_the_device_wrote() {
    let response = BlockResponse { delay: 3, status: 0, data: sector_pattern() };
    let mut dev = VirtioBlk::new(block_device_regs(), Some(response));
    let mut buf = vec![0u8; 512];
    assert_eq!(dev.read_block(7, &mut buf, 10), Ok(()));
    assert_eq!(buf, sector_pattern());
    assert_eq!(dev.req_sector, 7);
    assert_eq!(dev.req_type, 0);
    assert_eq!(dev.used_idx, 1);
    assert_eq!(dev.avail_idx, 1);
    assert_eq!(dev.status_byte, 0);
}

#[test]
fn read_block_publishes_the_three_descriptor_chain() {
    let response = BlockResponse { delay: 0, status: 0, data: sector_pattern() };
    let mut dev = VirtioBlk::new(block_device_regs(), Some(response));
    let mut buf = vec![0u8; 512];
    dev.read_block(3, &mut buf, 1).unwrap();
    let d0 = dev.desc[0];
    let d1 = dev.desc[1];
    let d2 = dev.desc[2];
    assert_eq!((d0.addr, d0.len, d0.flags, d0.next), (REQUEST_BUFFER_ADDR, 16, 1, 1));
    assert_eq!((d1.addr, d1.len, d1.flags, d1.next), (REQUEST_DATA_ADDR, 512, 1 | 2, 2));
    assert_eq!((d2.addr, d2.len, d2.flags, d2.next), (STATUS_BYTE_ADDR, 1, 2, 0));
    assert_eq!(dev.avail_flags, 0);
    assert_eq!(dev.avail_ring[0], 0);
    assert_eq!(dev.regs.queue_notify, 0);
}

#[test]
fn read_block_reports_a_device_status_error() {
    let response = BlockResponse { delay: 1, status: 7, data: sector_pattern() };
    let mut dev = VirtioBlk::new(block_device_regs(), Some(response));
    let mut buf = vec![9u8; 512];
    assert_eq!(dev.read_block(0, &mut buf, 10), Err(BootError::IoStatusError));
    assert_eq!(buf, vec![9u8; 512]);
    assert_eq!(dev.status_byte, 7);
}

#[test]
fn read_block_times_out_when_the_device_is_too_slow() {
    let response = BlockResponse { delay: 10, status: 0, data: sector_pattern() };
    let mut dev = VirtioBlk::new(block_device_regs(), Some(response));
    let mut buf = vec![9u8; 512];
    assert_eq!(dev.read_block(0, &mut buf, 5), Err(BootError::Timeout));
    assert_eq!(buf, vec![9u8; 512]);
    assert_eq!(dev.used_idx, 0);
}

#[test]
fn read_block_times_out_when_the_device_never_answers() {
    let mut dev = VirtioBlk::new(block_device_regs(), None);
    let mut buf = vec![0u8; 512];
    assert_eq!(dev.read_block(0, &mut buf, 100), Err(BootError::Timeout));
}

#[test]
fn mmio_64_bit_write_splits_across_word_registers() {
    let mut regs = block_device_regs();
    regs.mmio_write64(QUEUE_DESC_LOW, 0x1_2345_6789);
    assert_eq!(regs.queue_desc_low, 0x2345_6789);
    assert_eq!(regs.queue_desc_high, 1);
    // The queue address registers are write-only: reads return zero.
    assert_eq!(regs.mmio_read64(QUEUE_DESC_LOW), 0);
}

#[test]
fn status_read_shows_features_ok_only_when_the_device_latched_it() {
    let mut regs = block_device_regs();
    regs.mmio_write32(0x070, 1 | 2 | 8);
    assert_eq!(regs.mmio_read32(0x070), 1 | 2 | 8);
    // A device that rejects the features never latches the Ok bit.
    regs.device_rejects_features = true;
    assert_eq!(regs.mmio_read32(0x070), 1 | 2);
}
