use rustyboot::BootError;
use rustyboot::elf_loader::PhysMemory;
use rustyboot::elf_loader::load_elf;
use rustyboot::elf_loader::parse_header;

const BASE: usize = 0x8020_0000;

/// Build an ELF64 image: header, program-header table at offset 64, then
/// `extra` payload bytes. Each program header is
/// `(p_type, p_offset, p_paddr, p_filesz, p_memsz)`.
fn build_image(entry: u64, phdrs: &[(u32, u64, u64, u64, u64)], extra: &[u8]) -> Vec<u8> {
    let mut img = vec![0u8; 64 + 56 * phdrs.len()];
    img[0..4].copy_from_slice(&[0x7f, b'E', b'L', b'F']);
    img[24..32].copy_from_slice(&entry.to_le_bytes());
    img[32..40].copy_from_slice(&64u64.to_le_bytes());
    img[56..58].copy_from_slice(&(phdrs.len() as u16).to_le_bytes());
    for (i, &(ptype, off, paddr, filesz, memsz)) in phdrs.iter().enumerate() {
        let o = 64 + 56 * i;
        img[o..o + 4].copy_from_slice(&ptype.to_le_bytes());
        img[o + 8..o + 16].copy_from_slice(&off.to_le_bytes());
        img[o + 24..o + 32].copy_from_slice(&paddr.to_le_bytes());
        img[o + 32..o + 40].copy_from_slice(&filesz.to_le_bytes());
        img[o + 40..o + 48].copy_from_slice(&memsz.to_le_bytes());
    }
    img.extend_from_slice(extra);
    img
}

fn mem_bytes(m: &PhysMemory) -> Vec<u8> {
    let mut out = Vec::new();
    let mut i = 0;
    while i < m.size() {
        out.push(m.read_byte(m.base() + i));
        i += 1;
    }
    out
}

/// Paint the whole window with 0xAA through a full-size load segment.
fn paint(mem: &mut PhysMemory) {
    let fill = vec![0xAAu8; 32];
    let img = build_image(0, &[(1, 120, BASE as u64, 32, 32)], &fill);
    load_elf(&img, mem).unwrap();
    assert_eq!(mem_bytes(mem), fill);
}

#[test]
fn load_copies_filesz_and_zero_fills_memsz() {
    let mut mem = PhysMemory::new(BASE, 32);
    paint(&mut mem);
    let payload: Vec<u8> = (1..=10).collect();
    let img = build_image(0x4242, &[(1, 120, BASE as u64, 10, 20)], &payload);
    let entry = load_elf(&img, &mut mem).unwrap();
    assert_eq!(entry.addr(), 0x4242);
    let bytes = mem_bytes(&mem);
    assert_eq!(&bytes[0..10], &payload[..]);
    assert_eq!(&bytes[10..20], &[0u8; 10]);
    assert_eq!(&bytes[20..32], &[0xAAu8; 12]);
}

#[test]
fn non_load_segment_is_never_copied() {
    let mut mem = PhysMemory::new(BASE, 32);
    let payload = vec![0x55u8; 16];
    let img = build_image(0, &[(6, 120, BASE as u64, 16, 16)], &payload);
    load_elf(&img, &mut mem).unwrap();
    assert_eq!(mem_bytes(&mem), vec![0u8; 32]);
}

#[test]
fn segments_materialize_in_table_order() {
    let mut mem = PhysMemory::new(BASE, 32);
    let mut payload = vec![0x11u8; 8];
    payload.extend_from_slice(&[0x22u8; 8]);
    let img = build_image(
        0,
        &[(1, 176, BASE as u64, 8, 8), (1, 184, BASE as u64 + 4, 8, 8)],
        &payload,
    );
    load_elf(&img, &mut mem).unwrap();
    let bytes = mem_bytes(&mem);
    assert_eq!(&bytes[0..4], &[0x11u8; 4]);
    assert_eq!(&bytes[4..12], &[0x22u8; 8]);
}

#[test]
fn bad_magic_yields_invalid_format_without_touching_memory() {
    let mut mem = PhysMemory::new(BASE, 32);
    paint(&mut mem);
    let mut img = build_image(0, &[(1, 120, BASE as u64, 10, 20)], &[7u8; 10]);
    img[1] = 0;
    assert_eq!(load_elf(&img, &mut mem), Err(BootError::InvalidFormat));
    assert_eq!(mem_bytes(&mem), vec![0xAAu8; 32]);
}

#[test]
fn short_image_is_invalid() {
    let mut mem = PhysMemory::new(BASE, 32);
    assert_eq!(load_elf(&vec![0x7f, b'E', b'L', b'F'], &mut mem), Err(BootError::InvalidFormat));
}

#[test]
fn truncated_phdr_table_is_invalid() {
    let mut mem = PhysMemory::new(BASE, 32);
    let mut img = build_image(0, &[(1, 120, BASE as u64, 0, 0)], &[]);
    img.truncate(100);
    img[56..58].copy_from_slice(&2u16.to_le_bytes());
    assert_eq!(load_elf(&img, &mut mem), Err(BootError::InvalidFormat));
}

#[test]
fn filesz_larger_than_memsz_is_invalid() {
    let mut mem = PhysMemory::new(BASE, 32);
    let img = build_image(0, &[(1, 120, BASE as u64, 20, 10)], &[0u8; 20]);
    assert_eq!(load_elf(&img, &mut mem), Err(BootError::InvalidFormat));
}

#[test]
fn segment_outside_window_is_invalid() {
    let mut mem = PhysMemory::new(BASE, 32);
    let img = build_image(0, &[(1, 120, BASE as u64 + 16, 10, 20)], &[0u8; 10]);
    assert_eq!(load_elf(&img, &mut mem), Err(BootError::InvalidFormat));
    let below = build_image(0, &[(1, 120, BASE as u64 - 8, 10, 10)], &[0u8; 10]);
    assert_eq!(load_elf(&below, &mut mem), Err(BootError::InvalidFormat));
}

#[test]
fn parse_header_reads_the_fields() {
    let img = build_image(0xdead_beef, &[(1, 120, BASE as u64, 0, 0)], &[]);
    let mut img = img;
    img[58..60].copy_from_slice(&64u16.to_le_bytes());
    img[60..62].copy_from_slice(&3u16.to_le_bytes());
    let hdr = parse_header(&img).unwrap();
    assert_eq!(hdr.e_entry, 0xdead_beef);
    assert_eq!(hdr.e_phoff, 64);
    assert_eq!(hdr.e_phnum, 1);
    assert_eq!(hdr.e_shentsize, 64);
    assert_eq!(hdr.e_shnum, 3);
    let mut bad = img.clone();
    bad[3] = b'G';
    assert_eq!(parse_header(&bad), Err(BootError::InvalidFormat));
}
