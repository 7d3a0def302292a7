//! ELF64 image loader.
//!
//! Parses the ELF header and program-header table out of a byte image,
//! copies every segment of type `PT_LOAD` to its physical destination,
//! zero-fills the uninitialized tail of each segment, and yields the entry
//! address as an opaque `EntryPoint` that only a successful load can
//! produce. Loading is a pure copy-then-zero-fill: no relocation.

use vstd::prelude::*;

use crate::BootError;

verus! {

/// Program-header type of a segment that must be copied into memory.
pub const PT_LOAD: u32 = 1;

/// Size in bytes of the ELF64 file header.
pub const ELF_HEADER_SIZE: usize = 64;

/// Size in bytes of one ELF64 program header.
pub const PHDR_SIZE: usize = 56;

/// The 16-bit little-endian value at byte offset `off`.
pub open spec fn le16(s: Seq<u8>, off: int) -> u16 {
    (s[off] + s[off + 1] * 0x100) as u16
}

/// The 32-bit little-endian value at byte offset `off`.
pub open spec fn le32(s: Seq<u8>, off: int) -> u32 {
    (s[off] + s[off + 1] * 0x100 + s[off + 2] * 0x10000 + s[off + 3] * 0x100_0000) as u32
}

/// The 64-bit little-endian value at byte offset `off`.
pub open spec fn le64(s: Seq<u8>, off: int) -> u64 {
    (le32(s, off) + le32(s, off + 4) * 0x1_0000_0000) as u64
}

fn read_u16(b: &Vec<u8>, off: usize) -> (r: u16)
    requires
        off + 2 <= b@.len(),
    ensures
        r == le16(b@, off as int),
{
    // Binding the executable length bounds the index arithmetic.
    let n = b.len();
    (b[off] as u16) + (b[off + 1] as u16) * 0x100
}

fn read_u32(b: &Vec<u8>, off: usize) -> (r: u32)
    requires
        off + 4 <= b@.len(),
    ensures
        r == le32(b@, off as int),
{
    // Binding the executable length bounds the index arithmetic.
    let n = b.len();
    (b[off] as u32) + (b[off + 1] as u32) * 0x100 + (b[off + 2] as u32) * 0x10000 + (b[off
        + 3] as u32) * 0x100_0000
}

fn read_u64(b: &Vec<u8>, off: usize) -> (r: u64)
    requires
        off + 8 <= b@.len(),
    ensures
        r == le64(b@, off as int),
{
    // Binding the executable length bounds the index arithmetic.
    let n = b.len();
    (read_u32(b, off) as u64) + (read_u32(b, off + 4) as u64) * 0x1_0000_0000
}

/// The fixed-width fields of the ELF64 file header.
#[derive(Clone, Copy, Debug, PartialEq, Eq, Structural)]
pub struct Elf64Header {
    pub e_type: u16,
    pub e_machine: u16,
    pub e_version: u32,
    pub e_entry: u64,
    pub e_phoff: u64,
    pub e_shoff: u64,
    pub e_flags: u32,
    pub e_ehsize: u16,
    pub e_phentsize: u16,
    pub e_phnum: u16,
    pub e_shentsize: u16,
    pub e_shnum: u16,
    pub e_shstrndx: u16,
}

/// One ELF64 program header.
#[derive(Clone, Copy, Debug, PartialEq, Eq, Structural)]
pub struct ProgramHeader {
    pub p_type: u32,
    pub p_flags: u32,
    pub p_offset: u64,
    pub p_vaddr: u64,
    pub p_paddr: u64,
    pub p_filesz: u64,
    pub p_memsz: u64,
    pub p_align: u64,
}

/// Whether the image starts with the 4-byte ELF magic signature.
pub open spec fn elf_magic_ok(img: Seq<u8>) -> bool {
    &&& img.len() >= 4
    &&& img[0] == 0x7fu8
    &&& img[1] == 0x45u8
    &&& img[2] == 0x4cu8
    &&& img[3] == 0x46u8
}

/// The header fields as laid out at the start of the image.
pub open spec fn header_of(img: Seq<u8>) -> Elf64Header {
    Elf64Header {
        e_type: le16(img, 16),
        e_machine: le16(img, 18),
        e_version: le32(img, 20),
        e_entry: le64(img, 24),
        e_phoff: le64(img, 32),
        e_shoff: le64(img, 40),
        e_flags: le32(img, 48),
        e_ehsize: le16(img, 52),
        e_phentsize: le16(img, 54),
        e_phnum: le16(img, 56),
        e_shentsize: le16(img, 58),
        e_shnum: le16(img, 60),
        e_shstrndx: le16(img, 62),
    }
}

/// The program header laid out at byte offset `off` of the image.
pub open spec fn phdr_of(img: Seq<u8>, off: int) -> ProgramHeader {
    ProgramHeader {
        p_type: le32(img, off),
        p_flags: le32(img, off + 4),
        p_offset: le64(img, off + 8),
        p_vaddr: le64(img, off + 16),
        p_paddr: le64(img, off + 24),
        p_filesz: le64(img, off + 32),
        p_memsz: le64(img, off + 40),
        p_align: le64(img, off + 48),
    }
}

/// Parse the file header. Fails exactly when the image is shorter than the
/// header or does not carry the magic signature.
pub fn parse_header(img: &Vec<u8>) -> (r: Result<Elf64Header, BootError>)
    ensures
        (img@.len() >= ELF_HEADER_SIZE && elf_magic_ok(img@)) ==> r == Result::<
            Elf64Header,
            BootError,
        >::Ok(header_of(img@)),
        !(img@.len() >= ELF_HEADER_SIZE && elf_magic_ok(img@)) ==> r == Result::<
            Elf64Header,
            BootError,
        >::Err(BootError::InvalidFormat),
{
    if img.len() < ELF_HEADER_SIZE {
        return Err(BootError::InvalidFormat);
    }
    if img[0] != 0x7f || img[1] != 0x45 || img[2] != 0x4c || img[3] != 0x46 {
        return Err(BootError::InvalidFormat);
    }
    Ok(
        Elf64Header {
            e_type: read_u16(img, 16),
            e_machine: read_u16(img, 18),
            e_version: read_u32(img, 20),
            e_entry: read_u64(img, 24),
            e_phoff: read_u64(img, 32),
            e_shoff: read_u64(img, 40),
            e_flags: read_u32(img, 48),
            e_ehsize: read_u16(img, 52),
            e_phentsize: read_u16(img, 54),
            e_phnum: read_u16(img, 56),
            e_shentsize: read_u16(img, 58),
            e_shnum: read_u16(img, 60),
            e_shstrndx: read_u16(img, 62),
        },
    )
}

fn parse_phdr(img: &Vec<u8>, off: usize) -> (r: ProgramHeader)
    requires
        off + PHDR_SIZE <= img@.len(),
    ensures
        r == phdr_of(img@, off as int),
{
    // Binding the executable length bounds the index arithmetic.
    let n = img.len();
    ProgramHeader {
        p_type: read_u32(img, off),
        p_flags: read_u32(img, off + 4),
        p_offset: read_u64(img, off + 8),
        p_vaddr: read_u64(img, off + 16),
        p_paddr: read_u64(img, off + 24),
        p_filesz: read_u64(img, off + 32),
        p_memsz: read_u64(img, off + 40),
        p_align: read_u64(img, off + 48),
    }
}

/// A window of physical memory the loader may write: `base` is the
/// physical address of its first byte. Its view is its byte contents.
pub struct PhysMemory {
    base: usize,
    mem: Vec<u8>,
}

impl View for PhysMemory {
    type V = Seq<u8>;

    closed spec fn view(&self) -> Seq<u8> {
        self.mem@
    }
}

impl PhysMemory {
    /// The physical address of the first byte of the window.
    pub closed spec fn base_spec(&self) -> usize {
        self.base
    }

    /// A zero-filled window of `size` bytes starting at physical `base`.
    pub fn new(base: usize, size: usize) -> (r: PhysMemory)
        ensures
            r.base_spec() == base,
            r@ == Seq::new(size as nat, |i: int| 0u8),
    {
        let mut mem: Vec<u8> = Vec::new();
        let mut i: usize = 0;
        while i < size
            invariant
                i <= size,
                mem@.len() == i,
                forall|j: int| 0 <= j < i ==> mem@[j] == 0u8,
            decreases size - i,
        {
            mem.push(0u8);
            i = i + 1;
        }
        let r = PhysMemory { base, mem };
        proof {
            assert(r@ =~= Seq::new(size as nat, |i: int| 0u8));
        }
        r
    }

    /// The physical address of the first byte.
    pub fn base(&self) -> (r: usize)
        ensures
            r == self.base_spec(),
    {
        self.base
    }

    /// The size of the window in bytes.
    pub fn size(&self) -> (r: usize)
        ensures
            r == self@.len(),
    {
        self.mem.len()
    }

    /// The byte at physical address `addr`.
    pub fn read_byte(&self, addr: usize) -> (r: u8)
        requires
            self.base_spec() <= addr,
            addr - self.base_spec() < self@.len(),
        ensures
            r == self@[addr - self.base_spec()],
    {
        self.mem[addr - self.base]
    }
}

/// Whether one `PT_LOAD` program header describes a segment that lies
/// inside the image and inside the memory window.
pub open spec fn segment_in_bounds(img: Seq<u8>, ph: ProgramHeader, base: int, memlen: int) -> bool {
    &&& ph.p_filesz <= ph.p_memsz
    &&& ph.p_offset + ph.p_filesz <= img.len()
    &&& base <= ph.p_paddr
    &&& ph.p_paddr + ph.p_memsz <= base + memlen
}

/// Whether the image is a well-formed ELF64 executable whose `PT_LOAD`
/// segments all fit the memory window: the load succeeds exactly here.
pub open spec fn elf_ok(img: Seq<u8>, base: int, memlen: int) -> bool {
    &&& img.len() >= ELF_HEADER_SIZE
    &&& elf_magic_ok(img)
    &&& header_of(img).e_phoff + PHDR_SIZE * header_of(img).e_phnum <= img.len()
    &&& forall|k: int|
        0 <= k < header_of(img).e_phnum ==> ((#[trigger] phdr_of(
            img,
            header_of(img).e_phoff + PHDR_SIZE * k,
        )).p_type == PT_LOAD ==> segment_in_bounds(
            img,
            phdr_of(img, header_of(img).e_phoff + PHDR_SIZE * k),
            base,
            memlen,
        ))
}

/// Memory after materializing one `PT_LOAD` segment: `p_filesz` bytes
/// copied from the image, the next `p_memsz - p_filesz` bytes zeroed,
/// everything else untouched.
pub open spec fn copy_segment(mem: Seq<u8>, img: Seq<u8>, ph: ProgramHeader, base: int) -> Seq<u8> {
    let d = ph.p_paddr - base;
    Seq::new(
        mem.len(),
        |i: int|
            if d <= i < d + ph.p_filesz {
                img[ph.p_offset + (i - d)]
            } else if d + ph.p_filesz <= i < d + ph.p_memsz {
                0u8
            } else {
                mem[i]
            },
    )
}

/// Memory after materializing the first `n` program headers of the table
/// at `phoff`, in table order; headers of other types change nothing.
pub open spec fn load_upto(mem: Seq<u8>, img: Seq<u8>, base: int, phoff: int, n: int) -> Seq<u8>
    decreases n,
{
    if n <= 0 {
        mem
    } else {
        let prev = load_upto(mem, img, base, phoff, n - 1);
        let ph = phdr_of(img, phoff + PHDR_SIZE * (n - 1));
        if ph.p_type == PT_LOAD {
            copy_segment(prev, img, ph, base)
        } else {
            prev
        }
    }
}

/// Memory after materializing every program header of the image.
pub open spec fn load_result(mem: Seq<u8>, img: Seq<u8>, base: int) -> Seq<u8> {
    load_upto(mem, img, base, header_of(img).e_phoff as int, header_of(img).e_phnum as int)
}

/// A validated entry address. Only a successful `load_elf` produces one;
/// turning it into a transfer of control is the orchestrator's business.
#[derive(Clone, Copy, Debug, PartialEq, Eq, Structural)]
pub struct EntryPoint {
    addr: u64,
}

impl EntryPoint {
    /// The entry address this value carries.
    pub closed spec fn addr_spec(&self) -> u64 {
        self.addr
    }

    /// The entry address, for the one caller allowed to jump to it.
    pub fn addr(&self) -> (r: u64)
        ensures
            r == self.addr_spec(),
    {
        self.addr
    }
}

/// Load an ELF64 image into the memory window and return its entry point.
///
/// Succeeds exactly on a well-formed image whose `PT_LOAD` segments fit
/// the window; then every such segment has been copied and zero-filled in
/// table order. On failure the memory window is untouched.
pub fn load_elf(img: &Vec<u8>, mem: &mut PhysMemory) -> (r: Result<EntryPoint, BootError>)
    ensures
        final(mem).base_spec() == old(mem).base_spec(),
        elf_ok(img@, old(mem).base_spec() as int, old(mem)@.len() as int) ==> {
            &&& r is Ok
            &&& r matches Ok(e) && e.addr_spec() == header_of(img@).e_entry
            &&& final(mem)@ == load_result(old(mem)@, img@, old(mem).base_spec() as int)
        },
        !elf_ok(img@, old(mem).base_spec() as int, old(mem)@.len() as int) ==> {
            &&& r == Result::<EntryPoint, BootError>::Err(BootError::InvalidFormat)
            &&& final(mem)@ == old(mem)@
        },
{
    let ghost base = mem.base_spec() as int;
    let ghost memlen = mem@.len() as int;
    let hdr = match parse_header(img) {
        Ok(h) => h,
        Err(e) => {
            return Err(BootError::InvalidFormat);
        },
    };
    let len64: u64 = img.len() as u64;
    if hdr.e_phoff > len64 || (hdr.e_phnum as u64) * (PHDR_SIZE as u64) > len64 - hdr.e_phoff {
        return Err(BootError::InvalidFormat);
    }
    let phoff: usize = hdr.e_phoff as usize;
    let phnum: usize = hdr.e_phnum as usize;
    let base64: u64 = mem.base() as u64;
    let memlen64: u64 = mem.size() as u64;

    // Validate every PT_LOAD segment before touching memory, so that a
    // malformed image leaves the window unchanged.
    let mut k: usize = 0;
    while k < phnum
        invariant
            phnum == header_of(img@).e_phnum,
            phoff == header_of(img@).e_phoff,
            phoff + PHDR_SIZE * phnum <= img@.len(),
            img@.len() == len64,
            img@.len() <= usize::MAX,
            base64 == mem.base_spec() as u64,
            mem@.len() == memlen64,
            base == mem.base_spec() as int,
            memlen == mem@.len() as int,
            k <= phnum,
            forall|t: int|
                0 <= t < k ==> ((#[trigger] phdr_of(img@, phoff + PHDR_SIZE * t)).p_type == PT_LOAD
                    ==> segment_in_bounds(
                    img@,
                    phdr_of(img@, phoff + PHDR_SIZE * t),
                    base,
                    memlen,
                )),
        decreases phnum - k,
    {
        let ph = parse_phdr(img, phoff + PHDR_SIZE * k);
        if ph.p_type == PT_LOAD {
            let ok = ph.p_filesz <= ph.p_memsz && ph.p_offset <= len64 && ph.p_filesz <= len64
                - ph.p_offset && base64 <= ph.p_paddr && ph.p_paddr - base64 <= memlen64
                && ph.p_memsz <= memlen64 - (ph.p_paddr - base64);
            proof {
                assert(ok == segment_in_bounds(img@, ph, base, memlen));
            }
            if !ok {
                return Err(BootError::InvalidFormat);
            }
        }
        k = k + 1;
    }
    proof {
        assert(elf_ok(img@, base, memlen));
    }

    // Materialize the segments in table order.
    let ghost mem0 = mem@;
    let mut k: usize = 0;
    while k < phnum
        invariant
            phnum == header_of(img@).e_phnum,
            phoff == header_of(img@).e_phoff,
            phoff + PHDR_SIZE * phnum <= img@.len(),
            img@.len() == len64,
            img@.len() <= usize::MAX,
            base == mem.base_spec() as int,
            memlen == mem@.len() as int,
            mem0.len() == memlen,
            k <= phnum,
            elf_ok(img@, base, memlen),
            mem@ == load_upto(mem0, img@, base, phoff as int, k as int),
        decreases phnum - k,
    {
        let ph = parse_phdr(img, phoff + PHDR_SIZE * k);
        if ph.p_type == PT_LOAD {
            copy_one_segment(img, mem, ph);
            proof {
                assert(mem@ == load_upto(mem0, img@, base, phoff as int, k + 1 as int));
            }
        } else {
            proof {
                assert(mem@ == load_upto(mem0, img@, base, phoff as int, k + 1 as int));
            }
        }
        k = k + 1;
    }
    Ok(EntryPoint { addr: hdr.e_entry })
}

/// Copy one `PT_LOAD` segment into the window and zero its tail.
fn copy_one_segment(img: &Vec<u8>, mem: &mut PhysMemory, ph: ProgramHeader)
    requires
        segment_in_bounds(img@, ph, old(mem).base_spec() as int, old(mem)@.len() as int),
    ensures
        final(mem).base_spec() == old(mem).base_spec(),
        final(mem)@ == copy_segment(old(mem)@, img@, ph, old(mem).base_spec() as int),
{
    let ghost prev = mem@;
    let ghost base = mem.base_spec() as int;
    let ghost d = ph.p_paddr - base;
    let msize: usize = mem.size();
    let ilen: usize = img.len();
    proof {
        assert(ph.p_paddr - base <= msize);
        assert(ph.p_offset <= ilen);
        assert(ph.p_filesz <= msize);
        assert(ph.p_memsz <= msize);
    }
    let dst: usize = (ph.p_paddr - mem.base() as u64) as usize;
    let off: usize = ph.p_offset as usize;
    let filesz: usize = ph.p_filesz as usize;
    let memsz: usize = ph.p_memsz as usize;
    let mut j: usize = 0;
    while j < filesz
        invariant
            segment_in_bounds(img@, ph, base, prev.len() as int),
            base == mem.base_spec() as int,
            d == ph.p_paddr - base,
            dst == d,
            off == ph.p_offset,
            img@.len() <= usize::MAX,
            prev.len() <= usize::MAX,
            filesz == ph.p_filesz,
            memsz == ph.p_memsz,
            prev.len() == mem@.len(),
            j <= filesz,
            forall|t: int| 0 <= t < prev.len() && !(d <= t < d + j) ==> mem@[t] == prev[t],
            forall|t: int| d <= t < d + j ==> mem@[t] == img@[ph.p_offset + (t - d)],
        decreases filesz - j,
    {
        let b = img[off + j];
        mem.mem.set(dst + j, b);
        j = j + 1;
    }
    let mut j: usize = filesz;
    while j < memsz
        invariant
            segment_in_bounds(img@, ph, base, prev.len() as int),
            base == mem.base_spec() as int,
            d == ph.p_paddr - base,
            dst == d,
            img@.len() <= usize::MAX,
            prev.len() <= usize::MAX,
            filesz == ph.p_filesz,
            memsz == ph.p_memsz,
            prev.len() == mem@.len(),
            filesz <= j <= memsz,
            forall|t: int| 0 <= t < prev.len() && !(d <= t < d + j) ==> mem@[t] == prev[t],
            forall|t: int| d <= t < d + filesz ==> mem@[t] == img@[ph.p_offset + (t - d)],
            forall|t: int| d + filesz <= t < d + j ==> mem@[t] == 0u8,
        decreases memsz - j,
    {
        mem.mem.set(dst + j, 0u8);
        j = j + 1;
    }
    proof {
        assert(mem@ =~= copy_segment(prev, img@, ph, base));
    }
}

} // verus!
