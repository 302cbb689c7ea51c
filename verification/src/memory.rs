//! The memory controller: maps the 64 KiB address space onto devices in
//! 4096-byte blocks and routes byte and word accesses to whichever device
//! owns the target block. Unmapped blocks read as zero and absorb writes.

use vstd::prelude::*;

use crate::device::byte_at;
use crate::device::DeviceKind;
use crate::device::device_reset;
use crate::device::device_store_byte;
use crate::device::Device;
use crate::device::DeviceView;
use crate::device::MappedDevice;

verus! {

/// Number of addressable cells on the bus.
pub const ADDRESS_SPACE: usize = 0x10000;

/// Size of one mapping block in bytes.
pub const MAP_BLOCK_SIZE: usize = 0x1000;

/// Number of blocks the address space divides into.
pub const MAP_BLOCKS: usize = 16;

/// A structural fault of a `map_device` or `unmap_device` call. Bus reads and
/// writes themselves never fail.
#[derive(Clone, Copy, PartialEq, Eq, Structural, Debug)]
pub enum MemoryError {
    /// A requested block is already owned by another mapping.
    Overlap,
    /// A handle outside the legal domain.
    OutOfRange,
}

/// The mathematical image of one mapping: where it starts and what it owns.
#[verifier::ext_equal]
pub struct MappingView {
    pub offset: int,
    pub dev: DeviceView,
}

/// The mathematical image of the whole bus: a 16-slot block table, each slot
/// empty or naming a mapping, and the ordered mappings themselves.
#[verifier::ext_equal]
pub struct BusView {
    pub blocks: Seq<Option<int>>,
    pub mappings: Seq<MappingView>,
}

impl BusView {
    /// Every block slot that names a mapping names a real one whose base
    /// lies at or below the block, on a block boundary.
    pub open spec fn wf(self) -> bool {
        &&& self.blocks.len() == MAP_BLOCKS
        &&& forall|b: int|
            0 <= b < MAP_BLOCKS ==> ((#[trigger] self.blocks[b]) matches Some(i) ==> {
                &&& 0 <= i < self.mappings.len()
                &&& self.mappings[i].offset % (MAP_BLOCK_SIZE as int) == 0
                &&& 0 <= self.mappings[i].offset <= b * (MAP_BLOCK_SIZE as int)
            })
    }

    /// The byte a bus read yields: the owning device's byte, or zero from an
    /// unmapped block.
    #[verifier::opaque]
    pub open spec fn read_byte(self, addr: int) -> u8 {
        match self.blocks[addr / (MAP_BLOCK_SIZE as int)] {
            Some(i) => byte_at(self.mappings[i].dev.bytes, addr - self.mappings[i].offset),
            None => 0,
        }
    }

    /// The little-endian word a 16-bit bus read yields, as two byte reads;
    /// the byte above the top of the address space reads as zero.
    #[verifier::opaque]
    pub open spec fn read_word(self, addr: int) -> u16 {
        (self.read_byte(addr) + 256 * (if addr + 1 < ADDRESS_SPACE {
            self.read_byte(addr + 1)
        } else {
            0
        })) as u16
    }

    /// The bus after one byte store: it reaches the owning device, or is
    /// absorbed by an unmapped block.
    pub open spec fn write_byte(self, addr: int, value: u8) -> BusView {
        match self.blocks[addr / (MAP_BLOCK_SIZE as int)] {
            Some(i) => BusView {
                blocks: self.blocks,
                mappings: self.mappings.update(
                    i,
                    MappingView {
                        offset: self.mappings[i].offset,
                        dev: device_store_byte(
                            self.mappings[i].dev,
                            addr - self.mappings[i].offset,
                            value,
                        ),
                    },
                ),
            },
            None => self,
        }
    }

    /// The bus after a little-endian word store, as two byte stores; the
    /// half above the top of the address space is dropped.
    pub open spec fn write_word(self, addr: int, value: u16) -> BusView {
        let once = self.write_byte(addr, (value % 256) as u8);
        if addr + 1 < ADDRESS_SPACE {
            once.write_byte(addr + 1, (value / 256) as u8)
        } else {
            once
        }
    }

    /// Whether every block of the given range is unowned.
    pub open spec fn range_free(self, first_block: int, blocks: int) -> bool {
        forall|b: int| first_block <= b < first_block + blocks ==> self.blocks[b] is None
    }

    /// The bus after a successful `map_device` call: the mapping is appended
    /// and each covered slot names it.
    pub open spec fn map_device(self, first_block: int, blocks: int, dev: DeviceView) -> BusView {
        BusView {
            blocks: Seq::new(
                MAP_BLOCKS as nat,
                |b: int|
                    if first_block <= b < first_block + blocks {
                        Some(self.mappings.len() as int)
                    } else {
                        self.blocks[b]
                    },
            ),
            mappings: self.mappings.push(
                MappingView { offset: first_block * (MAP_BLOCK_SIZE as int), dev },
            ),
        }
    }

    /// The bus after a successful `unmap_device` call, by index-stable
    /// swap-removal: the last mapping moves into the removed slot, slots of
    /// the removed mapping empty, and slots of the moved mapping follow it.
    pub open spec fn unmap_device(self, handle: int) -> BusView {
        let moved = self.mappings.len() - 1;
        BusView {
            blocks: Seq::new(
                MAP_BLOCKS as nat,
                |b: int|
                    match self.blocks[b] {
                        Some(i) => if i == handle {
                            None
                        } else if i == moved {
                            Some(handle)
                        } else {
                            Some(i)
                        },
                        None => None,
                    },
            ),
            mappings: self.mappings.update(handle, self.mappings.last()).drop_last(),
        }
    }

    /// The bus after `reset`: every mapped device is reset once.
    pub open spec fn reset(self) -> BusView {
        BusView {
            blocks: self.blocks,
            mappings: self.mappings.map_values(
                |m: MappingView| MappingView { offset: m.offset, dev: device_reset(m.dev) },
            ),
        }
    }
}

struct Mapping {
    offset: usize,
    device: Device,
}

/// The block-indexed dispatch fabric between the CPU and the mapped devices.
pub struct MemoryController {
    blocks: Vec<Option<usize>>,
    mappings: Vec<Mapping>,
}

impl View for MemoryController {
    type V = BusView;

    closed spec fn view(&self) -> BusView {
        BusView {
            blocks: self.blocks@.map_values(
                |o: Option<usize>|
                    match o {
                        Some(i) => Some(i as int),
                        None => None,
                    },
            ),
            mappings: self.mappings@.map_values(
                |m: Mapping| MappingView { offset: m.offset as int, dev: m.device@ },
            ),
        }
    }
}

impl MemoryController {
    /// Whether the controller's block table is consistent.
    pub open spec fn wf(&self) -> bool {
        self@.wf()
    }

    /// A controller with no mappings: the whole address space is unmapped.
    pub fn new() -> (r: MemoryController)
        ensures
            r.wf(),
            r@.mappings == Seq::<MappingView>::empty(),
            r@.blocks == Seq::new(MAP_BLOCKS as nat, |b: int| None::<int>),
    {
        let mut blocks: Vec<Option<usize>> = Vec::new();
        while blocks.len() < MAP_BLOCKS
            invariant
                blocks@.len() <= MAP_BLOCKS,
                forall|b: int| 0 <= b < blocks@.len() ==> blocks@[b] is None,
            decreases MAP_BLOCKS - blocks@.len(),
        {
            blocks.push(None);
        }
        let r = MemoryController { blocks, mappings: Vec::new() };
        proof {
            assert(r@.blocks =~= Seq::new(MAP_BLOCKS as nat, |b: int| None::<int>));
            assert(r@.mappings =~= Seq::<MappingView>::empty());
        }
        r
    }

    /// Map a device over a contiguous run of blocks. Fails with `Overlap`,
    /// changing nothing, when any target block is owned already; otherwise
    /// appends the mapping and returns its index as the handle.
    pub fn map_device(&mut self, first_block: usize, blocks: usize, device: Device) -> (r: Result<
        usize,
        MemoryError,
    >)
        requires
            old(self).wf(),
            first_block + blocks <= MAP_BLOCKS,
        ensures
            final(self).wf(),
            old(self)@.range_free(first_block as int, blocks as int) ==> r == Ok::<usize, MemoryError>(
                (old(self)@.mappings.len() as usize),
            ) && final(self)@ == old(self)@.map_device(
                first_block as int,
                blocks as int,
                device@,
            ),
            !old(self)@.range_free(first_block as int, blocks as int) ==> r == Err::<usize, MemoryError>(
                MemoryError::Overlap,
            ) && final(self)@ == old(self)@,
    {
        let mut block = first_block;
        while block < first_block + blocks
            invariant
                first_block <= block <= first_block + blocks <= MAP_BLOCKS,
                self.wf(),
                self@ == old(self)@,
                forall|b: int| first_block <= b < block ==> self@.blocks[b] is None,
            decreases first_block + blocks - block,
        {
            if self.blocks[block].is_some() {
                proof {
                    assert(self@.blocks[block as int] is Some);
                    assert(!self@.range_free(first_block as int, blocks as int));
                }
                return Err(MemoryError::Overlap);
            }
            block = block + 1;
        }
        let mapping_index = self.mappings.len();
        self.mappings.push(Mapping { offset: first_block * MAP_BLOCK_SIZE, device });
        let ghost pushed = self.mappings@;
        let ghost entry_blocks = self.blocks@;
        let mut block = first_block;
        while block < first_block + blocks
            invariant
                first_block <= block <= first_block + blocks <= MAP_BLOCKS,
                self.mappings@ == pushed,
                self.blocks@.len() == MAP_BLOCKS,
                entry_blocks.len() == MAP_BLOCKS,
                forall|b: int|
                    first_block <= b < block ==> (#[trigger] self.blocks@[b]) == Some(
                        mapping_index,
                    ),
                forall|b: int|
                    0 <= b < MAP_BLOCKS && !(first_block <= b < block) ==> (#[trigger] self.blocks@[b])
                        == entry_blocks[b],
            decreases first_block + blocks - block,
        {
            self.blocks[block] = Some(mapping_index);
            block = block + 1;
        }
        proof {
            assert(self@ =~~= old(self)@.map_device(first_block as int, blocks as int, device@));
        }
        Ok(mapping_index)
    }

    /// Unmap by handle. Fails with `OutOfRange`, changing nothing, on a
    /// handle no mapping owns; otherwise removes the mapping by index-stable
    /// swap-removal.
    pub fn unmap_device(&mut self, mapping_index: usize) -> (r: Result<(), MemoryError>)
        requires
            old(self).wf(),
        ensures
            final(self).wf(),
            mapping_index < old(self)@.mappings.len() ==> r == Ok::<(), MemoryError>(())
                && final(self)@ == old(self)@.unmap_device(mapping_index as int),
            mapping_index >= old(self)@.mappings.len() ==> r == Err::<(), MemoryError>(
                MemoryError::OutOfRange,
            ) && final(self)@ == old(self)@,
    {
        if mapping_index >= self.mappings.len() {
            return Err(MemoryError::OutOfRange);
        }
        self.mappings.swap_remove(mapping_index);
        let last_mapping_index = self.mappings.len();
        let ghost removed = self.mappings@;
        let ghost entry_blocks = self.blocks@;
        let mut block: usize = 0;
        while block < MAP_BLOCKS
            invariant
                block <= MAP_BLOCKS,
                self.mappings@ == removed,
                self.blocks@.len() == MAP_BLOCKS,
                entry_blocks.len() == MAP_BLOCKS,
                forall|b: int|
                    0 <= b < block ==> (#[trigger] self.blocks@[b]) == (match entry_blocks[b] {
                        Some(i) => if i == mapping_index {
                            None
                        } else if i == last_mapping_index {
                            Some(mapping_index)
                        } else {
                            Some(i)
                        },
                        None => None::<usize>,
                    }),
                forall|b: int|
                    block <= b < MAP_BLOCKS ==> (#[trigger] self.blocks@[b]) == entry_blocks[b],
            decreases MAP_BLOCKS - block,
        {
            match self.blocks[block] {
                Some(i) => {
                    if i == mapping_index {
                        self.blocks[block] = None;
                    } else if i == last_mapping_index {
                        self.blocks[block] = Some(mapping_index);
                    }
                },
                None => (),
            }
            block = block + 1;
        }
        proof {
            assert(self@ =~~= old(self)@.unmap_device(mapping_index as int));
        }
        Ok(())
    }

    /// Borrow the device a handle names, or fail with `OutOfRange`.
    pub fn get_device(&self, mapping_index: usize) -> (r: Result<&Device, MemoryError>)
        ensures
            mapping_index < self@.mappings.len() ==> (r matches Ok(d) && d@ == self@.mappings[
                mapping_index as int
            ].dev),
            mapping_index >= self@.mappings.len() ==> r == Err::<&Device, MemoryError>(
                MemoryError::OutOfRange,
            ),
    {
        if mapping_index >= self.mappings.len() {
            return Err(MemoryError::OutOfRange);
        }
        Ok(&self.mappings[mapping_index].device)
    }

    /// Borrow the device a handle names mutably, for out-of-band loading.
    /// Whatever the caller writes through the borrow, the block table and the
    /// mapping's base are untouched, so the controller stays consistent.
    pub fn get_device_mut(&mut self, mapping_index: usize) -> (dev: &mut Device)
        requires
            old(self).wf(),
            mapping_index < old(self)@.mappings.len(),
        ensures
            final(self).wf(),
            (*dev)@ == old(self)@.mappings[mapping_index as int].dev,
            final(self)@ =~~= (BusView {
                blocks: old(self)@.blocks,
                mappings: old(self)@.mappings.update(
                    mapping_index as int,
                    MappingView {
                        offset: old(self)@.mappings[mapping_index as int].offset,
                        dev: (*final(dev))@,
                    },
                ),
            }),
    {
        &mut self.mappings[mapping_index].device
    }

    /// 8-bit bus read: zero from an unmapped block, the owning device's byte
    /// otherwise.
    pub fn read_8(&self, address: usize) -> (r: u8)
        requires
            self.wf(),
            address < ADDRESS_SPACE,
        ensures
            r == self@.read_byte(address as int),
    {
        proof {
            reveal(BusView::read_byte);
        }
        let block = address / MAP_BLOCK_SIZE;
        match self.blocks[block] {
            Some(mapping_index) => {
                proof {
                    assert(self@.blocks[block as int] == Some(mapping_index as int));
                    assert(mapping_index < self@.mappings.len());
                    assert(self@.mappings[mapping_index as int].offset == self.mappings@[
                        mapping_index as int
                    ].offset as int);
                    assert((block as int) * (MAP_BLOCK_SIZE as int) <= address);
                }
                let mapping = &self.mappings[mapping_index];
                mapping.device.read_8(address - mapping.offset)
            },
            None => 0x00,
        }
    }

    /// 16-bit little-endian bus read, dispatched as two 8-bit reads so each
    /// byte lands on the device that owns its block.
    pub fn read_16(&self, address: usize) -> (r: u16)
        requires
            self.wf(),
            address < ADDRESS_SPACE,
        ensures
            r == self@.read_word(address as int),
    {
        proof {
            reveal(BusView::read_word);
        }
        let lo = self.read_8(address);
        let hi = if address + 1 < ADDRESS_SPACE {
            self.read_8(address + 1)
        } else {
            0
        };
        lo as u16 + hi as u16 * 256
    }

    /// 8-bit bus write: absorbed by an unmapped block, routed to the owning
    /// device otherwise.
    pub fn write_8(&mut self, address: usize, value: u8)
        requires
            old(self).wf(),
            address < ADDRESS_SPACE,
        ensures
            final(self).wf(),
            final(self)@ == old(self)@.write_byte(address as int, value),
    {
        let block = address / MAP_BLOCK_SIZE;
        match self.blocks[block] {
            Some(mapping_index) => {
                proof {
                    assert(self@.blocks[block as int] == Some(mapping_index as int));
                    assert(mapping_index < self@.mappings.len());
                    assert((block as int) * (MAP_BLOCK_SIZE as int) <= address);
                }
                let mapping = &mut self.mappings[mapping_index];
                let translated_address = address - mapping.offset;
                mapping.device.write_8(translated_address, value);
                proof {
                    assert(self@ =~~= old(self)@.write_byte(address as int, value));
                }
            },
            None => (),
        }
    }

    /// 16-bit little-endian bus write, dispatched as two 8-bit writes so
    /// each byte lands on the device that owns its block.
    pub fn write_16(&mut self, address: usize, value: u16)
        requires
            old(self).wf(),
            address < ADDRESS_SPACE,
        ensures
            final(self).wf(),
            final(self)@ == old(self)@.write_word(address as int, value),
    {
        self.write_8(address, (value % 256) as u8);
        if address + 1 < ADDRESS_SPACE {
            self.write_8(address + 1, (value / 256) as u8);
        }
    }

    /// Reset every mapped device exactly once: writable stores zero-fill,
    /// write-protected ones keep their bytes.
    pub fn reset(&mut self)
        requires
            old(self).wf(),
        ensures
            final(self).wf(),
            final(self)@ == old(self)@.reset(),
    {
        let count = self.mappings.len();
        let mut k: usize = 0;
        while k < count
            invariant
                k <= count,
                count == self.mappings@.len(),
                self.blocks@ == old(self).blocks@,
                self.mappings@.len() == old(self).mappings@.len(),
                forall|j: int|
                    0 <= j < k ==> (#[trigger] self.mappings@[j]).offset == old(
                        self,
                    ).mappings@[j].offset && self.mappings@[j].device@ == device_reset(
                        old(self).mappings@[j].device@,
                    ),
                forall|j: int|
                    k <= j < count ==> (#[trigger] self.mappings@[j]) == old(self).mappings@[j],
            decreases count - k,
        {
            let mapping = &mut self.mappings[k];
            mapping.device.reset();
            proof {
                assert(self.mappings@[k as int].device@ =~~= device_reset(
                    old(self).mappings@[k as int].device@,
                ));
            }
            k = k + 1;
        }
        proof {
            assert(self@ =~~= old(self)@.reset());
        }
    }
}

/// Whether a bus address falls on a writable store, inside its reported
/// size.
pub open spec fn ram_backed(bv: BusView, addr: int) -> bool {
    bv.blocks[addr / (MAP_BLOCK_SIZE as int)] matches Some(i) && bv.mappings[i].dev.kind
        == DeviceKind::Ram && 0 <= addr - bv.mappings[i].offset < bv.mappings[i].dev.bytes.len()
}

/// Whether a bus address falls on a write-protected store.
pub open spec fn rom_backed(bv: BusView, addr: int) -> bool {
    bv.blocks[addr / (MAP_BLOCK_SIZE as int)] matches Some(i) && bv.mappings[i].dev.kind
        == DeviceKind::Rom
}

/// An address in an unmapped block reads as zero, as a byte and as a word
/// when its high byte is unmapped too, and a store to it changes nothing:
/// a byte written there still reads back as zero.
pub proof fn lemma_unmapped_block(bv: BusView, addr: int, value: u8)
    requires
        bv.wf(),
        0 <= addr < ADDRESS_SPACE,
        bv.blocks[addr / (MAP_BLOCK_SIZE as int)] is None,
    ensures
        bv.read_byte(addr) == 0,
        bv.write_byte(addr, value) == bv,
        bv.write_byte(addr, value).read_byte(addr) == 0,
        (addr + 1 < ADDRESS_SPACE ==> bv.blocks[(addr + 1) / (MAP_BLOCK_SIZE as int)] is None)
            ==> bv.read_word(addr) == 0,
{
    reveal(BusView::read_byte);
    reveal(BusView::read_word);
}

/// A byte stored at one address leaves the byte at every other address as
/// it was.
pub proof fn lemma_write_byte_frame(bv: BusView, write_addr: int, value: u8, read_addr: int)
    requires
        bv.wf(),
        0 <= write_addr < ADDRESS_SPACE,
        0 <= read_addr < ADDRESS_SPACE,
        read_addr != write_addr,
    ensures
        bv.write_byte(write_addr, value).read_byte(read_addr) == bv.read_byte(read_addr),
{
    reveal(BusView::read_byte);
    let wb = bv.write_byte(write_addr, value);
    match bv.blocks[write_addr / (MAP_BLOCK_SIZE as int)] {
        Some(i) => {
            match bv.blocks[read_addr / (MAP_BLOCK_SIZE as int)] {
                Some(k) => {
                    if k == i {
                        assert(read_addr - bv.mappings[i].offset != write_addr - bv.mappings[
                            i
                        ].offset);
                    }
                },
                None => (),
            }
        },
        None => (),
    }
}

/// A byte store keeps the bus consistent and moves no mapping: the block
/// table, every base and every store size stay as they were.
pub proof fn lemma_write_byte_wf(bv: BusView, addr: int, value: u8)
    requires
        bv.wf(),
        0 <= addr < ADDRESS_SPACE,
    ensures
        bv.write_byte(addr, value).wf(),
        bv.write_byte(addr, value).blocks == bv.blocks,
        bv.write_byte(addr, value).mappings.len() == bv.mappings.len(),
        forall|i: int|
            0 <= i < bv.mappings.len() ==> (#[trigger] bv.write_byte(addr, value).mappings[
                i
            ]).offset == bv.mappings[i].offset && bv.write_byte(addr, value).mappings[
                i
            ].dev.kind == bv.mappings[i].dev.kind && bv.write_byte(addr, value).mappings[
                i
            ].dev.bytes.len() == bv.mappings[i].dev.bytes.len(),
{
}

/// A byte written to a writable store reads back: `write8` then `read8` at
/// one RAM-backed address yields the written value.
pub proof fn lemma_ram_write_read_byte(bv: BusView, addr: int, value: u8)
    requires
        bv.wf(),
        0 <= addr < ADDRESS_SPACE,
        ram_backed(bv, addr),
    ensures
        bv.write_byte(addr, value).read_byte(addr) == value,
{
    reveal(BusView::read_byte);
}

/// A word stored little-endian reads back: `write16` then `read16` at an
/// address whose two bytes both land on writable stores, inside their
/// reported sizes, yields the written word.
pub proof fn lemma_ram_write_read_word(bv: BusView, addr: int, value: u16)
    requires
        bv.wf(),
        0 <= addr,
        addr + 1 < ADDRESS_SPACE,
        ram_backed(bv, addr),
        ram_backed(bv, addr + 1),
    ensures
        bv.write_word(addr, value).read_word(addr) == value,
{
    reveal(BusView::read_word);
    let lo = (value % 256) as u8;
    let hi = (value / 256) as u8;
    let w1 = bv.write_byte(addr, lo);
    let w2 = w1.write_byte(addr + 1, hi);
    lemma_write_byte_wf(bv, addr, lo);
    lemma_ram_write_read_byte(bv, addr, lo);
    assert(ram_backed(w1, addr + 1));
    lemma_ram_write_read_byte(w1, addr + 1, hi);
    lemma_write_byte_frame(w1, addr + 1, hi, addr);
    assert(w1.read_byte(addr) == value % 256);
    assert(w2.read_byte(addr + 1) == value / 256);
}

/// Bus writes do not reach a write-protected store: a byte store to a
/// ROM-backed address leaves the whole bus exactly as it was.
pub proof fn lemma_rom_write_byte_ignored(bv: BusView, addr: int, value: u8)
    requires
        bv.wf(),
        0 <= addr < ADDRESS_SPACE,
        rom_backed(bv, addr),
    ensures
        bv.write_byte(addr, value) == bv,
{
    assert(bv.write_byte(addr, value) =~~= bv);
}

/// A word store whose two bytes both land on write-protected stores or
/// unmapped blocks leaves the whole bus exactly as it was, so no subsequent
/// read changes.
pub proof fn lemma_rom_write_word_ignored(bv: BusView, addr: int, value: u16)
    requires
        bv.wf(),
        0 <= addr < ADDRESS_SPACE,
        rom_backed(bv, addr) || bv.blocks[addr / (MAP_BLOCK_SIZE as int)] is None,
        addr + 1 < ADDRESS_SPACE ==> rom_backed(bv, addr + 1) || bv.blocks[(addr + 1) / (
        MAP_BLOCK_SIZE as int)] is None,
    ensures
        bv.write_word(addr, value) == bv,
{
    let lo = (value % 256) as u8;
    let hi = (value / 256) as u8;
    if rom_backed(bv, addr) {
        lemma_rom_write_byte_ignored(bv, addr, lo);
    }
    if addr + 1 < ADDRESS_SPACE && rom_backed(bv, addr + 1) {
        lemma_rom_write_byte_ignored(bv, addr + 1, hi);
    }
}

/// Mapping identity: the handle a successful `map_device` call returns
/// names the mapped device, at the base block's address.
pub proof fn lemma_map_then_get(bv: BusView, first_block: int, blocks: int, dev: DeviceView)
    ensures
        bv.map_device(first_block, blocks, dev).mappings.len() == bv.mappings.len() + 1,
        bv.map_device(first_block, blocks, dev).mappings[bv.mappings.len() as int].dev == dev,
        bv.map_device(first_block, blocks, dev).mappings[bv.mappings.len() as int].offset
            == first_block * (MAP_BLOCK_SIZE as int),
{
}

/// Handle stability under swap-removal: unmapping one handle leaves every
/// other handle but the last-issued one naming the mapping it named before.
pub proof fn lemma_unmap_preserves_other_handles(bv: BusView, removed: int, handle: int)
    requires
        0 <= removed < bv.mappings.len(),
        0 <= handle < bv.mappings.len() - 1,
        handle != removed,
    ensures
        bv.unmap_device(removed).mappings[handle] == bv.mappings[handle],
{
}

} // verus!
