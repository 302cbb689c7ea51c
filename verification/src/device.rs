//! Bus-mapped devices: the contract they satisfy, and the two concrete
//! byte-backed stores, writable `RAM` and write-protected `ROM`.

use vstd::prelude::*;

verus! {

broadcast use vstd::slice::axiom_spec_len;

/// The byte a device yields at a device-local address: bytes past the end of
/// the store read as zero.
pub open spec fn byte_at(bytes: Seq<u8>, addr: int) -> u8 {
    if 0 <= addr < bytes.len() {
        bytes[addr]
    } else {
        0
    }
}

/// The little-endian word assembled from two neighbouring device bytes; a
/// word that straddles the end of the store gets a zero high byte.
pub open spec fn word_at(bytes: Seq<u8>, addr: int) -> u16 {
    (byte_at(bytes, addr) + 256 * byte_at(bytes, addr + 1)) as u16
}

/// One byte stored at a device-local address; a write past the end of the
/// store is dropped.
pub open spec fn store_byte(bytes: Seq<u8>, addr: int, value: u8) -> Seq<u8> {
    if 0 <= addr < bytes.len() {
        bytes.update(addr, value)
    } else {
        bytes
    }
}

/// A little-endian word stored as two byte stores; the half of a straddling
/// write that falls outside the store is dropped.
pub open spec fn store_word(bytes: Seq<u8>, addr: int, value: u16) -> Seq<u8> {
    store_byte(store_byte(bytes, addr, (value % 256) as u8), addr + 1, (value / 256) as u8)
}

/// A run of zero bytes.
pub open spec fn zeroed(len: nat) -> Seq<u8> {
    Seq::new(len, |i: int| 0u8)
}

/// The contract every bus-mapped device satisfies. All addresses are
/// device-local, zero-based from the mapping's base. Reads past the reported
/// size yield zero, writes past it are dropped, and no access panics.
pub trait MappedDevice: Sized {
    /// The bytes the device holds.
    spec fn contents(&self) -> Seq<u8>;

    /// Whether bus writes reach the store.
    spec fn bus_writable(&self) -> bool;

    /// Whether `reset` clears the store.
    spec fn volatile(&self) -> bool;

    /// Reported size of the store in bytes.
    fn size(&self) -> (n: usize)
        ensures
            n == self.contents().len(),
    ;

    /// 8-bit bus read.
    fn read_8(&self, address: usize) -> (r: u8)
        ensures
            r == byte_at(self.contents(), address as int),
    ;

    /// 16-bit little-endian bus read.
    fn read_16(&self, address: usize) -> (r: u16)
        requires
            address < usize::MAX,
        ensures
            r == word_at(self.contents(), address as int),
    ;

    /// 8-bit bus write; dropped entirely when the device is not writable.
    fn write_8(&mut self, address: usize, value: u8)
        ensures
            final(self).contents() == (if old(self).bus_writable() {
                store_byte(old(self).contents(), address as int, value)
            } else {
                old(self).contents()
            }),
            final(self).bus_writable() == old(self).bus_writable(),
            final(self).volatile() == old(self).volatile(),
    ;

    /// 16-bit little-endian bus write; dropped entirely when the device is
    /// not writable.
    fn write_16(&mut self, address: usize, value: u16)
        requires
            address < usize::MAX,
        ensures
            final(self).contents() == (if old(self).bus_writable() {
                store_word(old(self).contents(), address as int, value)
            } else {
                old(self).contents()
            }),
            final(self).bus_writable() == old(self).bus_writable(),
            final(self).volatile() == old(self).volatile(),
    ;

    /// Reset: a volatile store is zero-filled, any other keeps its bytes.
    fn reset(&mut self)
        ensures
            final(self).contents() == (if old(self).volatile() {
                zeroed(old(self).contents().len())
            } else {
                old(self).contents()
            }),
            final(self).bus_writable() == old(self).bus_writable(),
            final(self).volatile() == old(self).volatile(),
    ;

    /// Read-only view of a byte range, for out-of-band inspection.
    fn peek_bytes(&self, address: usize, count: usize) -> (r: &[u8])
        requires
            address + count <= self.contents().len(),
        ensures
            r@ == self.contents().subrange(address as int, address as int + count as int),
    ;

    /// Overwrite a byte range. This is an out-of-band programmer interface,
    /// not a bus write: it mutates write-protected stores too.
    fn poke_bytes(&mut self, address: usize, bytes: &[u8])
        requires
            address + bytes@.len() <= old(self).contents().len(),
        ensures
            final(self).contents() == old(self).contents().subrange(0, address as int)
                + bytes@
                + old(self).contents().subrange(
                    address as int + bytes@.len() as int,
                    old(self).contents().len() as int,
                ),
            final(self).bus_writable() == old(self).bus_writable(),
            final(self).volatile() == old(self).volatile(),
    ;
}

/// A byte-backed store whose bus writes land and whose reset zero-fills it.
pub struct RAM {
    memory: Vec<u8>,
}

impl View for RAM {
    type V = Seq<u8>;

    closed spec fn view(&self) -> Seq<u8> {
        self.memory@
    }
}

impl RAM {
    /// A zero-filled store of the given capacity.
    pub fn new(capacity: usize) -> (r: RAM)
        ensures
            r@ == zeroed(capacity as nat),
    {
        RAM { memory: zero_bytes(capacity) }
    }

    /// Set every byte of the store to `value`.
    pub fn fill(&mut self, value: u8)
        ensures
            final(self)@ == Seq::new(old(self)@.len(), |i: int| value),
    {
        fill_bytes(&mut self.memory, value);
    }
}

impl MappedDevice for RAM {
    open spec fn contents(&self) -> Seq<u8> {
        self@
    }

    open spec fn bus_writable(&self) -> bool {
        true
    }

    open spec fn volatile(&self) -> bool {
        true
    }

    fn size(&self) -> (n: usize) {
        self.memory.len()
    }

    fn read_8(&self, address: usize) -> (r: u8) {
        read_byte(&self.memory, address)
    }

    fn read_16(&self, address: usize) -> (r: u16) {
        read_word(&self.memory, address)
    }

    fn write_8(&mut self, address: usize, value: u8) {
        write_byte(&mut self.memory, address, value);
    }

    fn write_16(&mut self, address: usize, value: u16) {
        write_word(&mut self.memory, address, value);
    }

    fn reset(&mut self) {
        fill_bytes(&mut self.memory, 0);
        proof {
            assert(self.memory@ =~= zeroed(old(self)@.len()));
        }
    }

    fn peek_bytes(&self, address: usize, count: usize) -> (r: &[u8]) {
        proof {
            vstd::std_specs::vec::axiom_spec_len(&self.memory);
        }
        vstd::slice::slice_subrange(self.memory.as_slice(), address, address + count)
    }

    fn poke_bytes(&mut self, address: usize, bytes: &[u8]) {
        poke_range(&mut self.memory, address, bytes);
    }
}

/// A byte-backed store that silently drops bus writes and survives reset.
/// `poke_bytes` and `fill` still mutate it: they stand for the out-of-band
/// programming of the part, not for bus traffic.
pub struct ROM {
    memory: Vec<u8>,
}

impl View for ROM {
    type V = Seq<u8>;

    closed spec fn view(&self) -> Seq<u8> {
        self.memory@
    }
}

impl ROM {
    /// A zero-filled store of the given capacity.
    pub fn new(capacity: usize) -> (r: ROM)
        ensures
            r@ == zeroed(capacity as nat),
    {
        ROM { memory: zero_bytes(capacity) }
    }

    /// Set every byte of the store to `value` (out-of-band, like `poke_bytes`).
    pub fn fill(&mut self, value: u8)
        ensures
            final(self)@ == Seq::new(old(self)@.len(), |i: int| value),
    {
        fill_bytes(&mut self.memory, value);
    }
}

impl MappedDevice for ROM {
    open spec fn contents(&self) -> Seq<u8> {
        self@
    }

    open spec fn bus_writable(&self) -> bool {
        false
    }

    open spec fn volatile(&self) -> bool {
        false
    }

    fn size(&self) -> (n: usize) {
        self.memory.len()
    }

    fn read_8(&self, address: usize) -> (r: u8) {
        read_byte(&self.memory, address)
    }

    fn read_16(&self, address: usize) -> (r: u16) {
        read_word(&self.memory, address)
    }

    fn write_8(&mut self, address: usize, value: u8) {
    }

    fn write_16(&mut self, address: usize, value: u16) {
    }

    fn reset(&mut self) {
    }

    fn peek_bytes(&self, address: usize, count: usize) -> (r: &[u8]) {
        proof {
            vstd::std_specs::vec::axiom_spec_len(&self.memory);
        }
        vstd::slice::slice_subrange(self.memory.as_slice(), address, address + count)
    }

    fn poke_bytes(&mut self, address: usize, bytes: &[u8]) {
        poke_range(&mut self.memory, address, bytes);
    }
}

/// A zero-filled byte vector.
fn zero_bytes(capacity: usize) -> (r: Vec<u8>)
    ensures
        r@ == zeroed(capacity as nat),
{
    let mut v: Vec<u8> = Vec::new();
    while v.len() < capacity
        invariant
            v@.len() <= capacity,
            v@ =~= zeroed(v@.len()),
        decreases capacity - v@.len(),
    {
        v.push(0);
        proof {
            assert(v@ =~= zeroed(v@.len()));
        }
    }
    v
}

/// Overwrite every byte of `v` with `value`.
fn fill_bytes(v: &mut Vec<u8>, value: u8)
    ensures
        final(v)@ =~= Seq::new(old(v)@.len(), |i: int| value),
{
    let n = v.len();
    let mut k: usize = 0;
    while k < n
        invariant
            k <= n,
            v@.len() == n,
            forall|j: int| 0 <= j < k ==> v@[j] == value,
            forall|j: int| k <= j < n ==> v@[j] == old(v)@[j],
        decreases n - k,
    {
        v[k] = value;
        k = k + 1;
    }
}

/// The byte of `v` at `address`, or zero past the end.
fn read_byte(v: &Vec<u8>, address: usize) -> (r: u8)
    ensures
        r == byte_at(v@, address as int),
{
    if address >= v.len() {
        return 0;
    }
    v[address]
}

/// The little-endian word of `v` at `address`; a missing high byte reads zero.
fn read_word(v: &Vec<u8>, address: usize) -> (r: u16)
    requires
        address < usize::MAX,
    ensures
        r == word_at(v@, address as int),
{
    let lo = read_byte(v, address);
    let hi = read_byte(v, address + 1);
    lo as u16 + hi as u16 * 256
}

/// Store one byte into `v` at `address`; a write past the end is dropped.
fn write_byte(v: &mut Vec<u8>, address: usize, value: u8)
    ensures
        final(v)@ == store_byte(old(v)@, address as int, value),
{
    if address >= v.len() {
        return ;
    }
    v[address] = value;
}

/// Store a little-endian word into `v` as two byte stores.
fn write_word(v: &mut Vec<u8>, address: usize, value: u16)
    requires
        address < usize::MAX,
    ensures
        final(v)@ == store_word(old(v)@, address as int, value),
{
    write_byte(v, address, (value % 256) as u8);
    write_byte(v, address + 1, (value / 256) as u8);
}

/// Overwrite `bytes.len()` bytes of `v` starting at `address`.
fn poke_range(v: &mut Vec<u8>, address: usize, bytes: &[u8])
    requires
        address + bytes@.len() <= old(v)@.len(),
    ensures
        final(v)@ == old(v)@.subrange(0, address as int) + bytes@ + old(v)@.subrange(
            address as int + bytes@.len() as int,
            old(v)@.len() as int,
        ),
{
    let count = bytes.len();
    let n = v.len();
    let mut k: usize = 0;
    while k < count
        invariant
            k <= count,
            count == bytes@.len(),
            address + count <= v@.len(),
            v@.len() == n,
            v@.len() == old(v)@.len(),
            forall|j: int| 0 <= j < k ==> v@[address + j] == bytes@[j],
            forall|j: int| 0 <= j < v@.len() && !(address <= j < address + k) ==> v@[j] == old(v)@[j],
        decreases count - k,
    {
        let b = *vstd::slice::slice_index_get(bytes, k);
        v[address + k] = b;
        k = k + 1;
    }
    proof {
        assert(v@ =~= old(v)@.subrange(0, address as int) + bytes@ + old(v)@.subrange(
            address as int + bytes@.len() as int,
            old(v)@.len() as int,
        ));
    }
}

/// Which concrete store a device is.
#[derive(Clone, Copy, PartialEq, Eq, Structural, Debug)]
pub enum DeviceKind {
    Ram,
    Rom,
}

/// The mathematical image of a device: which store it is and the bytes it
/// holds.
#[verifier::ext_equal]
pub struct DeviceView {
    pub kind: DeviceKind,
    pub bytes: Seq<u8>,
}

/// One byte stored through the bus: it lands on a writable store and is
/// dropped by a write-protected one.
pub open spec fn device_store_byte(dv: DeviceView, addr: int, value: u8) -> DeviceView {
    if dv.kind == DeviceKind::Ram {
        DeviceView { kind: dv.kind, bytes: store_byte(dv.bytes, addr, value) }
    } else {
        dv
    }
}

/// A little-endian word stored through the bus, as two byte stores.
pub open spec fn device_store_word(dv: DeviceView, addr: int, value: u16) -> DeviceView {
    if dv.kind == DeviceKind::Ram {
        DeviceView { kind: dv.kind, bytes: store_word(dv.bytes, addr, value) }
    } else {
        dv
    }
}

/// Reset: a writable store is zero-filled, a write-protected one keeps its
/// bytes.
pub open spec fn device_reset(dv: DeviceView) -> DeviceView {
    if dv.kind == DeviceKind::Ram {
        DeviceView { kind: dv.kind, bytes: zeroed(dv.bytes.len()) }
    } else {
        dv
    }
}

/// A concrete device a mapping can own.
pub enum Device {
    Ram(RAM),
    Rom(ROM),
}

impl View for Device {
    type V = DeviceView;

    open spec fn view(&self) -> DeviceView {
        match self {
            Device::Ram(ram) => DeviceView { kind: DeviceKind::Ram, bytes: ram@ },
            Device::Rom(rom) => DeviceView { kind: DeviceKind::Rom, bytes: rom@ },
        }
    }
}

impl MappedDevice for Device {
    open spec fn contents(&self) -> Seq<u8> {
        self@.bytes
    }

    open spec fn bus_writable(&self) -> bool {
        self@.kind == DeviceKind::Ram
    }

    open spec fn volatile(&self) -> bool {
        self@.kind == DeviceKind::Ram
    }

    fn size(&self) -> (n: usize) {
        match self {
            Device::Ram(ram) => ram.size(),
            Device::Rom(rom) => rom.size(),
        }
    }

    fn read_8(&self, address: usize) -> (r: u8) {
        match self {
            Device::Ram(ram) => ram.read_8(address),
            Device::Rom(rom) => rom.read_8(address),
        }
    }

    fn read_16(&self, address: usize) -> (r: u16) {
        match self {
            Device::Ram(ram) => ram.read_16(address),
            Device::Rom(rom) => rom.read_16(address),
        }
    }

    fn write_8(&mut self, address: usize, value: u8) {
        match self {
            Device::Ram(ram) => ram.write_8(address, value),
            Device::Rom(rom) => rom.write_8(address, value),
        }
    }

    fn write_16(&mut self, address: usize, value: u16) {
        match self {
            Device::Ram(ram) => ram.write_16(address, value),
            Device::Rom(rom) => rom.write_16(address, value),
        }
    }

    fn reset(&mut self) {
        match self {
            Device::Ram(ram) => ram.reset(),
            Device::Rom(rom) => rom.reset(),
        }
    }

    fn peek_bytes(&self, address: usize, count: usize) -> (r: &[u8]) {
        match self {
            Device::Ram(ram) => ram.peek_bytes(address, count),
            Device::Rom(rom) => rom.peek_bytes(address, count),
        }
    }

    fn poke_bytes(&mut self, address: usize, bytes: &[u8]) {
        match self {
            Device::Ram(ram) => ram.poke_bytes(address, bytes),
            Device::Rom(rom) => rom.poke_bytes(address, bytes),
        }
    }
}

} // verus!
