use vstd::prelude::*;

verus! {

/// The number of bytes in the 16-bit address space.
pub const ADDRESS_SPACE: usize = 0x10000;

/// `addr + k`, wrapping at the top of the address space.
pub open spec fn addr_add(addr: u16, k: int) -> u16 {
    ((addr + k) % 0x10000) as u16
}

/// The byte at `addr` in the memory image `mem`.
pub open spec fn byte_at(mem: Seq<u8>, addr: u16) -> u8 {
    mem[addr as int]
}

/// The memory bus the processor reads and writes through; the host owns it.
///
/// Its contents are modelled as a 64 KiB memory image: a read returns the byte last
/// written at that address and leaves the image as it is.
pub trait BusInterface {
    /// The memory image behind the bus.
    spec fn mem(&self) -> Seq<u8>;

    fn get_byte_at(&mut self, addr: u16) -> (r: u8)
        requires
            old(self).mem().len() == ADDRESS_SPACE,
        ensures
            final(self).mem() == old(self).mem(),
            r == byte_at(old(self).mem(), addr),
    ;

    fn set_byte_at(&mut self, addr: u16, byte: u8)
        requires
            old(self).mem().len() == ADDRESS_SPACE,
        ensures
            final(self).mem() == old(self).mem().update(addr as int, byte),
    ;

    /// The opcode byte at `addr` and the two bytes after it, wrapping at the top of
    /// the address space. A host may override this with a faster read.
    fn get_pipelined_bytes(&mut self, addr: u16) -> (r: (u8, u8, u8))
        requires
            old(self).mem().len() == ADDRESS_SPACE,
        ensures
            final(self).mem() == old(self).mem(),
            r.0 == byte_at(old(self).mem(), addr),
            r.1 == byte_at(old(self).mem(), addr_add(addr, 1)),
            r.2 == byte_at(old(self).mem(), addr_add(addr, 2)),
    {
        let opcode = self.get_byte_at(addr);
        let b1 = self.get_byte_at(addr.wrapping_add(1));
        let b2 = self.get_byte_at(addr.wrapping_add(2));
        (opcode, b1, b2)
    }
}

/// A bus backed by a flat 64 KiB RAM image, with no memory-mapped devices.
pub struct FlatMemory {
    bytes: Vec<u8>,
}

impl FlatMemory {
    /// A memory whose every byte is zero.
    pub fn new() -> (r: FlatMemory)
        ensures
            r.mem() == Seq::new(ADDRESS_SPACE as nat, |i: int| 0u8),
    {
        let mut bytes: Vec<u8> = Vec::new();
        let mut i: usize = 0;
        while i < ADDRESS_SPACE
            invariant
                i <= ADDRESS_SPACE,
                bytes@ == Seq::new(i as nat, |j: int| 0u8),
            decreases ADDRESS_SPACE - i,
        {
            bytes.push(0);
            i = i + 1;
        }
        FlatMemory { bytes }
    }

    /// Copies `data` into memory from `start` on, wrapping at the top of the address space.
    pub fn load(&mut self, start: u16, data: &Vec<u8>)
        requires
            old(self).mem().len() == ADDRESS_SPACE,
            data@.len() <= ADDRESS_SPACE,
        ensures
            final(self).mem().len() == ADDRESS_SPACE,
            forall|k: int|
                0 <= k < data@.len() ==> #[trigger] final(self).mem()[addr_add(start, k) as int]
                    == data@[k],
    {
        let mut k: usize = 0;
        while k < data.len()
            invariant
                k <= data@.len() <= ADDRESS_SPACE,
                self.mem().len() == ADDRESS_SPACE,
                forall|j: int|
                    0 <= j < k ==> #[trigger] self.mem()[addr_add(start, j) as int] == data@[j],
            decreases data@.len() - k,
        {
            let addr = start.wrapping_add(k as u16);
            assert(addr == addr_add(start, k as int));
            let ghost before = self.mem();
            self.bytes.set(addr as usize, data[k]);
            assert forall|j: int| 0 <= j < k implies #[trigger] self.mem()[addr_add(start, j) as int]
                == data@[j] by {
                assert(addr_add(start, j) != addr);
            }
            k = k + 1;
        }
    }
}

impl BusInterface for FlatMemory {
    closed spec fn mem(&self) -> Seq<u8> {
        self.bytes@
    }

    fn get_byte_at(&mut self, addr: u16) -> (r: u8) {
        self.bytes[addr as usize]
    }

    fn set_byte_at(&mut self, addr: u16, byte: u8) {
        self.bytes.set(addr as usize, byte);
    }
}

} // verus!
