//! Reading game memory through a copy that may fail, never through a
//! dereference, so a stale structure yields `None` instead of a fault.

use vstd::prelude::*;

verus! {

/// A process whose memory can be copied. A copy may fail or, in principle,
/// return anything: every caller checks what it got.
pub trait ProcessMemory {
    /// What a source promises of its copies: by default nothing, since live
    /// memory may change between two copies of the same range.
    open spec fn copy_possible(&self, address: usize, size: usize, copy: Option<Seq<u8>>) -> bool {
        true
    }

    /// Copies `size` bytes starting at `address`, or `None` when they cannot
    /// be read.
    fn copy(&self, address: usize, size: usize) -> (copied: Option<Vec<u8>>)
        ensures
            self.copy_possible(address, size, opt_bytes(copied)),
    ;
}

/// The address `offset` bytes past `base`, where it exists.
pub open spec fn field_address(base: usize, offset: usize) -> Option<usize> {
    if base + offset <= usize::MAX {
        Some((base + offset) as usize)
    } else {
        None
    }
}

/// Computes the address of a field `offset` bytes into the structure at
/// `base`; `None` where it would wrap around the address space.
pub fn field_at(base: usize, offset: usize) -> (address: Option<usize>)
    ensures
        address == field_address(base, offset),
{
    base.checked_add(offset)
}

/// A copy request is made only for a non-null, non-empty range that does not
/// wrap around the address space.
pub open spec fn copy_allowed(address: usize, size: usize) -> bool {
    address != 0 && size != 0 && address + size <= usize::MAX
}

/// A copy that `memory` may give for a range that `read_bytes` asks for;
/// a refused range is never asked for.
pub open spec fn copy_from<M: ProcessMemory>(memory: &M, address: usize, size: usize, copy: Option<Seq<u8>>) -> bool {
    copy_allowed(address, size) ==> memory.copy_possible(address, size, copy)
}

/// What `read_bytes` gives for the copy it received: nothing for a refused
/// range, and a copy only when it has exactly the requested length.
pub open spec fn copy_verdict(address: usize, size: usize, copy: Option<Seq<u8>>) -> Option<Seq<u8>> {
    if !copy_allowed(address, size) {
        None
    } else {
        match copy {
            Some(b) => if b.len() == size {
                Some(b)
            } else {
                None
            },
            None => None,
        }
    }
}

/// The bytes of an optional copy.
pub open spec fn opt_bytes(copy: Option<Vec<u8>>) -> Option<Seq<u8>> {
    match copy {
        Some(b) => Some(b@),
        None => None,
    }
}

/// Judges a copy made of `size` bytes at `address`.
pub fn accept_copy(address: usize, size: usize, copy: Option<Vec<u8>>) -> (bytes: Option<Vec<u8>>)
    ensures
        opt_bytes(bytes) == copy_verdict(address, size, opt_bytes(copy)),
{
    if address == 0 || size == 0 || address.checked_add(size).is_none() {
        return None;
    }
    match copy {
        Some(b) => if b.len() == size {
            Some(b)
        } else {
            None
        },
        None => None,
    }
}

/// Copies `size` bytes at `address`. The null address, an empty range and a
/// range that wraps around the address space are refused without a copy,
/// and a copy of the wrong length counts as a failure.
pub fn read_bytes<M: ProcessMemory>(memory: &M, address: usize, size: usize) -> (bytes: Option<Vec<u8>>)
    ensures
        (address == 0 || size == 0 || address + size > usize::MAX) ==> bytes is None,
        bytes matches Some(b) ==> b@.len() == size,
        exists|copy: Option<Seq<u8>>|
            copy_from(memory, address, size, copy) && opt_bytes(bytes) == copy_verdict(address, size, copy),
{
    if !(address == 0 || size == 0 || address.checked_add(size).is_none()) {
        let copy = memory.copy(address, size);
        let ghost c = opt_bytes(copy);
        let bytes = accept_copy(address, size, copy);
        assert(opt_bytes(bytes) == copy_verdict(address, size, c));
        bytes
    } else {
        let ghost c: Option<Seq<u8>> = None;
        assert(copy_verdict(address, size, c) is None);
        None
    }
}

/// The little-endian value of two bytes.
pub open spec fn le_u16(b: Seq<u8>) -> u16 {
    (b[0] as int + b[1] as int * 0x100) as u16
}

/// The little-endian value of four bytes.
pub open spec fn le_u32(b: Seq<u8>) -> u32 {
    (b[0] as int + b[1] as int * 0x100 + b[2] as int * 0x10000 + b[3] as int * 0x1000000) as u32
}

/// Plain values that any bit pattern of their width forms, read in the
/// game's little-endian layout.
pub trait MemoryValue: Sized {
    spec fn width_spec() -> nat;

    spec fn decode_spec(bytes: Seq<u8>) -> Self;

    fn width() -> (n: usize)
        ensures
            n == Self::width_spec(),
            n > 0,
    ;

    fn decode(bytes: &[u8]) -> (value: Self)
        requires
            bytes@.len() == Self::width_spec(),
        ensures
            value == Self::decode_spec(bytes@),
    ;
}

impl MemoryValue for u16 {
    open spec fn width_spec() -> nat {
        2
    }

    open spec fn decode_spec(bytes: Seq<u8>) -> u16 {
        le_u16(bytes)
    }

    fn width() -> (n: usize) {
        2
    }

    fn decode(bytes: &[u8]) -> (value: u16) {
        bytes[0] as u16 + bytes[1] as u16 * 0x100
    }
}

impl MemoryValue for i16 {
    open spec fn width_spec() -> nat {
        2
    }

    open spec fn decode_spec(bytes: Seq<u8>) -> i16 {
        le_u16(bytes) as i16
    }

    fn width() -> (n: usize) {
        2
    }

    fn decode(bytes: &[u8]) -> (value: i16) {
        let raw: u16 = bytes[0] as u16 + bytes[1] as u16 * 0x100;
        raw as i16
    }
}

impl MemoryValue for u32 {
    open spec fn width_spec() -> nat {
        4
    }

    open spec fn decode_spec(bytes: Seq<u8>) -> u32 {
        le_u32(bytes)
    }

    fn width() -> (n: usize) {
        4
    }

    fn decode(bytes: &[u8]) -> (value: u32) {
        bytes[0] as u32 + bytes[1] as u32 * 0x100 + bytes[2] as u32 * 0x10000 + bytes[3] as u32 * 0x1000000
    }
}

impl MemoryValue for i32 {
    open spec fn width_spec() -> nat {
        4
    }

    open spec fn decode_spec(bytes: Seq<u8>) -> i32 {
        le_u32(bytes) as i32
    }

    fn width() -> (n: usize) {
        4
    }

    fn decode(bytes: &[u8]) -> (value: i32) {
        let raw: u32 = bytes[0] as u32 + bytes[1] as u32 * 0x100 + bytes[2] as u32 * 0x10000 + bytes[3] as u32 * 0x1000000;
        raw as i32
    }
}

/// The value a copy at `address` gives: the little-endian decoding of a
/// copy of exactly the value's width.
pub open spec fn value_verdict<T: MemoryValue>(address: usize, copy: Option<Seq<u8>>) -> Option<T> {
    match copy_verdict(address, T::width_spec() as usize, copy) {
        Some(b) => Some(T::decode_spec(b)),
        None => None,
    }
}

/// Reads one value at `address`.
pub fn read<T: MemoryValue, M: ProcessMemory>(memory: &M, address: usize) -> (value: Option<T>)
    ensures
        address == 0 ==> value is None,
        address + T::width_spec() > usize::MAX ==> value is None,
        exists|copy: Option<Seq<u8>>|
            copy_from(memory, address, T::width_spec() as usize, copy) && value == value_verdict::<T>(address, copy),
{
    let width = T::width();
    let bytes = read_bytes(memory, address, width);
    let ghost c = choose|copy: Option<Seq<u8>>|
        copy_from(memory, address, width, copy) && opt_bytes(bytes) == copy_verdict(address, width, copy);
    let value = match bytes {
        Some(bytes) => Some(T::decode(bytes.as_slice())),
        None => None,
    };
    assert(value == value_verdict::<T>(address, c));
    value
}

/// The 32-bit pointer a copy at `address` gives.
pub open spec fn pointer_verdict(address: usize, copy: Option<Seq<u8>>) -> Option<usize> {
    match value_verdict::<u32>(address, copy) {
        Some(v) => Some(v as usize),
        None => None,
    }
}

/// Reads a pointer of the 32-bit game.
pub fn read_pointer<M: ProcessMemory>(memory: &M, address: usize) -> (pointer: Option<usize>)
    ensures
        address == 0 ==> pointer is None,
        address + 4 > usize::MAX ==> pointer is None,
        exists|copy: Option<Seq<u8>>| copy_from(memory, address, 4, copy) && pointer == pointer_verdict(address, copy),
{
    let value = read::<u32, M>(memory, address);
    let ghost c = choose|copy: Option<Seq<u8>>|
        copy_from(memory, address, 4, copy) && value == value_verdict::<u32>(address, copy);
    let pointer = match value {
        Some(value) => Some(value as usize),
        None => None,
    };
    assert(pointer == pointer_verdict(address, c));
    pointer
}

/// The value of the field `offset` bytes past `base` that a copy made
/// there gives; nothing where the field's address wraps around.
pub open spec fn field_value<T: MemoryValue>(base: usize, offset: usize, copy: Option<Seq<u8>>) -> Option<T> {
    match field_address(base, offset) {
        Some(address) => value_verdict::<T>(address, copy),
        None => None,
    }
}

/// The pointer in the field `offset` bytes past `base` that a copy made
/// there gives; nothing where the field's address wraps around.
pub open spec fn field_pointer(base: usize, offset: usize, copy: Option<Seq<u8>>) -> Option<usize> {
    match field_address(base, offset) {
        Some(address) => pointer_verdict(address, copy),
        None => None,
    }
}

/// A copy that `memory` may give of the field `offset` bytes past `base`.
pub open spec fn field_copy_from<M: ProcessMemory>(memory: &M, base: usize, offset: usize, size: usize, copy: Option<Seq<u8>>) -> bool {
    match field_address(base, offset) {
        Some(address) => copy_from(memory, address, size, copy),
        None => true,
    }
}

/// Reads the value of the field `offset` bytes past `base`.
pub fn read_field<T: MemoryValue, M: ProcessMemory>(memory: &M, base: usize, offset: usize) -> (value: Option<T>)
    ensures
        exists|copy: Option<Seq<u8>>|
            field_copy_from(memory, base, offset, T::width_spec() as usize, copy) && value == field_value::<T>(base, offset, copy),
{
    match field_at(base, offset) {
        Some(address) => {
            let value = read::<T, M>(memory, address);
            let ghost c = choose|copy: Option<Seq<u8>>|
                copy_from(memory, address, T::width_spec() as usize, copy) && value == value_verdict::<T>(address, copy);
            assert(value == field_value::<T>(base, offset, c));
            value
        },
        None => {
            assert(field_value::<T>(base, offset, None) is None);
            None
        },
    }
}

/// Reads the pointer in the field `offset` bytes past `base`.
pub fn read_field_pointer<M: ProcessMemory>(memory: &M, base: usize, offset: usize) -> (pointer: Option<usize>)
    ensures
        exists|copy: Option<Seq<u8>>|
            field_copy_from(memory, base, offset, 4, copy) && pointer == field_pointer(base, offset, copy),
{
    match field_at(base, offset) {
        Some(address) => {
            let pointer = read_pointer(memory, address);
            let ghost c = choose|copy: Option<Seq<u8>>| copy_from(memory, address, 4, copy) && pointer == pointer_verdict(address, copy);
            assert(pointer == field_pointer(base, offset, c));
            pointer
        },
        None => {
            assert(field_pointer(base, offset, None) is None);
            None
        },
    }
}

/// A copy of a range of memory at a known base address.
pub struct MemoryImage {
    base: usize,
    bytes: Vec<u8>,
}

impl MemoryImage {
    pub closed spec fn base_spec(&self) -> usize {
        self.base
    }

    pub closed spec fn bytes_spec(&self) -> Seq<u8> {
        self.bytes@
    }

    /// The bytes of the image at `address`, where the whole range lies in it.
    pub open spec fn image_copy(&self, address: usize, size: usize) -> Option<Seq<u8>> {
        if self.base_spec() <= address && address - self.base_spec() + size <= self.bytes_spec().len() {
            Some(self.bytes_spec().subrange(address - self.base_spec(), address - self.base_spec() + size))
        } else {
            None
        }
    }

    pub fn new(base: usize, bytes: Vec<u8>) -> (image: Self)
        ensures
            image.base_spec() == base,
            image.bytes_spec() == bytes@,
    {
        MemoryImage { base, bytes }
    }
}

impl ProcessMemory for MemoryImage {
    /// A copy holds exactly the image's bytes at that offset, and fails where
    /// the range leaves the image.
    open spec fn copy_possible(&self, address: usize, size: usize, copy: Option<Seq<u8>>) -> bool {
        copy == self.image_copy(address, size)
    }

    fn copy(&self, address: usize, size: usize) -> (copied: Option<Vec<u8>>) {
        self.copy_from_image(address, size)
    }
}

impl MemoryImage {
    /// A copy from the image holds exactly the image's bytes at that offset.
    pub fn copy_from_image(&self, address: usize, size: usize) -> (copied: Option<Vec<u8>>)
        ensures
            match copied {
                Some(b) => self.base_spec() <= address && address - self.base_spec() + size <= self.bytes_spec().len()
                    && b@ == self.bytes_spec().subrange(address - self.base_spec(), address - self.base_spec() + size),
                None => !(self.base_spec() <= address && address - self.base_spec() + size <= self.bytes_spec().len()),
            },
    {
        if address < self.base {
            return None;
        }
        let offset = address - self.base;
        if offset > self.bytes.len() || size > self.bytes.len() - offset {
            return None;
        }
        let mut out: Vec<u8> = Vec::new();
        let mut i: usize = 0;
        while i < size
            invariant
                offset + size <= self.bytes@.len(),
                self.bytes@.len() <= usize::MAX,
                i <= size,
                out@ == self.bytes@.subrange(offset as int, offset + i),
            decreases size - i,
        {
            out.push(self.bytes[offset + i]);
            assert(out@ =~= self.bytes@.subrange(offset as int, offset + i + 1));
            i = i + 1;
        }
        Some(out)
    }
}

/// Values are read little-endian: the first byte is the lowest.
pub proof fn lemma_little_endian(b: Seq<u8>)
    requires
        b.len() >= 4,
    ensures
        le_u16(b) % 0x100 == b[0],
        le_u16(b) / 0x100 == b[1],
        le_u32(b) % 0x100 == b[0],
        (le_u32(b) / 0x100) % 0x100 == b[1],
        (le_u32(b) / 0x10000) % 0x100 == b[2],
        le_u32(b) / 0x1000000 == b[3],
{
    let (b0, b1, b2, b3) = (b[0] as int, b[1] as int, b[2] as int, b[3] as int);
    assert(b0 + b1 * 0x100 < 0x10000) by (nonlinear_arith)
        requires
            0 <= b0 < 0x100,
            0 <= b1 < 0x100,
    ;
    assert(b0 + b1 * 0x100 + b2 * 0x10000 + b3 * 0x1000000 < 0x1_0000_0000) by (nonlinear_arith)
        requires
            0 <= b0 < 0x100,
            0 <= b1 < 0x100,
            0 <= b2 < 0x100,
            0 <= b3 < 0x100,
    ;
    let v16 = b0 + b1 * 0x100;
    let v32 = b0 + b1 * 0x100 + b2 * 0x10000 + b3 * 0x1000000;
    assert(v16 % 0x100 == b0 && v16 / 0x100 == b1) by (nonlinear_arith)
        requires
            v16 == b0 + b1 * 0x100,
            0 <= b0 < 0x100,
            0 <= b1 < 0x100,
    ;
    assert(v32 % 0x100 == b0 && (v32 / 0x100) % 0x100 == b1 && (v32 / 0x10000) % 0x100 == b2 && v32 / 0x1000000 == b3)
        by (nonlinear_arith)
        requires
            v32 == b0 + b1 * 0x100 + b2 * 0x10000 + b3 * 0x1000000,
            0 <= b0 < 0x100,
            0 <= b1 < 0x100,
            0 <= b2 < 0x100,
            0 <= b3 < 0x100,
    ;
}

} // verus!
