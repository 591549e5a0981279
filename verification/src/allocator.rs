//! The layout of the allocations handed to the engine.
//!
//! The engine frees memory by pointer alone, while the allocator underneath
//! wants the size back. Every block therefore starts with a header of eight
//! bytes that records the size asked for; the engine gets the address just
//! behind the header. This module decides the layout of a block, writes and
//! reads the header, and models a block as its bytes. Obtaining and
//! returning the memory itself is left to the runtime.

use vstd::prelude::*;

verus! {

/// Bytes of the header in front of every payload.
pub const HEADER_SIZE: usize = 8;

/// Alignment of every block, and so of every payload.
pub const BLOCK_ALIGN: usize = 8;

/// The largest size that can be asked for.
pub const MAX_SIZE: i32 = 0x7fff_ffff;

/// Why a request was turned down.
#[derive(Clone, Copy, PartialEq, Eq, Structural, Debug)]
pub enum AllocError {
    /// The size asked for is negative.
    NegativeSize,
    /// The header does not hold a size that `allocate` could have written.
    CorruptHeader,
}

/// Size and alignment of a whole block, header included.
#[derive(Clone, Copy, PartialEq, Eq, Structural, Debug)]
pub struct BlockLayout {
    pub size: usize,
    pub align: usize,
}

/// What the runtime needs to set up a block: the layout to obtain memory
/// with, the header to put at its start, and how far into the block the
/// payload begins, which is where the pointer for the engine points.
#[derive(Clone, Copy, Debug)]
pub struct Allocation {
    pub layout: BlockLayout,
    pub header: [u8; 8],
    pub payload_offset: usize,
}

/// The number that the eight bytes of a header hold, least significant byte
/// first.
pub open spec fn header_value(header: Seq<u8>) -> int {
    header[0] + 0x100 * header[1] + 0x1_0000 * header[2] + 0x100_0000 * header[3] + 0x1_0000_0000
        * header[4] + 0x100_0000_0000 * header[5] + 0x1_0000_0000_0000 * header[6]
        + 0x100_0000_0000_0000 * header[7]
}

/// The header that records `size`: its eight bytes, least significant
/// first.
pub open spec fn header_bytes(size: int) -> Seq<u8> {
    seq![
        (size % 0x100) as u8,
        (size / 0x100 % 0x100) as u8,
        (size / 0x1_0000 % 0x100) as u8,
        (size / 0x100_0000 % 0x100) as u8,
        (size / 0x1_0000_0000 % 0x100) as u8,
        (size / 0x100_0000_0000 % 0x100) as u8,
        (size / 0x1_0000_0000_0000 % 0x100) as u8,
        (size / 0x100_0000_0000_0000 % 0x100) as u8,
    ]
}

/// The layout of the block behind a payload of `size` bytes.
pub open spec fn layout_of(size: int) -> BlockLayout {
    BlockLayout { size: (size + HEADER_SIZE) as usize, align: BLOCK_ALIGN }
}

/// The layout to release when the header found in front of a payload is
/// `header`. A header whose number no request can have recorded is corrupt.
pub open spec fn release_of(header: Seq<u8>) -> Result<BlockLayout, AllocError> {
    if header_value(header) <= MAX_SIZE {
        Ok(layout_of(header_value(header)))
    } else {
        Err(AllocError::CorruptHeader)
    }
}

/// The header that records `size`.
pub fn encode_header(size: u64) -> (header: [u8; 8])
    ensures
        header@ == header_bytes(size as int),
{
    let header: [u8; 8] = [
        (size % 0x100) as u8,
        (size / 0x100 % 0x100) as u8,
        (size / 0x1_0000 % 0x100) as u8,
        (size / 0x100_0000 % 0x100) as u8,
        (size / 0x1_0000_0000 % 0x100) as u8,
        (size / 0x100_0000_0000 % 0x100) as u8,
        (size / 0x1_0000_0000_0000 % 0x100) as u8,
        (size / 0x100_0000_0000_0000 % 0x100) as u8,
    ];
    assert(header@ =~= header_bytes(size as int));
    header
}

/// The number that a header holds.
pub fn decode_header(header: &[u8; 8]) -> (value: u64)
    ensures
        value == header_value(header@),
{
    let b0: u64 = header[0] as u64;
    let b1: u64 = header[1] as u64;
    let b2: u64 = header[2] as u64;
    let b3: u64 = header[3] as u64;
    let b4: u64 = header[4] as u64;
    let b5: u64 = header[5] as u64;
    let b6: u64 = header[6] as u64;
    let b7: u64 = header[7] as u64;
    b0 + 0x100 * b1 + 0x1_0000 * b2 + 0x100_0000 * b3 + 0x1_0000_0000 * b4 + 0x100_0000_0000 * b5
        + 0x1_0000_0000_0000 * b6 + 0x100_0000_0000_0000 * b7
}

/// Plans the block for a request of `size` bytes: `size` and the header
/// together, aligned to `BLOCK_ALIGN`, with `size` recorded in the header.
/// The payload starts `HEADER_SIZE` bytes into the block.
pub fn allocate(size: i32) -> (plan: Result<Allocation, AllocError>)
    ensures
        match plan {
            Ok(allocation) => {
                &&& size >= 0
                &&& allocation.layout == layout_of(size as int)
                &&& allocation.layout.size == size + HEADER_SIZE
                &&& allocation.header@ == header_bytes(size as int)
                &&& allocation.payload_offset == HEADER_SIZE
            },
            Err(error) => size < 0 && error == AllocError::NegativeSize,
        },
{
    if size < 0 {
        return Err(AllocError::NegativeSize);
    }
    let layout = BlockLayout { size: size as usize + HEADER_SIZE, align: BLOCK_ALIGN };
    Ok(Allocation { layout, header: encode_header(size as u64), payload_offset: HEADER_SIZE })
}

/// Recovers from the header in front of a payload the layout of the block
/// to release.
pub fn release(header: &[u8; 8]) -> (layout: Result<BlockLayout, AllocError>)
    ensures
        layout == release_of(header@),
{
    let size: u64 = decode_header(header);
    if size > 0x7fff_ffff {
        return Err(AllocError::CorruptHeader);
    }
    Ok(BlockLayout { size: size as usize + HEADER_SIZE, align: BLOCK_ALIGN })
}

/// A block as its bytes: the header, then the payload.
pub struct Block {
    bytes: Vec<u8>,
}

impl View for Block {
    type V = Seq<u8>;

    closed spec fn view(&self) -> Seq<u8> {
        self.bytes@
    }
}

impl Block {
    /// The header: the first `HEADER_SIZE` bytes.
    pub open spec fn header(&self) -> Seq<u8> {
        self@.subrange(0, HEADER_SIZE as int)
    }

    /// The payload: the bytes behind the header.
    pub open spec fn payload(&self) -> Seq<u8> {
        self@.subrange(HEADER_SIZE as int, self@.len() as int)
    }

    /// The invariant of a block: its header records the length of its
    /// payload.
    pub open spec fn wf(&self) -> bool {
        &&& HEADER_SIZE <= self@.len() <= MAX_SIZE + HEADER_SIZE
        &&& header_value(self.header()) == self.payload().len()
    }

    /// A block for a request of `size` bytes, with the payload zeroed.
    pub fn new(size: i32) -> (made: Result<Block, AllocError>)
        ensures
            match made {
                Ok(block) => {
                    &&& size >= 0
                    &&& block.wf()
                    &&& block.header() == header_bytes(size as int)
                    &&& block.payload() == Seq::new(size as nat, |i: int| 0u8)
                },
                Err(error) => size < 0 && error == AllocError::NegativeSize,
            },
    {
        let allocation = match allocate(size) {
            Ok(allocation) => allocation,
            Err(error) => {
                return Err(error);
            },
        };
        let mut bytes: Vec<u8> = vec![0u8; allocation.layout.size];
        let mut i: usize = 0;
        while i < HEADER_SIZE
            invariant
                size >= 0,
                i <= HEADER_SIZE,
                bytes@.len() == size + HEADER_SIZE,
                forall|k: int| 0 <= k < i ==> bytes@[k] == allocation.header@[k],
                forall|k: int| HEADER_SIZE <= k < bytes@.len() ==> bytes@[k] == 0u8,
            decreases HEADER_SIZE - i,
        {
            bytes[i] = allocation.header[i];
            i += 1;
        }
        let block = Block { bytes };
        proof {
            lemma_header_value_of_bytes(size as u64);
            assert(block.header() =~= header_bytes(size as int));
            assert(block.payload() =~= Seq::new(size as nat, |i: int| 0u8));
        }
        Ok(block)
    }

    /// The size that was asked for: the length of the payload.
    pub fn size(&self) -> (size: usize)
        requires
            self.wf(),
        ensures
            size == self.payload().len(),
            size == header_value(self.header()),
    {
        self.bytes.len() - HEADER_SIZE
    }

    /// The byte at `offset` of the payload.
    pub fn read(&self, offset: usize) -> (value: u8)
        requires
            self.wf(),
            offset < self.payload().len(),
        ensures
            value == self.payload()[offset as int],
    {
        self.bytes[HEADER_SIZE + offset]
    }

    /// Writes `value` at `offset` of the payload. The header stays as it
    /// is.
    pub fn write(&mut self, offset: usize, value: u8)
        requires
            old(self).wf(),
            offset < old(self).payload().len(),
        ensures
            final(self).wf(),
            final(self).header() == old(self).header(),
            final(self).payload() == old(self).payload().update(offset as int, value),
    {
        self.bytes[HEADER_SIZE + offset] = value;
        proof {
            assert(self.header() =~= old(self).header());
            assert(self.payload() =~= old(self).payload().update(offset as int, value));
        }
    }

    /// Gives the block up. The layout to release is recovered from the
    /// header: the size once asked for, and the header.
    pub fn free(self) -> (layout: BlockLayout)
        requires
            self.wf(),
        ensures
            Ok::<BlockLayout, AllocError>(layout) == release_of(self.header()),
            layout.size == self.payload().len() + HEADER_SIZE,
            layout.size == self@.len(),
            layout.align == BLOCK_ALIGN,
    {
        let header: [u8; 8] = [
            self.bytes[0],
            self.bytes[1],
            self.bytes[2],
            self.bytes[3],
            self.bytes[4],
            self.bytes[5],
            self.bytes[6],
            self.bytes[7],
        ];
        assert(header@ =~= self.header());
        let size: u64 = decode_header(&header);
        BlockLayout { size: size as usize + HEADER_SIZE, align: BLOCK_ALIGN }
    }
}

/// Header and payload do not overlap: writing a byte of the payload leaves
/// the header as it was, and writing a byte of the header leaves the
/// payload as it was.
pub proof fn lemma_header_payload_apart(bytes: Seq<u8>, at: int, value: u8)
    requires
        HEADER_SIZE <= bytes.len(),
        0 <= at < bytes.len(),
    ensures
        at >= HEADER_SIZE ==> bytes.update(at, value).subrange(0, HEADER_SIZE as int)
            == bytes.subrange(0, HEADER_SIZE as int),
        at < HEADER_SIZE ==> bytes.update(at, value).subrange(
            HEADER_SIZE as int,
            bytes.len() as int,
        ) == bytes.subrange(HEADER_SIZE as int, bytes.len() as int),
{
    if at >= HEADER_SIZE {
        assert(bytes.update(at, value).subrange(0, HEADER_SIZE as int) =~= bytes.subrange(
            0,
            HEADER_SIZE as int,
        ));
    } else {
        assert(bytes.update(at, value).subrange(HEADER_SIZE as int, bytes.len() as int)
            =~= bytes.subrange(HEADER_SIZE as int, bytes.len() as int));
    }
}

/// A header gives back the number it was made from.
pub proof fn lemma_header_value_of_bytes(size: u64)
    ensures
        header_bytes(size as int).len() == HEADER_SIZE,
        header_value(header_bytes(size as int)) == size,
{
    let b0: u64 = size % 0x100;
    let b1: u64 = size / 0x100 % 0x100;
    let b2: u64 = size / 0x1_0000 % 0x100;
    let b3: u64 = size / 0x100_0000 % 0x100;
    let b4: u64 = size / 0x1_0000_0000 % 0x100;
    let b5: u64 = size / 0x100_0000_0000 % 0x100;
    let b6: u64 = size / 0x1_0000_0000_0000 % 0x100;
    let b7: u64 = size / 0x100_0000_0000_0000 % 0x100;
    assert(b0 + 0x100 * b1 + 0x1_0000 * b2 + 0x100_0000 * b3 + 0x1_0000_0000 * b4 + 0x100_0000_0000
        * b5 + 0x1_0000_0000_0000 * b6 + 0x100_0000_0000_0000 * b7 == size) by (bit_vector)
        requires
            b0 == size % 0x100,
            b1 == size / 0x100 % 0x100,
            b2 == size / 0x1_0000 % 0x100,
            b3 == size / 0x100_0000 % 0x100,
            b4 == size / 0x1_0000_0000 % 0x100,
            b5 == size / 0x100_0000_0000 % 0x100,
            b6 == size / 0x1_0000_0000_0000 % 0x100,
            b7 == size / 0x100_0000_0000_0000 % 0x100,
    ;
}

/// Header round trip: for every size that can be asked for, the header
/// written at allocation gives back exactly that size at release, and the
/// layout released is the layout allocated, `HEADER_SIZE` bytes larger than
/// the size.
pub proof fn lemma_header_round_trip(size: i32)
    requires
        size >= 0,
    ensures
        header_value(header_bytes(size as int)) == size,
        release_of(header_bytes(size as int)) == Ok::<BlockLayout, AllocError>(layout_of(size as int)),
        layout_of(size as int).size == size + HEADER_SIZE,
        layout_of(size as int).align == BLOCK_ALIGN,
{
    lemma_header_value_of_bytes(size as u64);
}

} // verus!
