//! One chunk of a column: a descriptor over shared, immutable buffers.
//!
//! A chunk is an `arrow::array::ArrayData`. Its storage belongs to arrow; this
//! module names what such a descriptor holds and states, without proof, what
//! the arrow functions used by this crate do to it.

use vstd::prelude::*;
use vstd::arithmetic::power2::pow2;
use arrow::array::{ArrayData, ArrayDataBuilder};
use arrow::buffer::Buffer;
use arrow::datatypes::DataType;
use arrow::error::ArrowError;
use crate::datatypes::ElementType;

verus! {

/// `arrow::buffer::Buffer`: a shared, immutable region of bytes. Opaque here.
#[verifier::external_type_specification]
#[verifier::external_body]
pub struct ExBuffer(Buffer);

/// `arrow::error::ArrowError`: named by the operators that arrow defines on
/// buffers; this crate never makes or reads one.
#[verifier::external_type_specification]
#[verifier::external_body]
pub struct ExArrowError(ArrowError);

/// `arrow::array::ArrayData`: the descriptor of one array. Opaque here.
#[verifier::external_type_specification]
#[verifier::external_body]
pub struct ExArrayData(ArrayData);

/// `arrow::array::ArrayDataBuilder`: collects the parts of a descriptor.
/// Opaque here.
#[verifier::external_type_specification]
#[verifier::external_body]
pub struct ExArrayDataBuilder(ArrayDataBuilder);

/// What a chunk descriptor holds, as plain values.
pub struct ChunkView {
    /// Declared element type, where it is one of the numeric types of this crate.
    pub dtype: Option<ElementType>,
    /// Number of logical elements.
    pub len: nat,
    /// Index, in elements, of the first logical element within the buffers.
    pub offset: nat,
    /// The bytes of each buffer, in order.
    pub buffers: Seq<Seq<u8>>,
    /// The bytes of the validity bitmap, if there is one.
    pub validity: Option<Seq<u8>>,
}

impl ChunkView {
    /// Whether bit `k` of the validity bitmap `bits` is set. Bits are counted
    /// from the least significant bit of the first byte.
    pub open spec fn bit_is_set(bits: Seq<u8>, k: int) -> bool {
        (bits[k / 8] as int / pow2((k % 8) as nat) as int) % 2 == 1
    }

    /// Whether the element at logical index `i` is null: the chunk has a
    /// validity bitmap and the element's bit in it is cleared.
    pub open spec fn is_null(self, i: int) -> bool {
        match self.validity {
            Some(bits) => !Self::bit_is_set(bits, self.offset + i),
            None => false,
        }
    }

    /// The logical indices of the chunk's null elements.
    pub open spec fn null_positions(self) -> Set<int> {
        Set::new(|i: int| 0 <= i < self.len && self.is_null(i))
    }

    /// The bytes stored for the element at logical index `i`, where one
    /// element takes `width` bytes of the value buffer.
    pub open spec fn element_bytes(self, width: nat, i: int) -> Seq<u8> {
        self.buffers[0].subrange((self.offset + i) * width, (self.offset + i + 1) * width)
    }
}

/// The bytes that a buffer gives access to, from its own start to its end.
pub uninterp spec fn buffer_bytes(b: Buffer) -> Seq<u8>;

/// What an array descriptor holds.
pub uninterp spec fn array_view(d: ArrayData) -> ChunkView;

/// What a builder has been given so far.
pub uninterp spec fn builder_view(b: ArrayDataBuilder) -> ChunkView;

/// The bytes of each buffer of a list of buffers.
pub open spec fn all_bytes(bs: Seq<Buffer>) -> Seq<Seq<u8>> {
    bs.map_values(|b: Buffer| buffer_bytes(b))
}

/// The bytes of a buffer that may be absent.
pub open spec fn opt_bytes(b: Option<Buffer>) -> Option<Seq<u8>> {
    match b {
        Some(b) => Some(buffer_bytes(b)),
        None => None,
    }
}

/// `Buffer::len`: the number of bytes in the buffer.
pub assume_specification[ Buffer::len ](b: &Buffer) -> (n: usize)
    ensures
        n == buffer_bytes(*b).len(),
;

/// `ArrayData::len`: the number of logical elements.
pub assume_specification[ ArrayData::len ](d: &ArrayData) -> (n: usize)
    ensures
        n == array_view(*d).len,
;

/// `ArrayData::offset`: the offset in elements.
pub assume_specification[ ArrayData::offset ](d: &ArrayData) -> (n: usize)
    ensures
        n == array_view(*d).offset,
;

/// `ArrayData::buffers`, each buffer cloned: the buffers of the descriptor, in
/// order. A cloned buffer shares the storage of the one it was cloned from,
/// so it gives access to the same bytes.
#[verifier::external_body]
pub(crate) fn chunk_buffers(d: &ArrayData) -> (bs: Vec<Buffer>)
    ensures
        all_bytes(bs@) == array_view(*d).buffers,
{
    d.buffers().to_vec()
}

/// `ArrayData::null_buffer`, cloned: the buffer behind the validity bitmap,
/// where the descriptor has one.
#[verifier::external_body]
pub(crate) fn chunk_validity(d: &ArrayData) -> (b: Option<Buffer>)
    ensures
        opt_bytes(b) == array_view(*d).validity,
{
    d.null_buffer().cloned()
}

/// `ArrayData::data_type`: the declared type of the descriptor, as an element
/// type of this crate; `None` for every other arrow type.
#[verifier::external_body]
pub(crate) fn chunk_type(d: &ArrayData) -> (t: Option<ElementType>)
    ensures
        t == array_view(*d).dtype,
{
    match d.data_type() {
        DataType::Int8 => Some(ElementType::Int8),
        DataType::Int16 => Some(ElementType::Int16),
        DataType::Int32 => Some(ElementType::Int32),
        DataType::Int64 => Some(ElementType::Int64),
        DataType::UInt8 => Some(ElementType::UInt8),
        DataType::UInt16 => Some(ElementType::UInt16),
        DataType::UInt32 => Some(ElementType::UInt32),
        DataType::UInt64 => Some(ElementType::UInt64),
        DataType::Float32 => Some(ElementType::Float32),
        DataType::Float64 => Some(ElementType::Float64),
        DataType::Date32 => Some(ElementType::Date32),
        DataType::Date64 => Some(ElementType::Date64),
        _ => None,
    }
}

/// `ArrayData::builder`: a builder for a descriptor of the given type, with
/// length and offset zero, no buffers and no validity bitmap.
#[verifier::external_body]
pub(crate) fn new_builder(t: ElementType) -> (b: ArrayDataBuilder)
    ensures
        builder_view(b) == (ChunkView {
            dtype: Some(t),
            len: 0,
            offset: 0,
            buffers: Seq::empty(),
            validity: None,
        }),
{
    ArrayData::builder(match t {
        ElementType::Int8 => DataType::Int8,
        ElementType::Int16 => DataType::Int16,
        ElementType::Int32 => DataType::Int32,
        ElementType::Int64 => DataType::Int64,
        ElementType::UInt8 => DataType::UInt8,
        ElementType::UInt16 => DataType::UInt16,
        ElementType::UInt32 => DataType::UInt32,
        ElementType::UInt64 => DataType::UInt64,
        ElementType::Float32 => DataType::Float32,
        ElementType::Float64 => DataType::Float64,
        ElementType::Date32 => DataType::Date32,
        ElementType::Date64 => DataType::Date64,
    })
}

/// `ArrayDataBuilder::buffers`: replaces the builder's buffers.
pub assume_specification[ ArrayDataBuilder::buffers ](b: ArrayDataBuilder, v: Vec<Buffer>) -> (r:
    ArrayDataBuilder)
    ensures
        builder_view(r) == (ChunkView { buffers: all_bytes(v@), ..builder_view(b) }),
;

/// `ArrayDataBuilder::len`: sets the number of elements.
pub assume_specification[ ArrayDataBuilder::len ](b: ArrayDataBuilder, n: usize) -> (r:
    ArrayDataBuilder)
    ensures
        builder_view(r) == (ChunkView { len: n as nat, ..builder_view(b) }),
;

/// `ArrayDataBuilder::offset`: sets the offset in elements.
pub assume_specification[ ArrayDataBuilder::offset ](b: ArrayDataBuilder, n: usize) -> (r:
    ArrayDataBuilder)
    ensures
        builder_view(r) == (ChunkView { offset: n as nat, ..builder_view(b) }),
;

/// `ArrayDataBuilder::null_bit_buffer`: sets the validity bitmap.
pub assume_specification[ ArrayDataBuilder::null_bit_buffer ](b: ArrayDataBuilder, buf: Buffer) -> (r:
    ArrayDataBuilder)
    ensures
        builder_view(r) == (ChunkView { validity: Some(buffer_bytes(buf)), ..builder_view(b) }),
;

/// `ArrayDataBuilder::build`: the descriptor holds what the builder was
/// given. With a validity bitmap, arrow counts the cleared bits from `offset`
/// to `offset + len` and panics where the bitmap is too short for that, so
/// the bitmap must cover that range.
pub assume_specification[ ArrayDataBuilder::build ](b: ArrayDataBuilder) -> (d: ArrayData)
    requires
        builder_view(b).validity matches Some(bits) ==> covers(
            bits,
            builder_view(b).offset,
            builder_view(b).len,
        ),
    ensures
        array_view(d) == builder_view(b),
;

/// A bitmap of these bytes has a bit for every element from `offset` to
/// `offset + len`, and that end can be held in a `usize`.
pub open spec fn covers(bits: Seq<u8>, offset: nat, len: nat) -> bool {
    &&& offset + len <= usize::MAX
    &&& offset + len <= bits.len() * 8
}

} // verus!
