//! Viewing a numeric column as unsigned integers of the same width.
//!
//! The conversion walks the chunks in order and gives each a new descriptor
//! over the same buffers, with the same offset, length and validity bitmap,
//! and with the unsigned type in place of the declared one. No value byte is
//! read or copied.

use vstd::prelude::*;
use arrow::array::{ArrayData, ArrayDataBuilder};
use arrow::buffer::Buffer;
use crate::chunk::{array_view, chunk_buffers, chunk_validity, covers, new_builder,
    ChunkView};
use crate::chunked_array::{chunk_views, chunk_wf, column_wf, ChunkedArray, ColumnView};
use crate::datatypes::{ElementType, WidthClass};

verus! {

/// A chunk with `t` in place of its declared type and nothing else changed.
pub open spec fn relabeled(v: ChunkView, t: ElementType) -> ChunkView {
    ChunkView { dtype: Some(t), ..v }
}

/// A column with `t` as its element type and every chunk relabeled to `t`,
/// under the same name and in the same order.
pub open spec fn reinterpreted(c: ColumnView, t: ElementType) -> ColumnView {
    ColumnView {
        name: c.name,
        dtype: t,
        chunks: c.chunks.map_values(|v: ChunkView| relabeled(v, t)),
    }
}

/// Relabeling keeps the structure of a column: the number of chunks, and each
/// chunk's length and offset.
pub proof fn lemma_structure_preserved(c: ColumnView, t: ElementType)
    ensures
        reinterpreted(c, t).name == c.name,
        reinterpreted(c, t).dtype == t,
        reinterpreted(c, t).chunks.len() == c.chunks.len(),
        forall|i: int|
            0 <= i < c.chunks.len() ==> {
                &&& (#[trigger] reinterpreted(c, t).chunks[i]).len == c.chunks[i].len
                &&& reinterpreted(c, t).chunks[i].offset == c.chunks[i].offset
            },
{
}

/// Relabeling keeps nulls where they are: each chunk of the result has a
/// validity bitmap exactly when the source chunk has one, with the same
/// bytes, and its null elements sit at the same logical indices.
pub proof fn lemma_nulls_preserved(c: ColumnView, t: ElementType, i: int)
    requires
        0 <= i < c.chunks.len(),
    ensures
        reinterpreted(c, t).chunks[i].validity == c.chunks[i].validity,
        c.chunks[i].validity is None ==> reinterpreted(c, t).chunks[i].validity is None,
        forall|k: int| reinterpreted(c, t).chunks[i].is_null(k) == c.chunks[i].is_null(k),
        reinterpreted(c, t).chunks[i].null_positions() == c.chunks[i].null_positions(),
{
    assert(reinterpreted(c, t).chunks[i].null_positions() =~= c.chunks[i].null_positions());
}

/// Relabeling leaves the value bytes alone: each chunk of the result gives
/// access to the same buffers as the source chunk, byte for byte.
pub proof fn lemma_buffers_preserved(c: ColumnView, t: ElementType, i: int)
    requires
        0 <= i < c.chunks.len(),
    ensures
        reinterpreted(c, t).chunks[i].buffers == c.chunks[i].buffers,
{
}

/// Relabeling to a type of the same width keeps a column well formed: every
/// element of every chunk still lies within the chunk's value buffer.
pub proof fn lemma_wf_preserved(c: ColumnView, t: ElementType)
    requires
        column_wf(c),
        c.dtype.width() == t.width(),
    ensures
        column_wf(reinterpreted(c, t)),
{
    let r = reinterpreted(c, t);
    assert forall|i: int| 0 <= i < r.chunks.len() implies chunk_wf(#[trigger] r.chunks[i], r.dtype) by {
        assert(chunk_wf(c.chunks[i], c.dtype));
    }
}

/// The bit pattern of every element survives: in a well-formed column
/// relabeled to a type of the same width, the element at logical index `k` of
/// chunk `i` is stored in the same bytes as before, all of them inside the
/// value buffer. Whatever the bits meant under the source type, the
/// unsigned integer read at that index is made of exactly those bits.
pub proof fn lemma_bit_pattern_preserved(c: ColumnView, t: ElementType, i: int, k: int)
    requires
        column_wf(c),
        c.dtype.width() == t.width(),
        0 <= i < c.chunks.len(),
        0 <= k < c.chunks[i].len,
    ensures
        reinterpreted(c, t).chunks[i].element_bytes(t.width(), k) == c.chunks[i].element_bytes(
            c.dtype.width(),
            k,
        ),
        c.chunks[i].element_bytes(c.dtype.width(), k).len() == c.dtype.width(),
        0 <= (c.chunks[i].offset + k) * c.dtype.width(),
        (c.chunks[i].offset + k + 1) * c.dtype.width() <= c.chunks[i].buffers[0].len(),
{
    let v = c.chunks[i];
    let w = c.dtype.width();
    assert(chunk_wf(v, c.dtype));
    assert((v.offset + k + 1) * w <= (v.offset + v.len) * w) by (nonlinear_arith)
        requires
            0 <= k < v.len,
            w >= 0,
    ;
    assert(0 <= (v.offset + k) * w <= (v.offset + k + 1) * w) by (nonlinear_arith)
        requires
            0 <= k,
            w >= 0,
    ;
    assert((v.offset + k + 1) * w - (v.offset + k) * w == w) by (nonlinear_arith);
}

/// The unsigned view of a column, for each class of native width: 64-bit
/// unsigned integers for a wide column, 32-bit ones for a narrow column, and
/// none for a column of any other width.
pub open spec fn bit_pattern_of(c: ColumnView) -> Option<ColumnView> {
    match c.dtype.spec_width_class() {
        WidthClass::Wide => Some(reinterpreted(c, ElementType::UInt64)),
        WidthClass::Narrow => Some(reinterpreted(c, ElementType::UInt32)),
        WidthClass::Other => None,
    }
}

/// Gives one chunk a new descriptor of type `target` over the same buffers,
/// with the same offset, length and validity bitmap.
pub fn relabel_chunk(d: &ArrayData, target: ElementType) -> (r: ArrayData)
    requires
        array_view(*d).validity matches Some(bits) ==> covers(
            bits,
            array_view(*d).offset,
            array_view(*d).len,
        ),
    ensures
        array_view(r) == relabeled(array_view(*d), target),
{
    let buffers: Vec<Buffer> = chunk_buffers(d);
    let null_buf: Option<Buffer> = chunk_validity(d);
    let mut builder: ArrayDataBuilder = new_builder(target).buffers(buffers).len(d.len()).offset(
        d.offset(),
    );
    if let Some(null_buf) = null_buf {
        builder = builder.null_bit_buffer(null_buf);
    }
    builder.build()
}

impl ChunkedArray {
    /// Relabels every chunk to `target`, a type as wide as the column's own.
    fn reinterpret(&self, target: ElementType) -> (r: ChunkedArray)
        requires
            self.wf(),
            self@.dtype.width() == target.width(),
        ensures
            r@ == reinterpreted(self@, target),
            r.wf(),
    {
        let source: &Vec<ArrayData> = self.chunks();
        let mut chunks: Vec<ArrayData> = Vec::new();
        let mut i: usize = 0;
        while i < source.len()
            invariant
                i <= source.len(),
                chunks.len() == i,
                chunk_views(source@) == self@.chunks,
                column_wf(self@),
                forall|j: int|
                    0 <= j < i ==> array_view(#[trigger] chunks@[j]) == relabeled(
                        self@.chunks[j],
                        target,
                    ),
            decreases source.len() - i,
        {
            assert(chunk_wf(self@.chunks[i as int], self@.dtype));
            let chunk: ArrayData = relabel_chunk(&source[i], target);
            chunks.push(chunk);
            i += 1;
        }
        let name: String = self.name().to_owned();
        proof {
            lemma_wf_preserved(self@, target);
            assert(chunk_views(chunks@) =~= reinterpreted(self@, target).chunks);
        }
        ChunkedArray::from_valid_chunks(name, target, chunks)
    }

    /// Whether the elements of this column are eight bytes wide, so that
    /// `bit_repr_large` is the conversion to call.
    pub fn is_large(&self) -> (b: bool)
        ensures
            b == (self@.dtype.width() == 8),
    {
        self.dtype().native_width() == 8
    }

    /// Whether the elements of this column are four bytes wide, so that
    /// `bit_repr_small` is the conversion to call.
    pub fn is_small(&self) -> (b: bool)
        ensures
            b == (self@.dtype.width() == 4),
    {
        self.dtype().native_width() == 4
    }

    /// Views a column of eight-byte elements as a column of 64-bit unsigned
    /// integers: same name, same chunks in the same order, each with the same
    /// buffers, offset, length and validity bitmap.
    pub fn bit_repr_large(&self) -> (r: ChunkedArray)
        requires
            self.wf(),
            self@.dtype.width() == 8,
        ensures
            r@ == reinterpreted(self@, ElementType::UInt64),
            r.wf(),
    {
        self.reinterpret(ElementType::UInt64)
    }

    /// Views a column of four-byte elements as a column of 32-bit unsigned
    /// integers: same name, same chunks in the same order, each with the same
    /// buffers, offset, length and validity bitmap.
    pub fn bit_repr_small(&self) -> (r: ChunkedArray)
        requires
            self.wf(),
            self@.dtype.width() == 4,
        ensures
            r@ == reinterpreted(self@, ElementType::UInt32),
            r.wf(),
    {
        self.reinterpret(ElementType::UInt32)
    }

    /// Picks the conversion by the width of the column's elements: the wide
    /// one for eight bytes, the narrow one for four, and `None` for a column
    /// whose elements have another width.
    pub fn bit_repr(&self) -> (r: Option<ChunkedArray>)
        requires
            self.wf(),
        ensures
            r is Some <==> self@.dtype.width() == 8 || self@.dtype.width() == 4,
            match r {
                Some(out) => out.wf() && Some(out@) == bit_pattern_of(self@),
                None => bit_pattern_of(self@) is None,
            },
    {
        match self.dtype().width_class() {
            WidthClass::Wide => Some(self.bit_repr_large()),
            WidthClass::Narrow => Some(self.bit_repr_small()),
            WidthClass::Other => None,
        }
    }
}

} // verus!
