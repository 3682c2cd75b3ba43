//! A named column made of chunks that all hold elements of one type.

use vstd::prelude::*;
use arrow::array::ArrayData;
use arrow::buffer::Buffer;
use crate::chunk::{array_view, chunk_buffers, chunk_type, chunk_validity, covers, ChunkView};
use crate::datatypes::ElementType;

verus! {

/// What a column holds, as plain values.
pub struct ColumnView {
    /// The column's name.
    pub name: Seq<char>,
    /// The declared type of every element.
    pub dtype: ElementType,
    /// The chunks, in order.
    pub chunks: Seq<ChunkView>,
}

/// A chunk is well formed for element type `t` when it declares that type,
/// has exactly one value buffer, that buffer holds every element from the
/// first up to `offset + len`, and the validity bitmap, if there is one, has
/// a bit for each of them.
pub open spec fn chunk_wf(v: ChunkView, t: ElementType) -> bool {
    &&& v.dtype == Some(t)
    &&& v.buffers.len() == 1
    &&& v.offset + v.len <= usize::MAX
    &&& (v.offset + v.len) * t.width() <= v.buffers[0].len()
    &&& v.validity matches Some(bits) ==> covers(bits, v.offset, v.len)
}

/// Every chunk of the column is well formed for the column's element type.
pub open spec fn column_wf(c: ColumnView) -> bool {
    forall|i: int| 0 <= i < c.chunks.len() ==> chunk_wf(#[trigger] c.chunks[i], c.dtype)
}

/// The views of a list of chunk descriptors.
pub open spec fn chunk_views(ds: Seq<ArrayData>) -> Seq<ChunkView> {
    ds.map_values(|d: ArrayData| array_view(d))
}

/// Tells whether a chunk is well formed for element type `t`.
pub fn is_valid_chunk(d: &ArrayData, t: ElementType) -> (ok: bool)
    ensures
        ok == chunk_wf(array_view(*d), t),
{
    match chunk_type(d) {
        Some(declared) => {
            if declared != t {
                return false;
            }
        },
        None => {
            return false;
        },
    }
    let buffers: Vec<Buffer> = chunk_buffers(d);
    if buffers.len() != 1 {
        return false;
    }
    let end: usize = match d.offset().checked_add(d.len()) {
        Some(end) => end,
        None => {
            return false;
        },
    };
    let width: usize = t.native_width();
    let capacity: usize = buffers[0].len();
    // `end * width <= capacity`, without computing the product.
    if end > capacity / width {
        assert(end * width > capacity) by (nonlinear_arith)
            requires
                end > capacity / width,
                width > 0,
        ;
        return false;
    }
    assert(end * width <= capacity) by (nonlinear_arith)
        requires
            end <= capacity / width,
            width > 0,
    ;
    match chunk_validity(d) {
        Some(bitmap) => {
            let bytes: usize = bitmap.len();
            // `end <= bytes * 8`, without computing the product.
            let needed: usize = if end % 8 == 0 {
                end / 8
            } else {
                end / 8 + 1
            };
            needed <= bytes
        },
        None => true,
    }
}

/// A named, ordered sequence of chunks that share one declared element type.
pub struct ChunkedArray {
    name: String,
    dtype: ElementType,
    chunks: Vec<ArrayData>,
}

impl View for ChunkedArray {
    type V = ColumnView;

    closed spec fn view(&self) -> ColumnView {
        ColumnView { name: self.name@, dtype: self.dtype, chunks: chunk_views(self.chunks@) }
    }
}

impl ChunkedArray {
    /// Every chunk is well formed for the column's element type.
    pub open spec fn wf(&self) -> bool {
        column_wf(self@)
    }

    /// Assembles a column from chunks that are known to be well formed.
    pub(crate) fn from_valid_chunks(name: String, dtype: ElementType, chunks: Vec<ArrayData>) -> (c:
        ChunkedArray)
        requires
            column_wf(ColumnView { name: name@, dtype, chunks: chunk_views(chunks@) }),
        ensures
            c@ == (ColumnView { name: name@, dtype, chunks: chunk_views(chunks@) }),
            c.wf(),
    {
        ChunkedArray { name, dtype, chunks }
    }

    /// Assembles a column named `name` of element type `dtype` from `chunks`,
    /// in their order. The chunks are taken as they are; nothing is copied.
    /// Returns `None` exactly when some chunk is not well formed for `dtype`.
    /// A column without chunks is accepted.
    pub fn new_from_chunks(name: &str, dtype: ElementType, chunks: Vec<ArrayData>) -> (r: Option<
        ChunkedArray,
    >)
        ensures
            r is Some <==> column_wf(
                ColumnView { name: name@, dtype, chunks: chunk_views(chunks@) },
            ),
            r matches Some(c) ==> c.wf() && c@ == (ColumnView {
                name: name@,
                dtype,
                chunks: chunk_views(chunks@),
            }),
    {
        let ghost views = chunk_views(chunks@);
        let ghost column = ColumnView { name: name@, dtype, chunks: views };
        let mut i: usize = 0;
        while i < chunks.len()
            invariant
                i <= chunks.len(),
                views == chunk_views(chunks@),
                column == (ColumnView { name: name@, dtype, chunks: views }),
                forall|j: int| 0 <= j < i ==> chunk_wf(#[trigger] views[j], dtype),
            decreases chunks.len() - i,
        {
            if !is_valid_chunk(&chunks[i], dtype) {
                assert(!chunk_wf(column.chunks[i as int], column.dtype));
                return None;
            }
            i += 1;
        }
        Some(ChunkedArray::from_valid_chunks(name.to_owned(), dtype, chunks))
    }

    /// The column's name.
    pub fn name(&self) -> (s: &str)
        ensures
            s@ == self@.name,
    {
        self.name.as_str()
    }

    /// The declared type of the column's elements.
    pub fn dtype(&self) -> (t: ElementType)
        ensures
            t == self@.dtype,
    {
        self.dtype
    }

    /// The chunks, in order.
    pub fn chunks(&self) -> (cs: &Vec<ArrayData>)
        ensures
            chunk_views(cs@) == self@.chunks,
    {
        &self.chunks
    }
}

} // verus!
