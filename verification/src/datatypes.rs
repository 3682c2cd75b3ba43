//! Logical element types and their native storage widths.

use vstd::prelude::*;

verus! {

/// The logical type of the elements of a numeric column.
#[derive(Clone, Copy, Debug, PartialEq, Eq, Structural)]
pub enum ElementType {
    Int8,
    Int16,
    Int32,
    Int64,
    UInt8,
    UInt16,
    UInt32,
    UInt64,
    Float32,
    Float64,
    Date32,
    Date64,
}

/// How a native width relates to the two widths that can be reinterpreted.
#[derive(Clone, Copy, Debug, PartialEq, Eq, Structural)]
pub enum WidthClass {
    /// Exactly eight bytes per element.
    Wide,
    /// Exactly four bytes per element.
    Narrow,
    /// Any other width; such a column cannot be reinterpreted.
    Other,
}

impl ElementType {
    /// Number of bytes that one element of this type occupies in a value buffer.
    pub open spec fn width(self) -> nat {
        match self {
            ElementType::Int8 | ElementType::UInt8 => 1,
            ElementType::Int16 | ElementType::UInt16 => 2,
            ElementType::Int32 | ElementType::UInt32 | ElementType::Float32 | ElementType::Date32 => 4,
            ElementType::Int64 | ElementType::UInt64 | ElementType::Float64 | ElementType::Date64 => 8,
        }
    }

    /// The class of this type's native width.
    pub open spec fn spec_width_class(self) -> WidthClass {
        if self.width() == 8 {
            WidthClass::Wide
        } else if self.width() == 4 {
            WidthClass::Narrow
        } else {
            WidthClass::Other
        }
    }

    /// Native width of this type in bytes.
    pub fn native_width(self) -> (w: usize)
        ensures
            w == self.width(),
            w == 1 || w == 2 || w == 4 || w == 8,
    {
        match self {
            ElementType::Int8 | ElementType::UInt8 => 1,
            ElementType::Int16 | ElementType::UInt16 => 2,
            ElementType::Int32 | ElementType::UInt32 | ElementType::Float32 | ElementType::Date32 => 4,
            ElementType::Int64 | ElementType::UInt64 | ElementType::Float64 | ElementType::Date64 => 8,
        }
    }

    /// Tells whether the native width is exactly eight bytes, exactly four
    /// bytes, or neither.
    pub fn width_class(self) -> (c: WidthClass)
        ensures
            c == self.spec_width_class(),
            c == WidthClass::Wide <==> self.width() == 8,
            c == WidthClass::Narrow <==> self.width() == 4,
    {
        let w: usize = self.native_width();
        if w == 8 {
            WidthClass::Wide
        } else if w == 4 {
            WidthClass::Narrow
        } else {
            WidthClass::Other
        }
    }
}

} // verus!
