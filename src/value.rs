use vstd::prelude::*;

verus! {

/// Position of an input chunk in the original input order.
pub type IdxSize = u32;

/// Physical type of a column, of an ingested value, or of a finalized result.
#[derive(Clone, Copy, Debug, PartialEq, Eq, Structural)]
pub enum DataType {
    Null,
    UInt8,
    UInt16,
    UInt32,
    UInt64,
    Int8,
    Int16,
    Int32,
    Int64,
    Float32,
    Float64,
}

/// An exact mean: `sign * magnitude / count`, with `count > 0` and no negative zero.
#[derive(Clone, Copy, Debug, PartialEq, Eq, Structural)]
pub struct Quotient {
    pub negative: bool,
    pub magnitude: u128,
    pub count: u64,
}

/// A dynamically typed scalar value.
#[derive(Clone, Copy, Debug, PartialEq, Eq, Structural)]
pub enum Scalar {
    Null,
    UInt8(u8),
    UInt16(u16),
    UInt32(u32),
    UInt64(u64),
    Int8(i8),
    Int16(i16),
    Int32(i32),
    Int64(i64),
    /// The result of a mean, kept as an exact fraction.
    Quotient(Quotient),
}

pub open spec fn u64_max() -> int {
    0xFFFF_FFFF_FFFF_FFFF
}

impl Quotient {
    /// The signed numerator.
    pub open spec fn numerator(self) -> int {
        if self.negative {
            -(self.magnitude as int)
        } else {
            self.magnitude as int
        }
    }
}

/// The quotient that stands for `total / count`.
pub open spec fn quotient_of(total: int, count: nat) -> Quotient {
    Quotient {
        negative: total < 0,
        magnitude: (if total < 0 { -total } else { total }) as u128,
        count: count as u64,
    }
}

impl Scalar {
    /// The integer that an integer scalar holds.
    pub open spec fn int_of(self) -> Option<int> {
        match self {
            Scalar::UInt8(x) => Some(x as int),
            Scalar::UInt16(x) => Some(x as int),
            Scalar::UInt32(x) => Some(x as int),
            Scalar::UInt64(x) => Some(x as int),
            Scalar::Int8(x) => Some(x as int),
            Scalar::Int16(x) => Some(x as int),
            Scalar::Int32(x) => Some(x as int),
            Scalar::Int64(x) => Some(x as int),
            _ => None,
        }
    }

    pub open spec fn is_unsigned(self) -> bool {
        self is UInt8 || self is UInt16 || self is UInt32 || self is UInt64
    }

    pub open spec fn spec_dtype(self) -> DataType {
        match self {
            Scalar::Null => DataType::Null,
            Scalar::UInt8(_) => DataType::UInt8,
            Scalar::UInt16(_) => DataType::UInt16,
            Scalar::UInt32(_) => DataType::UInt32,
            Scalar::UInt64(_) => DataType::UInt64,
            Scalar::Int8(_) => DataType::Int8,
            Scalar::Int16(_) => DataType::Int16,
            Scalar::Int32(_) => DataType::Int32,
            Scalar::Int64(_) => DataType::Int64,
            Scalar::Quotient(_) => DataType::Float64,
        }
    }

    /// The physical type of this value.
    pub fn dtype(&self) -> (r: DataType)
        ensures
            r == self.spec_dtype(),
    {
        match self {
            Scalar::Null => DataType::Null,
            Scalar::UInt8(_) => DataType::UInt8,
            Scalar::UInt16(_) => DataType::UInt16,
            Scalar::UInt32(_) => DataType::UInt32,
            Scalar::UInt64(_) => DataType::UInt64,
            Scalar::Int8(_) => DataType::Int8,
            Scalar::Int16(_) => DataType::Int16,
            Scalar::Int32(_) => DataType::Int32,
            Scalar::Int64(_) => DataType::Int64,
            Scalar::Quotient(_) => DataType::Float64,
        }
    }

    /// The integer this value holds, widened, or `None` for a null or a quotient.
    pub fn as_int(&self) -> (r: Option<i128>)
        ensures
            r matches Some(v) <==> self.int_of() is Some,
            r matches Some(v) ==> self.int_of() == Some(v as int),
    {
        match self {
            Scalar::UInt8(x) => Some(*x as i128),
            Scalar::UInt16(x) => Some(*x as i128),
            Scalar::UInt32(x) => Some(*x as i128),
            Scalar::UInt64(x) => Some(*x as i128),
            Scalar::Int8(x) => Some(*x as i128),
            Scalar::Int16(x) => Some(*x as i128),
            Scalar::Int32(x) => Some(*x as i128),
            Scalar::Int64(x) => Some(*x as i128),
            _ => None,
        }
    }

    /// Whether the value is an unsigned integer.
    pub fn is_unsigned_int(&self) -> (r: bool)
        ensures
            r == self.is_unsigned(),
    {
        match self {
            Scalar::UInt8(_) | Scalar::UInt16(_) | Scalar::UInt32(_) | Scalar::UInt64(_) => true,
            _ => false,
        }
    }
}

} // verus!
