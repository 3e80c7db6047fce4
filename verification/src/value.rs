//! The tagged value type stored in each parameter cell.
//!
//! Floating-point parameters are carried as their IEEE-754 bit patterns
//! (`u32` / `u64`): the store, the cache, validation and equality all work
//! on the bits, and only the unverified rim converts between bits and the
//! machine float type.

use vstd::prelude::*;

verus! {

/// A parameter value: a closed sum type with one variant per value type.
///
/// `ValF32` and `ValF64` hold IEEE-754 bit patterns. `ValPath` holds a file
/// path naming the bytes of a blob default; it never reaches the durable
/// store.
#[derive(Clone, Debug, PartialEq)]
pub enum ParameterValue {
    ValNone,
    ValBool(bool),
    ValI32(i32),
    ValU32(u32),
    ValI64(i64),
    ValU64(u64),
    ValF32(u32),
    ValF64(u64),
    ValString(String),
    ValBlob(Vec<u8>),
    ValEnum(i32),
    ValPath(String),
}

/// The mathematical model of a [`ParameterValue`]: strings become character
/// sequences and blobs byte sequences.
pub enum ValueModel {
    MNone,
    MBool(bool),
    MI32(i32),
    MU32(u32),
    MI64(i64),
    MU64(u64),
    MF32(u32),
    MF64(u64),
    MString(Seq<char>),
    MBlob(Seq<u8>),
    MEnum(i32),
    MPath(Seq<char>),
}

impl View for ParameterValue {
    type V = ValueModel;

    open spec fn view(&self) -> ValueModel {
        match self {
            ParameterValue::ValNone => ValueModel::MNone,
            ParameterValue::ValBool(b) => ValueModel::MBool(*b),
            ParameterValue::ValI32(v) => ValueModel::MI32(*v),
            ParameterValue::ValU32(v) => ValueModel::MU32(*v),
            ParameterValue::ValI64(v) => ValueModel::MI64(*v),
            ParameterValue::ValU64(v) => ValueModel::MU64(*v),
            ParameterValue::ValF32(v) => ValueModel::MF32(*v),
            ParameterValue::ValF64(v) => ValueModel::MF64(*v),
            ParameterValue::ValString(s) => ValueModel::MString(s@),
            ParameterValue::ValBlob(b) => ValueModel::MBlob(b@),
            ParameterValue::ValEnum(v) => ValueModel::MEnum(*v),
            ParameterValue::ValPath(p) => ValueModel::MPath(p@),
        }
    }
}

/// The declared type of a parameter. `TypeEnum` carries the schema name of
/// the enumeration.
#[derive(Clone, Debug, PartialEq)]
pub enum ParameterValueType {
    TypeNone,
    TypeBool,
    TypeI32,
    TypeU32,
    TypeI64,
    TypeU64,
    TypeF32,
    TypeF64,
    TypeString,
    TypeBlob,
    TypeEnum(String),
}

/// Whether value `v` is of declared type `t`. An enum-typed parameter holds
/// `ValEnum` values; a blob-typed descriptor's default may also be a path.
pub open spec fn spec_type_matches(t: ParameterValueType, v: ValueModel) -> bool {
    match t {
        ParameterValueType::TypeNone => v is MNone,
        ParameterValueType::TypeBool => v is MBool,
        ParameterValueType::TypeI32 => v is MI32,
        ParameterValueType::TypeU32 => v is MU32,
        ParameterValueType::TypeI64 => v is MI64,
        ParameterValueType::TypeU64 => v is MU64,
        ParameterValueType::TypeF32 => v is MF32,
        ParameterValueType::TypeF64 => v is MF64,
        ParameterValueType::TypeString => v is MString,
        ParameterValueType::TypeBlob => v is MBlob,
        ParameterValueType::TypeEnum(_) => v is MEnum,
    }
}

impl ParameterValueType {
    /// Decide whether `v` is of this declared type.
    pub fn matches_value(&self, v: &ParameterValue) -> (r: bool)
        ensures
            r == spec_type_matches(*self, v@),
    {
        match self {
            ParameterValueType::TypeNone => matches!(v, ParameterValue::ValNone),
            ParameterValueType::TypeBool => matches!(v, ParameterValue::ValBool(_)),
            ParameterValueType::TypeI32 => matches!(v, ParameterValue::ValI32(_)),
            ParameterValueType::TypeU32 => matches!(v, ParameterValue::ValU32(_)),
            ParameterValueType::TypeI64 => matches!(v, ParameterValue::ValI64(_)),
            ParameterValueType::TypeU64 => matches!(v, ParameterValue::ValU64(_)),
            ParameterValueType::TypeF32 => matches!(v, ParameterValue::ValF32(_)),
            ParameterValueType::TypeF64 => matches!(v, ParameterValue::ValF64(_)),
            ParameterValueType::TypeString => matches!(v, ParameterValue::ValString(_)),
            ParameterValueType::TypeBlob => matches!(v, ParameterValue::ValBlob(_)),
            ParameterValueType::TypeEnum(_) => matches!(v, ParameterValue::ValEnum(_)),
        }
    }
}

impl ParameterValue {
    /// The declared type this value belongs to. A path stands in for blob
    /// bytes, so it reports `TypeBlob`; an enum value reports an anonymous
    /// `TypeEnum`.
    pub fn parameter_type(&self) -> (t: ParameterValueType)
        ensures
            t == match self@ {
                ValueModel::MNone => ParameterValueType::TypeNone,
                ValueModel::MBool(_) => ParameterValueType::TypeBool,
                ValueModel::MI32(_) => ParameterValueType::TypeI32,
                ValueModel::MU32(_) => ParameterValueType::TypeU32,
                ValueModel::MI64(_) => ParameterValueType::TypeI64,
                ValueModel::MU64(_) => ParameterValueType::TypeU64,
                ValueModel::MF32(_) => ParameterValueType::TypeF32,
                ValueModel::MF64(_) => ParameterValueType::TypeF64,
                ValueModel::MString(_) => ParameterValueType::TypeString,
                ValueModel::MBlob(_) => ParameterValueType::TypeBlob,
                ValueModel::MEnum(_) => ParameterValueType::TypeEnum(t->TypeEnum_0),
                ValueModel::MPath(_) => ParameterValueType::TypeBlob,
            },
            self@ is MEnum ==> t->TypeEnum_0@ == Seq::<char>::empty(),
    {
        match self {
            ParameterValue::ValNone => ParameterValueType::TypeNone,
            ParameterValue::ValBool(_) => ParameterValueType::TypeBool,
            ParameterValue::ValI32(_) => ParameterValueType::TypeI32,
            ParameterValue::ValU32(_) => ParameterValueType::TypeU32,
            ParameterValue::ValI64(_) => ParameterValueType::TypeI64,
            ParameterValue::ValU64(_) => ParameterValueType::TypeU64,
            ParameterValue::ValF32(_) => ParameterValueType::TypeF32,
            ParameterValue::ValF64(_) => ParameterValueType::TypeF64,
            ParameterValue::ValString(_) => ParameterValueType::TypeString,
            ParameterValue::ValBlob(_) => ParameterValueType::TypeBlob,
            ParameterValue::ValEnum(_) => ParameterValueType::TypeEnum(String::new()),
            ParameterValue::ValPath(_) => ParameterValueType::TypeBlob,
        }
    }
}

impl Default for ParameterValue {
    /// The conventional placeholder value.
    fn default() -> (r: Self)
        ensures
            r@ == ValueModel::MI32(0),
    {
        ParameterValue::ValI32(0)
    }
}

/// Compare two byte vectors element by element.
pub fn bytes_eq(a: &Vec<u8>, b: &Vec<u8>) -> (r: bool)
    ensures
        r == (a@ == b@),
{
    if a.len() != b.len() {
        assert(a@.len() != b@.len());
        return false;
    }
    let n: usize = a.len();
    let mut i: usize = 0;
    while i < n
        invariant
            n == a@.len() == b@.len(),
            i <= n,
            forall|j: int| 0 <= j < i ==> a@[j] == b@[j],
        decreases n - i,
    {
        if a[i] != b[i] {
            return false;
        }
        i = i + 1;
    }
    proof {
        assert(a@ =~= b@);
    }
    true
}

/// Decide whether two values are equal, comparing strings and blobs by
/// contents and floats by bit pattern.
pub fn value_eq(a: &ParameterValue, b: &ParameterValue) -> (r: bool)
    ensures
        r == (a@ == b@),
{
    match (a, b) {
        (ParameterValue::ValNone, ParameterValue::ValNone) => true,
        (ParameterValue::ValBool(x), ParameterValue::ValBool(y)) => x == y,
        (ParameterValue::ValI32(x), ParameterValue::ValI32(y)) => x == y,
        (ParameterValue::ValU32(x), ParameterValue::ValU32(y)) => x == y,
        (ParameterValue::ValI64(x), ParameterValue::ValI64(y)) => x == y,
        (ParameterValue::ValU64(x), ParameterValue::ValU64(y)) => x == y,
        (ParameterValue::ValF32(x), ParameterValue::ValF32(y)) => x == y,
        (ParameterValue::ValF64(x), ParameterValue::ValF64(y)) => x == y,
        (ParameterValue::ValString(x), ParameterValue::ValString(y)) => *x == *y,
        (ParameterValue::ValBlob(x), ParameterValue::ValBlob(y)) => bytes_eq(x, y),
        (ParameterValue::ValEnum(x), ParameterValue::ValEnum(y)) => x == y,
        (ParameterValue::ValPath(x), ParameterValue::ValPath(y)) => *x == *y,
        _ => {
            proof {
                assert(a@ != b@);
            }
            false
        },
    }
}

/// Map a 32-bit IEEE-754 bit pattern to a key whose unsigned order is the
/// IEEE total order of the encoded numbers: a set sign bit flips every bit,
/// a clear one only the sign bit.
pub open spec fn spec_f32_order_key(bits: u32) -> u32 {
    if bits >= 0x8000_0000 {
        !bits
    } else {
        bits ^ 0x8000_0000
    }
}

/// Map a 64-bit IEEE-754 bit pattern to a key whose unsigned order is the
/// IEEE total order of the encoded numbers.
pub open spec fn spec_f64_order_key(bits: u64) -> u64 {
    if bits >= 0x8000_0000_0000_0000 {
        !bits
    } else {
        bits ^ 0x8000_0000_0000_0000
    }
}

/// Compute the order key of a 32-bit float bit pattern.
pub fn f32_order_key(bits: u32) -> (r: u32)
    ensures
        r == spec_f32_order_key(bits),
{
    if bits >= 0x8000_0000 {
        !bits
    } else {
        bits ^ 0x8000_0000
    }
}

/// Compute the order key of a 64-bit float bit pattern.
pub fn f64_order_key(bits: u64) -> (r: u64)
    ensures
        r == spec_f64_order_key(bits),
{
    if bits >= 0x8000_0000_0000_0000 {
        !bits
    } else {
        bits ^ 0x8000_0000_0000_0000
    }
}

} // verus!
