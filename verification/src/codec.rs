//! Conversion between parameter values and the scalar a durable row
//! stores.
//!
//! Every value is persisted as one of the store's scalar classes: integers
//! carry the numeric, boolean, enum and float-bit variants, text carries
//! strings, and a byte array carries blobs. Reading decodes by the
//! parameter's declared type; a stored scalar of the wrong class falls back
//! to the default rather than failing the read.

use vstd::prelude::*;

use crate::schema::Parameter;
use crate::value::{
    spec_type_matches, ParameterValue, ParameterValueType, ValueModel,
};

verus! {

/// One scalar as the durable store hands it back: an integer, a text, a
/// byte array, an empty cell, or a class this library does not decode.
pub enum DbScalar {
    DbInt(i64),
    DbText(String),
    DbBytes(Vec<u8>),
    DbNull,
    DbOther,
}

/// The mathematical model of a [`DbScalar`].
pub enum ScalarModel {
    SInt(i64),
    SText(Seq<char>),
    SBytes(Seq<u8>),
    SNull,
    SOther,
}

impl View for DbScalar {
    type V = ScalarModel;

    open spec fn view(&self) -> ScalarModel {
        match self {
            DbScalar::DbInt(i) => ScalarModel::SInt(*i),
            DbScalar::DbText(s) => ScalarModel::SText(s@),
            DbScalar::DbBytes(b) => ScalarModel::SBytes(b@),
            DbScalar::DbNull => ScalarModel::SNull,
            DbScalar::DbOther => ScalarModel::SOther,
        }
    }
}

/// The scalar a value is stored as: booleans and enums as integers, floats
/// as their bit patterns reinterpreted as a signed integer, unsigned
/// integers in two's complement. A none or path value stores an empty
/// cell; neither is ever written.
pub open spec fn spec_encode(v: ValueModel) -> ScalarModel {
    match v {
        ValueModel::MNone => ScalarModel::SNull,
        ValueModel::MBool(b) => ScalarModel::SInt(if b { 1 } else { 0 }),
        ValueModel::MI32(x) => ScalarModel::SInt(x as i64),
        ValueModel::MU32(x) => ScalarModel::SInt(x as i64),
        ValueModel::MI64(x) => ScalarModel::SInt(x),
        ValueModel::MU64(x) => ScalarModel::SInt(x as i64),
        ValueModel::MF32(bits) => ScalarModel::SInt(bits as i64),
        ValueModel::MF64(bits) => ScalarModel::SInt(bits as i64),
        ValueModel::MString(s) => ScalarModel::SText(s),
        ValueModel::MBlob(b) => ScalarModel::SBytes(b),
        ValueModel::MEnum(x) => ScalarModel::SInt(x as i64),
        ValueModel::MPath(_) => ScalarModel::SNull,
    }
}

/// Encode a value for storage.
pub fn encode_value(v: &ParameterValue) -> (r: DbScalar)
    ensures
        r@ == spec_encode(v@),
{
    match v {
        ParameterValue::ValNone => DbScalar::DbNull,
        ParameterValue::ValBool(b) => DbScalar::DbInt(if *b { 1 } else { 0 }),
        ParameterValue::ValI32(x) => DbScalar::DbInt(*x as i64),
        ParameterValue::ValU32(x) => DbScalar::DbInt(*x as i64),
        ParameterValue::ValI64(x) => DbScalar::DbInt(*x),
        ParameterValue::ValU64(x) => DbScalar::DbInt(#[verifier::truncate] (*x as i64)),
        ParameterValue::ValF32(bits) => DbScalar::DbInt(*bits as i64),
        ParameterValue::ValF64(bits) => DbScalar::DbInt(#[verifier::truncate] (*bits as i64)),
        ParameterValue::ValString(s) => DbScalar::DbText(s.clone()),
        ParameterValue::ValBlob(b) => DbScalar::DbBytes(crate::schema::clone_bytes(b)),
        ParameterValue::ValEnum(x) => DbScalar::DbInt(*x as i64),
        ParameterValue::ValPath(_) => DbScalar::DbNull,
    }
}

/// Decode a stored scalar into a value of declared type `t`, `None` when
/// the stored class does not fit the type. Numeric classes decode by
/// truncation, as the store does not carry width.
pub open spec fn spec_decode(t: ParameterValueType, s: ScalarModel) -> Option<ValueModel> {
    match t {
        ParameterValueType::TypeNone => Option::None,
        ParameterValueType::TypeBool => match s {
            ScalarModel::SInt(i) => Option::Some(ValueModel::MBool(i != 0)),
            _ => Option::None,
        },
        ParameterValueType::TypeI32 => match s {
            ScalarModel::SInt(i) => Option::Some(ValueModel::MI32(i as i32)),
            _ => Option::None,
        },
        ParameterValueType::TypeU32 => match s {
            ScalarModel::SInt(i) => Option::Some(ValueModel::MU32(i as u32)),
            _ => Option::None,
        },
        ParameterValueType::TypeI64 => match s {
            ScalarModel::SInt(i) => Option::Some(ValueModel::MI64(i)),
            _ => Option::None,
        },
        ParameterValueType::TypeU64 => match s {
            ScalarModel::SInt(i) => Option::Some(ValueModel::MU64(i as u64)),
            _ => Option::None,
        },
        ParameterValueType::TypeF32 => match s {
            ScalarModel::SInt(i) => Option::Some(ValueModel::MF32(i as u32)),
            _ => Option::None,
        },
        ParameterValueType::TypeF64 => match s {
            ScalarModel::SInt(i) => Option::Some(ValueModel::MF64(i as u64)),
            _ => Option::None,
        },
        ParameterValueType::TypeString => match s {
            ScalarModel::SText(t2) => Option::Some(ValueModel::MString(t2)),
            _ => Option::None,
        },
        ParameterValueType::TypeBlob => match s {
            ScalarModel::SBytes(b) => Option::Some(ValueModel::MBlob(b)),
            _ => Option::None,
        },
        ParameterValueType::TypeEnum(_) => match s {
            ScalarModel::SInt(i) => Option::Some(ValueModel::MEnum(i as i32)),
            _ => Option::None,
        },
    }
}

/// Decode a stored scalar by declared type.
pub fn decode_value(t: &ParameterValueType, s: &DbScalar) -> (r: Option<ParameterValue>)
    ensures
        match r {
            Option::Some(v) => spec_decode(*t, s@) == Option::Some(v@),
            Option::None => spec_decode(*t, s@) is None,
        },
{
    match (t, s) {
        (ParameterValueType::TypeBool, DbScalar::DbInt(i)) => Option::Some(
            ParameterValue::ValBool(*i != 0),
        ),
        (ParameterValueType::TypeI32, DbScalar::DbInt(i)) => Option::Some(
            ParameterValue::ValI32(#[verifier::truncate] (*i as i32)),
        ),
        (ParameterValueType::TypeU32, DbScalar::DbInt(i)) => Option::Some(
            ParameterValue::ValU32(#[verifier::truncate] (*i as u32)),
        ),
        (ParameterValueType::TypeI64, DbScalar::DbInt(i)) => Option::Some(
            ParameterValue::ValI64(*i),
        ),
        (ParameterValueType::TypeU64, DbScalar::DbInt(i)) => Option::Some(
            ParameterValue::ValU64(#[verifier::truncate] (*i as u64)),
        ),
        (ParameterValueType::TypeF32, DbScalar::DbInt(i)) => Option::Some(
            ParameterValue::ValF32(#[verifier::truncate] (*i as u32)),
        ),
        (ParameterValueType::TypeF64, DbScalar::DbInt(i)) => Option::Some(
            ParameterValue::ValF64(#[verifier::truncate] (*i as u64)),
        ),
        (ParameterValueType::TypeString, DbScalar::DbText(t2)) => Option::Some(
            ParameterValue::ValString(t2.clone()),
        ),
        (ParameterValueType::TypeBlob, DbScalar::DbBytes(b)) => Option::Some(
            ParameterValue::ValBlob(crate::schema::clone_bytes(b)),
        ),
        (ParameterValueType::TypeEnum(_), DbScalar::DbInt(i)) => Option::Some(
            ParameterValue::ValEnum(#[verifier::truncate] (*i as i32)),
        ),
        _ => Option::None,
    }
}

/// Whatever is stored for a value of its declared type reads back as that
/// value: decoding inverts encoding on every typed value.
pub proof fn lemma_decode_encode_roundtrip(t: ParameterValueType, v: ValueModel)
    requires
        spec_type_matches(t, v),
        !(t is TypeNone),
    ensures
        spec_decode(t, spec_encode(v)) == Option::Some(v),
{
    match v {
        ValueModel::MU64(x) => {
            assert(((x as i64) as u64) == x) by (bit_vector);
        },
        ValueModel::MF64(bits) => {
            assert(((bits as i64) as u64) == bits) by (bit_vector);
        },
        _ => {},
    }
}

/// The blob bytes registered for `path`: the first entry carrying it, or
/// empty bytes when none does.
pub open spec fn spec_lookup_blob(data: Seq<(String, Vec<u8>)>, path: Seq<char>) -> Seq<u8>
    decreases data.len(),
{
    if data.len() == 0 {
        Seq::empty()
    } else if data[0].0@ == path {
        data[0].1@
    } else {
        spec_lookup_blob(data.skip(1), path)
    }
}

/// Look up the blob bytes registered for `path`.
pub fn lookup_blob(data: &Vec<(String, Vec<u8>)>, path: &String) -> (r: Vec<u8>)
    ensures
        r@ == spec_lookup_blob(data@, path@),
{
    let n: usize = data.len();
    let mut i: usize = 0;
    proof {
        assert(data@.skip(0) =~= data@);
    }
    while i < n
        invariant
            n == data@.len(),
            i <= n,
            spec_lookup_blob(data@, path@) == spec_lookup_blob(data@.skip(i as int), path@),
        decreases n - i,
    {
        proof {
            assert(data@.skip(i as int)[0] == data@[i as int]);
            assert(data@.skip(i as int).skip(1) =~= data@.skip(i as int + 1));
        }
        if data[i].0 == *path {
            return crate::schema::clone_bytes(&data[i].1);
        }
        i = i + 1;
    }
    proof {
        assert(data@.skip(n as int).len() == 0);
    }
    Vec::new()
}

/// The default a read materialises: the declared default, with a path
/// default resolved to the bytes registered for it.
pub open spec fn spec_default_of(p: &Parameter, data: Seq<(String, Vec<u8>)>) -> ValueModel {
    match p.value_default@ {
        ValueModel::MPath(path) => ValueModel::MBlob(spec_lookup_blob(data, path)),
        other => other,
    }
}

/// Materialise the default of `p`, resolving a path default from the
/// registered blob data.
pub fn default_of(p: &Parameter, data: &Vec<(String, Vec<u8>)>) -> (r: ParameterValue)
    ensures
        r@ == spec_default_of(p, data@),
{
    match &p.value_default {
        ParameterValue::ValPath(path) => ParameterValue::ValBlob(lookup_blob(data, path)),
        other => other.duplicate(),
    }
}

/// What a read returns for parameter `p`, given what the store held for
/// its key: the decoded value when the stored class fits the declared
/// type, the materialised default on a missing row or a class mismatch.
pub open spec fn spec_read_value(
    p: &Parameter,
    stored: Option<ScalarModel>,
    data: Seq<(String, Vec<u8>)>,
) -> ValueModel {
    match stored {
        Option::Some(s) => match spec_decode(p.value_type, s) {
            Option::Some(v) => v,
            Option::None => spec_default_of(p, data),
        },
        Option::None => spec_default_of(p, data),
    }
}

/// Decode what the store held for `p`, falling back to the default.
pub fn read_value(p: &Parameter, stored: Option<&DbScalar>, data: &Vec<(String, Vec<u8>)>) -> (r:
    ParameterValue)
    ensures
        r@ == spec_read_value(
            p,
            match stored {
                Option::Some(s) => Option::Some(s@),
                Option::None => Option::None,
            },
            data@,
        ),
{
    match stored {
        Option::Some(s) => match decode_value(&p.value_type, s) {
            Option::Some(v) => v,
            Option::None => default_of(p, data),
        },
        Option::None => default_of(p, data),
    }
}

/// On a fresh store, where no row exists yet, every parameter reads as its
/// materialised default.
pub proof fn lemma_fresh_read_is_default(p: &Parameter, data: Seq<(String, Vec<u8>)>)
    ensures
        spec_read_value(p, Option::None, data) == spec_default_of(p, data),
{
}

} // verus!
