//! The canonical spellings of a parameter's name in generated artefacts:
//! the upper-case enumerator, the function suffix, and the short field
//! name.

use vstd::prelude::*;
use vstd::string::StrSliceExecFns;
use vstd::string::StringExecFns;

use crate::text::string_push;
use crate::value::ParameterValueType;

verus! {

/// A character mapped to upper case if it is an ASCII small letter.
pub open spec fn upper_char(c: char) -> char {
    if 97 <= c as int <= 122 {
        (c as int - 32) as char
    } else {
        c
    }
}

/// The enumerator spelling of a canonical name: every letter upper-cased
/// and the `'@'` separator replaced by an underscore.
pub open spec fn spec_enum_name(s: Seq<char>) -> Seq<char> {
    s.map_values(
        |c: char|
            if c == '@' {
                '_'
            } else {
                upper_char(c)
            },
    )
}

/// Spell a canonical `"<group>@<field>"` name as its generated enumerator.
pub fn get_parameter_name_for_enum(name_id: &String) -> (r: String)
    ensures
        r@ == spec_enum_name(name_id@),
{
    let st = name_id.as_str();
    let n = st.unicode_len();
    let mut out = String::new();
    let mut i: usize = 0;
    while i < n
        invariant
            st@ == name_id@,
            n == st@.len(),
            i <= n,
            out@ =~= spec_enum_name(st@).take(i as int),
        decreases n - i,
    {
        let c = st.get_char(i);
        let code: u32 = c as u32;
        let mapped: char = if code == 64 {
            '_'
        } else if 97 <= code && code <= 122 {
            proof {
                vstd::utf8::char_u32_cast(c, code);
            }
            ((code - 32) as u8) as char
        } else {
            c
        };
        string_push(&mut out, mapped);
        i = i + 1;
        proof {
            assert(out@ =~= spec_enum_name(st@).take(i as int));
        }
    }
    proof {
        assert(spec_enum_name(st@).take(n as int) =~= spec_enum_name(name_id@));
    }
    out
}

/// The function-suffix spelling of a canonical name: the `'@'` separator
/// replaced by an underscore.
pub open spec fn spec_function_name(s: Seq<char>) -> Seq<char> {
    s.map_values(
        |c: char|
            if c == '@' {
                '_'
            } else {
                c
            },
    )
}

/// Spell a canonical name as the suffix of its generated accessors.
pub fn get_parameter_name_for_function(name_id: &String) -> (r: String)
    ensures
        r@ == spec_function_name(name_id@),
{
    let st = name_id.as_str();
    let n = st.unicode_len();
    let mut out = String::new();
    let mut i: usize = 0;
    while i < n
        invariant
            st@ == name_id@,
            n == st@.len(),
            i <= n,
            out@ =~= spec_function_name(st@).take(i as int),
        decreases n - i,
    {
        let c = st.get_char(i);
        let mapped: char = if (c as u32) == 64 {
            '_'
        } else {
            c
        };
        string_push(&mut out, mapped);
        i = i + 1;
        proof {
            assert(out@ =~= spec_function_name(st@).take(i as int));
        }
    }
    proof {
        assert(spec_function_name(st@).take(n as int) =~= spec_function_name(name_id@));
    }
    out
}

/// Spell a canonical name as its short field name: what follows the
/// first `'@'`, or the whole name when none occurs.
pub fn get_parameter_name_short(name_id: &String) -> (r: String)
    ensures
        exists|k: int|
            #![trigger name_id@.skip(k)]
            {
                &&& 0 <= k <= name_id@.len()
                &&& (k == 0 || name_id@[k - 1] == '@')
                &&& (forall|j: int| 0 <= j < k - 1 ==> #[trigger] name_id@[j] != '@')
                &&& (k == 0 ==> forall|j: int| 0 <= j < name_id@.len() ==> #[trigger] name_id@[j]
                    != '@')
                &&& r@ == name_id@.skip(k)
            },
{
    let st = name_id.as_str();
    let n = st.unicode_len();
    let mut i: usize = 0;
    while i < n
        invariant
            st@ == name_id@,
            n == st@.len(),
            i <= n,
            forall|j: int| 0 <= j < i ==> #[trigger] st@[j] != '@',
        decreases n - i,
    {
        if st.get_char(i) == '@' {
            let rest = st.substring_char(i + 1, n);
            let owned = rest.to_owned();
            proof {
                assert(owned@ =~= name_id@.skip(i + 1));
            }
            return owned;
        }
        i = i + 1;
    }
    let owned = name_id.clone();
    proof {
        assert(owned@ =~= name_id@.skip(0));
    }
    owned
}

/// The source spelling of a declared type in generated tables.
pub fn format_anyvalue_type(v: &ParameterValueType) -> (r: String)
    ensures
        match v {
            ParameterValueType::TypeNone => r@ == "ParameterValueType::TypeNone"@,
            ParameterValueType::TypeBool => r@ == "ParameterValueType::TypeBool"@,
            ParameterValueType::TypeI32 => r@ == "ParameterValueType::TypeI32"@,
            ParameterValueType::TypeU32 => r@ == "ParameterValueType::TypeU32"@,
            ParameterValueType::TypeI64 => r@ == "ParameterValueType::TypeI64"@,
            ParameterValueType::TypeU64 => r@ == "ParameterValueType::TypeU64"@,
            ParameterValueType::TypeF32 => r@ == "ParameterValueType::TypeF32"@,
            ParameterValueType::TypeF64 => r@ == "ParameterValueType::TypeF64"@,
            ParameterValueType::TypeString => r@ == "ParameterValueType::TypeString"@,
            ParameterValueType::TypeBlob => r@ == "ParameterValueType::TypeBlob"@,
            ParameterValueType::TypeEnum(name) => r@ == "ParameterValueType::TypeEnum(\""@
                + name@ + "\")"@,
        },
{
    match v {
        ParameterValueType::TypeNone => String::from_str("ParameterValueType::TypeNone"),
        ParameterValueType::TypeBool => String::from_str("ParameterValueType::TypeBool"),
        ParameterValueType::TypeI32 => String::from_str("ParameterValueType::TypeI32"),
        ParameterValueType::TypeU32 => String::from_str("ParameterValueType::TypeU32"),
        ParameterValueType::TypeI64 => String::from_str("ParameterValueType::TypeI64"),
        ParameterValueType::TypeU64 => String::from_str("ParameterValueType::TypeU64"),
        ParameterValueType::TypeF32 => String::from_str("ParameterValueType::TypeF32"),
        ParameterValueType::TypeF64 => String::from_str("ParameterValueType::TypeF64"),
        ParameterValueType::TypeString => String::from_str("ParameterValueType::TypeString"),
        ParameterValueType::TypeBlob => String::from_str("ParameterValueType::TypeBlob"),
        ParameterValueType::TypeEnum(name) => {
            let mut out = String::from_str("ParameterValueType::TypeEnum(\"");
            out.append(name.as_str());
            out.append("\")");
            out
        },
    }
}

} // verus!
