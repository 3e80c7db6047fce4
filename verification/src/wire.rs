//! The change-notification wire message: one record per datagram carrying
//! the changed parameter id as a base-128 varint, in the compact
//! length-prefixed field encoding the schema tooling uses. A zero id is
//! carried by the empty message.

use vstd::prelude::*;

verus! {

/// The tag byte opening the id field: field number one, varint wire type.
pub open spec fn spec_id_field_tag() -> u8 {
    8
}

/// The base-128 little-endian bytes of `n`: seven value bits per byte, the
/// high bit set on every byte but the last.
pub open spec fn spec_varint(n: nat) -> Seq<u8>
    decreases n,
{
    if n < 128 {
        seq![n as u8]
    } else {
        seq![(128 + (n % 128)) as u8] + spec_varint(n / 128)
    }
}

/// The encoded notification for `id`: empty for zero, else the id field's
/// tag byte followed by the varint of the id.
pub open spec fn spec_encode_notification(id: u32) -> Seq<u8> {
    if id == 0 {
        Seq::empty()
    } else {
        seq![spec_id_field_tag()] + spec_varint(id as nat)
    }
}

/// Parse the varint starting at `i`, refusing values over the 32-bit
/// range: the value and the position after it.
pub open spec fn spec_parse_varint32(b: Seq<u8>, i: int) -> Option<(nat, int)>
    decreases b.len() - i,
{
    if i < 0 || i >= b.len() {
        Option::None
    } else if b[i] < 128 {
        Option::Some((b[i] as nat, i + 1))
    } else {
        match spec_parse_varint32(b, i + 1) {
            Option::Some(rest) => {
                let v = (b[i] - 128) as nat + 128 * rest.0;
                if v <= u32::MAX as nat {
                    Option::Some((v, rest.1))
                } else {
                    Option::None
                }
            },
            Option::None => Option::None,
        }
    }
}

/// What a datagram decodes to: the empty message carries id zero; any
/// other well-formed message is the id field's tag followed by exactly the
/// varint of an id in range. Anything else is malformed.
pub open spec fn spec_decode_notification(b: Seq<u8>) -> Option<u32> {
    if b.len() == 0 {
        Option::Some(0)
    } else if b[0] == spec_id_field_tag() {
        match spec_parse_varint32(b, 1) {
            Option::Some(pair) => if pair.1 == b.len() {
                Option::Some(pair.0 as u32)
            } else {
                Option::None
            },
            Option::None => Option::None,
        }
    } else {
        Option::None
    }
}

/// Encode the notification for `id`.
pub fn encode_notification(id: u32) -> (r: Vec<u8>)
    ensures
        r@ == spec_encode_notification(id),
{
    let mut out: Vec<u8> = Vec::new();
    if id == 0 {
        proof {
            assert(out@ =~= spec_encode_notification(id));
        }
        return out;
    }
    out.push(8);
    let mut m: u32 = id;
    while m >= 128
        invariant
            out@.len() >= 1,
            out@[0] == spec_id_field_tag(),
            seq![spec_id_field_tag()] + spec_varint(id as nat) =~= out@ + spec_varint(m as nat),
        decreases m,
    {
        let low: u8 = (m % 128) as u8;
        out.push(128 + low);
        proof {
            assert(spec_varint(m as nat) == seq![(128 + (m as nat % 128)) as u8] + spec_varint(
                m as nat / 128,
            ));
        }
        m = m / 128;
    }
    out.push(m as u8);
    proof {
        assert(spec_varint(m as nat) =~= seq![m as u8]);
        assert(out@ =~= spec_encode_notification(id));
    }
    out
}

proof fn lemma_parse_varint_of_encoding(b: Seq<u8>, i: int, n: nat)
    requires
        0 <= i,
        b.len() == i + spec_varint(n).len(),
        b.subrange(i, b.len() as int) == spec_varint(n),
        n <= u32::MAX as nat,
    ensures
        spec_parse_varint32(b, i) == Option::Some((n, b.len() as int)),
    decreases n,
{
    assert(b[i] == spec_varint(n)[0]);
    if n < 128 {
        assert(spec_varint(n) =~= seq![n as u8]);
    } else {
        assert(spec_varint(n) == seq![(128 + (n % 128)) as u8] + spec_varint(n / 128));
        assert(b.subrange(i + 1, b.len() as int) =~= b.subrange(i, b.len() as int).subrange(
            1,
            b.len() - i,
        ));
        assert(spec_varint(n).subrange(1, spec_varint(n).len() as int) =~= spec_varint(n / 128));
        assert(b.subrange(i + 1, b.len() as int) =~= spec_varint(n / 128));
        lemma_parse_varint_of_encoding(b, i + 1, n / 128);
        assert(b[i] == (128 + (n % 128)) as u8);
        assert((b[i] - 128) as nat == n % 128);
        assert(n % 128 + 128 * (n / 128) == n);
    }
}

/// Every encoded notification decodes back to the id it carries.
pub proof fn lemma_notification_roundtrip(id: u32)
    ensures
        spec_decode_notification(spec_encode_notification(id)) == Option::Some(id),
{
    let b = spec_encode_notification(id);
    if id != 0 {
        assert(b[0] == spec_id_field_tag());
        assert(b.subrange(1, b.len() as int) =~= spec_varint(id as nat));
        lemma_parse_varint_of_encoding(b, 1, id as nat);
    }
}

/// Decode a datagram into the id it carries, `None` for a malformed one.
pub fn decode_notification(buf: &Vec<u8>) -> (r: Option<u32>)
    ensures
        r == spec_decode_notification(buf@),
{
    let n: usize = buf.len();
    if n == 0 {
        return Option::Some(0);
    }
    if buf[0] != 8 {
        return Option::None;
    }
    match parse_varint32(buf, 1) {
        Option::Some((v, end)) => {
            if end == n {
                Option::Some(v)
            } else {
                Option::None
            }
        },
        Option::None => Option::None,
    }
}

/// Parse the varint at `i`, refusing values over the 32-bit range.
fn parse_varint32(buf: &Vec<u8>, i: usize) -> (r: Option<(u32, usize)>)
    ensures
        match r {
            Option::Some(pair) => spec_parse_varint32(buf@, i as int) == Option::Some(
                (pair.0 as nat, pair.1 as int),
            ),
            Option::None => spec_parse_varint32(buf@, i as int) is None,
        },
    decreases buf@.len() - i,
{
    if i >= buf.len() {
        return Option::None;
    }
    let byte = buf[i];
    if byte < 128 {
        return Option::Some((byte as u32, i + 1));
    }
    match parse_varint32(buf, i + 1) {
        Option::Some((rest, end)) => {
            let low: u32 = (byte - 128) as u32;
            if rest <= (u32::MAX - low) / 128 {
                Option::Some((low + 128 * rest, end))
            } else {
                proof {
                    assert(low as nat + 128 * (rest as nat) > u32::MAX as nat) by (nonlinear_arith)
                        requires
                            rest as nat > ((u32::MAX - low) / 128) as nat,
                            low < 128,
                            (u32::MAX as nat - low as nat) / 128 == ((u32::MAX - low)
                                / 128) as nat,
                    ;
                }
                Option::None
            }
        },
        Option::None => Option::None,
    }
}

} // verus!
