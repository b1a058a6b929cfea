//! Decoding and encoding of the root-window properties the engine lives on.
//!
//! The active-desktop index arrives as a 32-bit little-endian integer, the
//! desktop names as a list of NUL-terminated byte strings in index order, and
//! the background-pixmap identifier is published as a 32-bit little-endian
//! value.  Everything here works on plain bytes; reading and writing the
//! properties themselves is the caller's business.

use vstd::prelude::*;

verus! {

/// The little-endian four-byte encoding of a 32-bit value.
pub open spec fn le32_bytes(x: u32) -> Seq<u8> {
    seq![
        (x % 256) as u8,
        ((x / 256) % 256) as u8,
        ((x / 65536) % 256) as u8,
        ((x / 16777216) % 256) as u8,
    ]
}

/// The 32-bit value that four little-endian bytes encode.
pub open spec fn le32_value(s: Seq<u8>) -> u32
    recommends
        s.len() == 4,
{
    (s[0] + s[1] * 256 + s[2] * 65536 + s[3] * 16777216) as u32
}

/// Encode a 32-bit value as its four little-endian bytes, the payload format
/// of the background-pixmap-identifier properties.
pub fn le32_of(x: u32) -> (r: Vec<u8>)
    ensures
        r@ == le32_bytes(x),
        r@.len() == 4,
{
    let mut v: Vec<u8> = Vec::new();
    v.push((x % 256) as u8);
    v.push(((x / 256) % 256) as u8);
    v.push(((x / 65536) % 256) as u8);
    v.push(((x / 16777216) % 256) as u8);
    proof {
        assert(v@ =~= le32_bytes(x));
    }
    v
}

/// Round trip: decoding the little-endian encoding gives the value back.
pub proof fn lemma_le32_round_trip(x: u32)
    ensures
        le32_value(le32_bytes(x)) == x,
{
    assert(x % 256 + (x / 256) % 256 * 256 + (x / 65536) % 256 * 65536 + (x / 16777216) % 256
        * 16777216 == x) by (bit_vector);
}

/// Read the active-desktop index property: meaningful exactly when it is four
/// bytes long, in which case it holds the index as a 32-bit little-endian
/// value.  Any other length is malformed and yields nothing.
pub fn parse_index(bytes: &Vec<u8>) -> (r: Option<u32>)
    ensures
        r == (if bytes@.len() == 4 {
            Some(le32_value(bytes@))
        } else {
            None::<u32>
        }),
{
    if bytes.len() == 4 {
        let b0 = bytes[0] as u32;
        let b1 = bytes[1] as u32;
        let b2 = bytes[2] as u32;
        let b3 = bytes[3] as u32;
        Some(b0 + b1 * 256 + b2 * 65536 + b3 * 16777216)
    } else {
        None
    }
}

/// The desktop names encoded by `s`, with `cur` the (possibly empty) segment
/// already read: a NUL byte ends the current segment, and a final segment
/// left unterminated still counts if it is nonempty.
pub open spec fn split_from(s: Seq<u8>, cur: Seq<u8>) -> Seq<Seq<u8>>
    decreases s.len(),
{
    if s.len() == 0 {
        if cur.len() == 0 {
            Seq::empty()
        } else {
            seq![cur]
        }
    } else if s[0] == 0 {
        seq![cur] + split_from(s.skip(1), Seq::empty())
    } else {
        split_from(s.skip(1), cur.push(s[0]))
    }
}

/// The desktop names held by a names property: the NUL-separated segments of
/// `s`, in order.
pub open spec fn split_names_spec(s: Seq<u8>) -> Seq<Seq<u8>> {
    split_from(s, Seq::empty())
}

/// Split a names property into the desktop names it lists, in index order.
pub fn split_names(bytes: &Vec<u8>) -> (r: Vec<Vec<u8>>)
    ensures
        r.deep_view() == split_names_spec(bytes@),
{
    let mut result: Vec<Vec<u8>> = Vec::new();
    let mut cur: Vec<u8> = Vec::new();
    let mut i: usize = 0;
    proof {
        assert(bytes@.skip(0) =~= bytes@);
        assert(result.deep_view() =~= Seq::<Seq<u8>>::empty());
        assert(Seq::<Seq<u8>>::empty() + split_from(bytes@, Seq::empty()) =~= split_from(
            bytes@,
            Seq::empty(),
        ));
    }
    while i < bytes.len()
        invariant
            i <= bytes@.len(),
            split_names_spec(bytes@) == result.deep_view() + split_from(
                bytes@.skip(i as int),
                cur@,
            ),
        decreases bytes@.len() - i,
    {
        proof {
            assert(bytes@.skip(i as int)[0] == bytes@[i as int]);
            assert(bytes@.skip(i as int).skip(1) =~= bytes@.skip(i as int + 1));
        }
        let ghost prev = result.deep_view();
        let ghost curv = cur@;
        let ghost curdv = cur.deep_view();
        if bytes[i] == 0 {
            result.push(cur);
            cur = Vec::new();
            proof {
                assert(curdv =~= curv);
                assert(result.deep_view() =~= prev.push(curv));
                assert(prev + (seq![curv] + split_from(bytes@.skip(i as int + 1), Seq::empty()))
                    =~= result.deep_view() + split_from(bytes@.skip(i as int + 1), Seq::empty()));
            }
        } else {
            let b: u8 = bytes[i];
            cur.push(b);
        }
        i += 1;
    }
    proof {
        assert(bytes@.skip(bytes@.len() as int) =~= Seq::<u8>::empty());
    }
    if cur.len() > 0 {
        let ghost prev = result.deep_view();
        let ghost curv = cur@;
        let ghost curdv = cur.deep_view();
        result.push(cur);
        proof {
            assert(curdv =~= curv);
            assert(result.deep_view() =~= prev.push(curv));
            assert(prev + seq![curv] =~= prev.push(curv));
        }
    } else {
        proof {
            assert(result.deep_view() + Seq::<Seq<u8>>::empty() =~= result.deep_view());
        }
    }
    result
}

/// The name of the active desktop, as decided by the two properties together:
/// the index property must be exactly four bytes, and the index it encodes
/// must fall inside the names list; otherwise there is no active name and a
/// resolution attempt yields nothing.
pub open spec fn active_name(index_bytes: Seq<u8>, names_bytes: Seq<u8>) -> Option<Seq<u8>> {
    if index_bytes.len() == 4 {
        let names = split_names_spec(names_bytes);
        if le32_value(index_bytes) < names.len() {
            Some(names[le32_value(index_bytes) as int])
        } else {
            None
        }
    } else {
        None
    }
}

/// Look up the active desktop's name from the raw index and names properties.
pub fn lookup_active_name(index_bytes: &Vec<u8>, names_bytes: &Vec<u8>) -> (r: Option<Vec<u8>>)
    ensures
        r.deep_view() == active_name(index_bytes@, names_bytes@),
{
    let idx: u32 = match parse_index(index_bytes) {
        Some(i) => i,
        None => {
            return None;
        },
    };
    let mut names = split_names(names_bytes);
    if (idx as u64) < (names.len() as u64) {
        let name = names.remove(idx as usize);
        Some(name)
    } else {
        None
    }
}

} // verus!
