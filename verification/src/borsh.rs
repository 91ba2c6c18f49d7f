//! The byte layout of account data and instruction arguments: integers
//! little endian, `bool` as one byte 0 or 1, an option as a tag byte 0 or 1
//! followed by the value, addresses as their 32 bytes.
//!
//! Readers take a position and give the value and the position after it;
//! writers append a value's bytes.
use vstd::prelude::*;
use vstd::bytes::*;
use vstd::slice::slice_subrange;
use crate::pubkey::Pubkey;

verus! {

// ---------------------------------------------------------------- layouts

pub open spec fn enc_u8(x: u8) -> Seq<u8> {
    seq![x]
}

pub open spec fn enc_bool(x: bool) -> Seq<u8> {
    seq![if x { 1u8 } else { 0u8 }]
}

pub open spec fn enc_u32(x: u32) -> Seq<u8> {
    spec_u32_to_le_bytes(x)
}

pub open spec fn enc_u64(x: u64) -> Seq<u8> {
    spec_u64_to_le_bytes(x)
}

pub open spec fn enc_i64(x: i64) -> Seq<u8> {
    spec_u64_to_le_bytes(x as u64)
}

pub open spec fn enc_pubkey(k: Pubkey) -> Seq<u8> {
    k.bytes()
}

pub open spec fn enc_opt_pubkey(o: Option<Pubkey>) -> Seq<u8> {
    match o {
        None => seq![0u8],
        Some(k) => seq![1u8] + k.bytes(),
    }
}

pub open spec fn enc_opt_i64(o: Option<i64>) -> Seq<u8> {
    match o {
        None => seq![0u8],
        Some(x) => seq![1u8] + enc_i64(x),
    }
}

pub proof fn lemma_enc_lens()
    ensures
        forall|x: u32| #[trigger] enc_u32(x).len() == 4,
        forall|x: u64| #[trigger] enc_u64(x).len() == 8,
        forall|x: i64| #[trigger] enc_i64(x).len() == 8,
        forall|k: Pubkey| #[trigger] enc_pubkey(k).len() == 32,
        forall|o: Option<Pubkey>| #[trigger] enc_opt_pubkey(o).len() == if o is Some { 33int } else { 1int },
        forall|o: Option<i64>| #[trigger] enc_opt_i64(o).len() == if o is Some { 9int } else { 1int },
{
    lemma_auto_spec_u32_to_from_le_bytes();
    lemma_auto_spec_u64_to_from_le_bytes();
    assert forall|k: Pubkey| #[trigger] enc_pubkey(k).len() == 32 by {
        k.lemma_bytes_len();
    }
    assert forall|o: Option<Pubkey>| #[trigger] enc_opt_pubkey(o).len() == if o is Some { 33int } else { 1int } by {
        if let Some(k) = o {
            k.lemma_bytes_len();
        }
    }
}

// ---------------------------------------------------------------- reading

pub open spec fn read_u8(d: Seq<u8>, p: int) -> Option<(u8, int)> {
    if 0 <= p && p + 1 <= d.len() {
        Some((d[p], p + 1))
    } else {
        None
    }
}

pub open spec fn read_bool(d: Seq<u8>, p: int) -> Option<(bool, int)> {
    if 0 <= p && p + 1 <= d.len() {
        if d[p] == 0 {
            Some((false, p + 1))
        } else if d[p] == 1 {
            Some((true, p + 1))
        } else {
            None
        }
    } else {
        None
    }
}

pub open spec fn read_u32(d: Seq<u8>, p: int) -> Option<(u32, int)> {
    if 0 <= p && p + 4 <= d.len() {
        Some((spec_u32_from_le_bytes(d.subrange(p, p + 4)), p + 4))
    } else {
        None
    }
}

pub open spec fn read_u64(d: Seq<u8>, p: int) -> Option<(u64, int)> {
    if 0 <= p && p + 8 <= d.len() {
        Some((spec_u64_from_le_bytes(d.subrange(p, p + 8)), p + 8))
    } else {
        None
    }
}

pub open spec fn read_i64(d: Seq<u8>, p: int) -> Option<(i64, int)> {
    if 0 <= p && p + 8 <= d.len() {
        Some((spec_u64_from_le_bytes(d.subrange(p, p + 8)) as i64, p + 8))
    } else {
        None
    }
}

pub open spec fn read_pubkey(d: Seq<u8>, p: int) -> Option<(Pubkey, int)> {
    if 0 <= p && p + 32 <= d.len() {
        Some((Pubkey::spec_from_bytes(d.subrange(p, p + 32)), p + 32))
    } else {
        None
    }
}

pub open spec fn read_opt_pubkey(d: Seq<u8>, p: int) -> Option<(Option<Pubkey>, int)> {
    match read_u8(d, p) {
        Some((t, q)) => if t == 0 {
            Some((None, q))
        } else if t == 1 {
            match read_pubkey(d, q) {
                Some((k, r)) => Some((Some(k), r)),
                None => None,
            }
        } else {
            None
        },
        None => None,
    }
}

pub open spec fn read_opt_i64(d: Seq<u8>, p: int) -> Option<(Option<i64>, int)> {
    match read_u8(d, p) {
        Some((t, q)) => if t == 0 {
            Some((None, q))
        } else if t == 1 {
            match read_i64(d, q) {
                Some((x, r)) => Some((Some(x), r)),
                None => None,
            }
        } else {
            None
        },
        None => None,
    }
}

/// Whether `e` lies in `d` at position `p`.
pub open spec fn lies_at(d: Seq<u8>, p: int, e: Seq<u8>) -> bool {
    0 <= p && p + e.len() <= d.len() && d.subrange(p, p + e.len()) == e
}

pub proof fn lemma_lies_at_split(d: Seq<u8>, p: int, a: Seq<u8>, b: Seq<u8>)
    requires
        lies_at(d, p, a + b),
    ensures
        lies_at(d, p, a),
        lies_at(d, p + a.len(), b),
{
    assert(d.subrange(p, p + a.len()) =~= (a + b).subrange(0, a.len() as int));
    assert((a + b).subrange(0, a.len() as int) =~= a);
    assert(d.subrange(p + a.len(), p + a.len() + b.len()) =~= (a + b).subrange(a.len() as int, (a.len() + b.len()) as int));
    assert((a + b).subrange(a.len() as int, (a.len() + b.len()) as int) =~= b);
}

pub proof fn lemma_read_u8(d: Seq<u8>, p: int, x: u8)
    requires
        lies_at(d, p, enc_u8(x)),
    ensures
        read_u8(d, p) == Some((x, p + 1)),
{
    assert(d[p] == d.subrange(p, p + 1)[0]);
}

pub proof fn lemma_read_bool(d: Seq<u8>, p: int, x: bool)
    requires
        lies_at(d, p, enc_bool(x)),
    ensures
        read_bool(d, p) == Some((x, p + 1)),
{
    assert(d[p] == d.subrange(p, p + 1)[0]);
}

pub proof fn lemma_read_u32(d: Seq<u8>, p: int, x: u32)
    requires
        lies_at(d, p, enc_u32(x)),
    ensures
        read_u32(d, p) == Some((x, p + 4)),
{
    lemma_auto_spec_u32_to_from_le_bytes();
}

pub proof fn lemma_read_u64(d: Seq<u8>, p: int, x: u64)
    requires
        lies_at(d, p, enc_u64(x)),
    ensures
        read_u64(d, p) == Some((x, p + 8)),
{
    lemma_auto_spec_u64_to_from_le_bytes();
}

pub proof fn lemma_read_i64(d: Seq<u8>, p: int, x: i64)
    requires
        lies_at(d, p, enc_i64(x)),
    ensures
        read_i64(d, p) == Some((x, p + 8)),
{
    lemma_auto_spec_u64_to_from_le_bytes();
    assert((x as u64) as i64 == x) by (bit_vector);
}

pub proof fn lemma_read_pubkey(d: Seq<u8>, p: int, k: Pubkey)
    requires
        lies_at(d, p, enc_pubkey(k)),
    ensures
        read_pubkey(d, p) == Some((k, p + 32)),
{
    k.lemma_bytes_len();
    k.lemma_from_bytes(k.bytes());
}

pub proof fn lemma_read_opt_pubkey(d: Seq<u8>, p: int, o: Option<Pubkey>)
    requires
        lies_at(d, p, enc_opt_pubkey(o)),
    ensures
        read_opt_pubkey(d, p) == Some((o, p + enc_opt_pubkey(o).len())),
{
    match o {
        Option::None => {
            assert(enc_opt_pubkey(o) =~= enc_u8(0u8));
            lemma_read_u8(d, p, 0u8);
            assert(enc_opt_pubkey(o).len() == 1);
        },
        Some(k) => {
            lemma_lies_at_split(d, p, seq![1u8], k.bytes());
            lemma_read_u8(d, p, 1u8);
            lemma_read_pubkey(d, p + 1, k);
            k.lemma_bytes_len();
        },
    }
}

pub proof fn lemma_read_opt_i64(d: Seq<u8>, p: int, o: Option<i64>)
    requires
        lies_at(d, p, enc_opt_i64(o)),
    ensures
        read_opt_i64(d, p) == Some((o, p + enc_opt_i64(o).len())),
{
    match o {
        Option::None => {
            assert(enc_opt_i64(o) =~= enc_u8(0u8));
            lemma_read_u8(d, p, 0u8);
            assert(enc_opt_i64(o).len() == 1);
        },
        Some(x) => {
            lemma_lies_at_split(d, p, seq![1u8], enc_i64(x));
            lemma_read_u8(d, p, 1u8);
            lemma_read_i64(d, p + 1, x);
            lemma_enc_lens();
        },
    }
}

/// The value read lies at the position it was read from.
pub proof fn lemma_read_lies_at(d: Seq<u8>, p: int)
    ensures
        read_u8(d, p) matches Some((x, q)) ==> q == p + 1 && lies_at(d, p, enc_u8(x)),
        read_bool(d, p) matches Some((x, q)) ==> q == p + 1 && lies_at(d, p, enc_bool(x)),
        read_u32(d, p) matches Some((x, q)) ==> q == p + 4 && lies_at(d, p, enc_u32(x)),
        read_u64(d, p) matches Some((x, q)) ==> q == p + 8 && lies_at(d, p, enc_u64(x)),
        read_i64(d, p) matches Some((x, q)) ==> q == p + 8 && lies_at(d, p, enc_i64(x)),
        read_pubkey(d, p) matches Some((x, q)) ==> q == p + 32 && lies_at(d, p, enc_pubkey(x)),
{
    lemma_auto_spec_u32_to_from_le_bytes();
    lemma_auto_spec_u64_to_from_le_bytes();
    if 0 <= p && p + 1 <= d.len() {
        assert(d.subrange(p, p + 1) =~= seq![d[p]]);
    }
    if 0 <= p && p + 8 <= d.len() {
        let v = spec_u64_from_le_bytes(d.subrange(p, p + 8));
        assert(((v as i64) as u64) == v) by (bit_vector);
    }
    if 0 <= p && p + 32 <= d.len() {
        let k = Pubkey::spec_from_bytes(d.subrange(p, p + 32));
        k.lemma_from_bytes(d.subrange(p, p + 32));
        k.lemma_bytes_len();
    }
}

// ---------------------------------------------------------------- executable readers

pub fn get_u8(d: &[u8], p: usize) -> (r: Option<(u8, usize)>)
    ensures
        (match r {
            Some((x, q)) => Some((x, q as int)),
            None => None,
        }) == read_u8(d@, p as int),
{
    if p < d.len() {
        Some((d[p], p + 1))
    } else {
        None
    }
}

pub fn get_bool(d: &[u8], p: usize) -> (r: Option<(bool, usize)>)
    ensures
        (match r {
            Some((x, q)) => Some((x, q as int)),
            None => None,
        }) == read_bool(d@, p as int),
{
    if p < d.len() {
        if d[p] == 0 {
            Some((false, p + 1))
        } else if d[p] == 1 {
            Some((true, p + 1))
        } else {
            None
        }
    } else {
        None
    }
}

pub fn get_u32(d: &[u8], p: usize) -> (r: Option<(u32, usize)>)
    ensures
        (match r {
            Some((x, q)) => Some((x, q as int)),
            None => None,
        }) == read_u32(d@, p as int),
{
    if p <= d.len() && d.len() - p >= 4 {
        Some((u32_from_le_bytes(slice_subrange(d, p, p + 4)), p + 4))
    } else {
        None
    }
}

pub fn get_u64(d: &[u8], p: usize) -> (r: Option<(u64, usize)>)
    ensures
        (match r {
            Some((x, q)) => Some((x, q as int)),
            None => None,
        }) == read_u64(d@, p as int),
{
    if p <= d.len() && d.len() - p >= 8 {
        Some((u64_from_le_bytes(slice_subrange(d, p, p + 8)), p + 8))
    } else {
        None
    }
}

pub fn get_i64(d: &[u8], p: usize) -> (r: Option<(i64, usize)>)
    ensures
        (match r {
            Some((x, q)) => Some((x, q as int)),
            None => None,
        }) == read_i64(d@, p as int),
{
    if p <= d.len() && d.len() - p >= 8 {
        Some((u64_from_le_bytes(slice_subrange(d, p, p + 8)) as i64, p + 8))
    } else {
        None
    }
}

pub fn get_pubkey(d: &[u8], p: usize) -> (r: Option<(Pubkey, usize)>)
    ensures
        (match r {
            Some((x, q)) => Some((x, q as int)),
            None => None,
        }) == read_pubkey(d@, p as int),
{
    if p <= d.len() && d.len() - p >= 32 {
        let s = slice_subrange(d, p, p + 32);
        let k = Pubkey::from_slice(s);
        assert(s@.subrange(0, 32) =~= s@);
        Some((k, p + 32))
    } else {
        None
    }
}

pub fn get_opt_pubkey(d: &[u8], p: usize) -> (r: Option<(Option<Pubkey>, usize)>)
    ensures
        (match r {
            Some((x, q)) => Some((x, q as int)),
            None => None,
        }) == read_opt_pubkey(d@, p as int),
{
    match get_u8(d, p) {
        Some((t, q)) => if t == 0 {
            Some((None, q))
        } else if t == 1 {
            match get_pubkey(d, q) {
                Some((k, r)) => Some((Some(k), r)),
                None => None,
            }
        } else {
            None
        },
        None => None,
    }
}

pub fn get_opt_i64(d: &[u8], p: usize) -> (r: Option<(Option<i64>, usize)>)
    ensures
        (match r {
            Some((x, q)) => Some((x, q as int)),
            None => None,
        }) == read_opt_i64(d@, p as int),
{
    match get_u8(d, p) {
        Some((t, q)) => if t == 0 {
            Some((None, q))
        } else if t == 1 {
            match get_i64(d, q) {
                Some((x, r)) => Some((Some(x), r)),
                None => None,
            }
        } else {
            None
        },
        None => None,
    }
}

// ---------------------------------------------------------------- executable writers

pub fn put_u8(out: &mut Vec<u8>, x: u8)
    ensures
        final(out)@ == old(out)@ + enc_u8(x),
{
    out.push(x);
    assert(out@ =~= old(out)@ + enc_u8(x));
}

pub fn put_bool(out: &mut Vec<u8>, x: bool)
    ensures
        final(out)@ == old(out)@ + enc_bool(x),
{
    if x {
        out.push(1u8);
    } else {
        out.push(0u8);
    }
    assert(out@ =~= old(out)@ + enc_bool(x));
}

pub fn put_u32(out: &mut Vec<u8>, x: u32)
    ensures
        final(out)@ == old(out)@ + enc_u32(x),
{
    let mut b = u32_to_le_bytes(x);
    out.append(&mut b);
}

pub fn put_u64(out: &mut Vec<u8>, x: u64)
    ensures
        final(out)@ == old(out)@ + enc_u64(x),
{
    let mut b = u64_to_le_bytes(x);
    out.append(&mut b);
}

pub fn put_i64(out: &mut Vec<u8>, x: i64)
    ensures
        final(out)@ == old(out)@ + enc_i64(x),
{
    let mut b = u64_to_le_bytes(x as u64);
    out.append(&mut b);
}

pub fn put_pubkey(out: &mut Vec<u8>, k: &Pubkey)
    ensures
        final(out)@ == old(out)@ + enc_pubkey(*k),
{
    let mut b = k.to_bytes();
    out.append(&mut b);
}

pub fn put_opt_pubkey(out: &mut Vec<u8>, o: &Option<Pubkey>)
    ensures
        final(out)@ == old(out)@ + enc_opt_pubkey(*o),
{
    match o {
        None => put_u8(out, 0),
        Some(k) => {
            put_u8(out, 1);
            put_pubkey(out, k);
            assert(out@ =~= old(out)@ + enc_opt_pubkey(*o));
        },
    }
}

pub fn put_opt_i64(out: &mut Vec<u8>, o: &Option<i64>)
    ensures
        final(out)@ == old(out)@ + enc_opt_i64(*o),
{
    match o {
        None => put_u8(out, 0),
        Some(x) => {
            put_u8(out, 1);
            put_i64(out, *x);
            assert(out@ =~= old(out)@ + enc_opt_i64(*o));
        },
    }
}

} // verus!
