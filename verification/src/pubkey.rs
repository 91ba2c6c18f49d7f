//! Account addresses as plain values, and program derived addresses.
use vstd::prelude::*;
use vstd::bytes::*;
use vstd::slice::*;

verus! {

/// A 32-byte account address, held as four little-endian 64-bit words so
/// that equality of addresses is equality of plain values.
#[derive(Clone, Copy, Debug, PartialEq, Eq, Structural)]
pub struct Pubkey {
    pub w0: u64,
    pub w1: u64,
    pub w2: u64,
    pub w3: u64,
}

impl Default for Pubkey {
    /// The all-zero address.
    fn default() -> (k: Pubkey)
        ensures
            k == (Pubkey { w0: 0, w1: 0, w2: 0, w3: 0 }),
    {
        Pubkey { w0: 0, w1: 0, w2: 0, w3: 0 }
    }
}

impl Pubkey {
    /// The 32 bytes of the address.
    pub open spec fn bytes(self) -> Seq<u8> {
        spec_u64_to_le_bytes(self.w0) + spec_u64_to_le_bytes(self.w1) + spec_u64_to_le_bytes(
            self.w2,
        ) + spec_u64_to_le_bytes(self.w3)
    }

    /// An address has 32 bytes.
    pub proof fn lemma_bytes_len(self)
        ensures
            self.bytes().len() == 32,
    {
        lemma_auto_spec_u64_to_from_le_bytes();
    }

    /// Distinct addresses have distinct bytes.
    pub proof fn lemma_bytes_injective(self, other: Pubkey)
        ensures
            self.bytes() == other.bytes() ==> self == other,
    {
        lemma_auto_spec_u64_to_from_le_bytes();
        if self.bytes() == other.bytes() {
            assert(self.bytes().subrange(0, 8) =~= spec_u64_to_le_bytes(self.w0));
            assert(other.bytes().subrange(0, 8) =~= spec_u64_to_le_bytes(other.w0));
            assert(self.bytes().subrange(8, 16) =~= spec_u64_to_le_bytes(self.w1));
            assert(other.bytes().subrange(8, 16) =~= spec_u64_to_le_bytes(other.w1));
            assert(self.bytes().subrange(16, 24) =~= spec_u64_to_le_bytes(self.w2));
            assert(other.bytes().subrange(16, 24) =~= spec_u64_to_le_bytes(other.w2));
            assert(self.bytes().subrange(24, 32) =~= spec_u64_to_le_bytes(self.w3));
            assert(other.bytes().subrange(24, 32) =~= spec_u64_to_le_bytes(other.w3));
        }
    }

    /// The address with the given 32 bytes.
    pub open spec fn spec_from_bytes(s: Seq<u8>) -> Pubkey {
        Pubkey {
            w0: spec_u64_from_le_bytes(s.subrange(0, 8)),
            w1: spec_u64_from_le_bytes(s.subrange(8, 16)),
            w2: spec_u64_from_le_bytes(s.subrange(16, 24)),
            w3: spec_u64_from_le_bytes(s.subrange(24, 32)),
        }
    }

    /// Bytes and addresses correspond one to one.
    pub proof fn lemma_from_bytes(self, s: Seq<u8>)
        ensures
            Pubkey::spec_from_bytes(self.bytes()) == self,
            s.len() == 32 ==> Pubkey::spec_from_bytes(s).bytes() == s,
    {
        lemma_auto_spec_u64_to_from_le_bytes();
        assert(self.bytes().subrange(0, 8) =~= spec_u64_to_le_bytes(self.w0));
        assert(self.bytes().subrange(8, 16) =~= spec_u64_to_le_bytes(self.w1));
        assert(self.bytes().subrange(16, 24) =~= spec_u64_to_le_bytes(self.w2));
        assert(self.bytes().subrange(24, 32) =~= spec_u64_to_le_bytes(self.w3));
        if s.len() == 32 {
            assert(Pubkey::spec_from_bytes(s).bytes() =~= s);
        }
    }

    /// The address whose bytes are the first 32 bytes of `s`.
    pub fn from_slice(s: &[u8]) -> (k: Pubkey)
        requires
            s@.len() >= 32,
        ensures
            k.bytes() == s@.subrange(0, 32),
            k == Pubkey::spec_from_bytes(s@.subrange(0, 32)),
    {
        let k = Pubkey {
            w0: u64_from_le_bytes(slice_subrange(s, 0, 8)),
            w1: u64_from_le_bytes(slice_subrange(s, 8, 16)),
            w2: u64_from_le_bytes(slice_subrange(s, 16, 24)),
            w3: u64_from_le_bytes(slice_subrange(s, 24, 32)),
        };
        proof {
            lemma_auto_spec_u64_to_from_le_bytes();
            assert(k.bytes() =~= s@.subrange(0, 32));
            assert(s@.subrange(0, 32).subrange(0, 8) =~= s@.subrange(0, 8));
            assert(s@.subrange(0, 32).subrange(8, 16) =~= s@.subrange(8, 16));
            assert(s@.subrange(0, 32).subrange(16, 24) =~= s@.subrange(16, 24));
            assert(s@.subrange(0, 32).subrange(24, 32) =~= s@.subrange(24, 32));
        }
        k
    }

    /// The address with the given bytes.
    pub fn new_from_array(a: [u8; 32]) -> (k: Pubkey)
        ensures
            k.bytes() == a@,
    {
        let k = Pubkey::from_slice(vstd::array::array_as_slice(&a));
        assert(a@.subrange(0, 32) =~= a@);
        k
    }

    /// The bytes of the address.
    pub fn to_bytes(&self) -> (v: Vec<u8>)
        ensures
            v@ == self.bytes(),
    {
        let mut v = u64_to_le_bytes(self.w0);
        let mut b1 = u64_to_le_bytes(self.w1);
        let mut b2 = u64_to_le_bytes(self.w2);
        let mut b3 = u64_to_le_bytes(self.w3);
        v.append(&mut b1);
        v.append(&mut b2);
        v.append(&mut b3);
        v
    }

    /// Same as the `==` of addresses.
    pub fn equals(&self, other: &Pubkey) -> (b: bool)
        ensures
            b == (*self == *other),
    {
        self.w0 == other.w0 && self.w1 == other.w1 && self.w2 == other.w2 && self.w3 == other.w3
    }
}


/// Name for the address that `Pubkey::create_program_address` of
/// solana-program derives from `seeds` and a program id: the SHA-256 of the
/// seeds, the program id and a marker, or none when that hash lies on the
/// ed25519 curve or the seeds are too many or too long.
pub uninterp spec fn spec_create_program_address(seeds: Seq<Seq<u8>>, program_id: Seq<u8>) -> Option<Seq<u8>>;

/// Name for what `Pubkey::try_find_program_address` of solana-program
/// returns: the address and bump seed found by searching bump seeds from 255
/// downwards, or none when no bump seed gives an address off the curve.
pub uninterp spec fn spec_find_program_address(seeds: Seq<Seq<u8>>, program_id: Seq<u8>) -> Option<(Seq<u8>, u8)>;

/// Name for what `Pubkey::from_str` of solana-program returns on a string:
/// the base-58 decoding of a 32-byte address, or none.
pub uninterp spec fn spec_parse_pubkey(s: Seq<char>) -> Option<Seq<u8>>;

/// Calls `solana_program::pubkey::Pubkey::create_program_address`.
/// Trusted: the result is the named derivation of the seeds and the program
/// id; the source returns an error when there are more than 16 seeds or a
/// seed longer than 32 bytes, and a derived address is 32 bytes long.
#[verifier::external_body]
fn create_program_address_raw(seeds: &Vec<Vec<u8>>, program_id: &Vec<u8>) -> (r: Option<Vec<u8>>)
    requires
        program_id@.len() == 32,
    ensures
        (match r {
            Some(k) => Some(k@),
            None => None::<Seq<u8>>,
        }) == spec_create_program_address(seeds.deep_view(), program_id@),
        r matches Some(k) ==> k@.len() == 32,
{
    let s: Vec<&[u8]> = seeds.iter().map(|x| x.as_slice()).collect();
    let pid = solana_program::pubkey::Pubkey::try_from(program_id.as_slice()).unwrap();
    solana_program::pubkey::Pubkey::create_program_address(&s, &pid).ok().map(|k| k.to_bytes().to_vec())
}

/// Calls `solana_program::pubkey::Pubkey::try_find_program_address`.
/// Trusted: the result is the named search over bump seeds; a found address
/// is 32 bytes long.
#[verifier::external_body]
fn find_program_address_raw(seeds: &Vec<Vec<u8>>, program_id: &Vec<u8>) -> (r: Option<(Vec<u8>, u8)>)
    requires
        program_id@.len() == 32,
    ensures
        (match r {
            Some((k, b)) => Some((k@, b)),
            None => None::<(Seq<u8>, u8)>,
        }) == spec_find_program_address(seeds.deep_view(), program_id@),
        r matches Some((k, b)) ==> k@.len() == 32,
{
    let s: Vec<&[u8]> = seeds.iter().map(|x| x.as_slice()).collect();
    let pid = solana_program::pubkey::Pubkey::try_from(program_id.as_slice()).unwrap();
    solana_program::pubkey::Pubkey::try_find_program_address(&s, &pid).map(|(k, b)| (k.to_bytes().to_vec(), b))
}

/// Calls `<solana_program::pubkey::Pubkey as FromStr>::from_str`.
/// Trusted: the result is the named decoding of the string; a decoded
/// address is 32 bytes long.
#[verifier::external_body]
fn parse_pubkey_raw(s: &str) -> (r: Option<Vec<u8>>)
    ensures
        (match r {
            Some(k) => Some(k@),
            None => None::<Seq<u8>>,
        }) == spec_parse_pubkey(s@),
        r matches Some(k) ==> k@.len() == 32,
{
    s.parse::<solana_program::pubkey::Pubkey>().ok().map(|k| k.to_bytes().to_vec())
}

/// The address derived from `seeds` for `program_id`, or `None` when the
/// seeds give no valid program address.
pub fn create_program_address(seeds: &Vec<Vec<u8>>, program_id: &Pubkey) -> (r: Option<Pubkey>)
    ensures
        (match r {
            Some(k) => Some(k.bytes()),
            None => None::<Seq<u8>>,
        }) == spec_create_program_address(seeds.deep_view(), program_id.bytes()),
{
    proof { program_id.lemma_bytes_len(); }
    match create_program_address_raw(seeds, &program_id.to_bytes()) {
        Some(k) => {
            let key = Pubkey::from_slice(k.as_slice());
            assert(k@.subrange(0, 32) =~= k@);
            Some(key)
        },
        None => None,
    }
}

/// The canonical program address for `seeds` and its bump seed, or `None`
/// when no bump seed gives a valid program address.
pub fn find_program_address(seeds: &Vec<Vec<u8>>, program_id: &Pubkey) -> (r: Option<(Pubkey, u8)>)
    ensures
        (match r {
            Some((k, b)) => Some((k.bytes(), b)),
            None => None::<(Seq<u8>, u8)>,
        }) == spec_find_program_address(seeds.deep_view(), program_id.bytes()),
{
    proof { program_id.lemma_bytes_len(); }
    match find_program_address_raw(seeds, &program_id.to_bytes()) {
        Some((k, b)) => {
            let key = Pubkey::from_slice(k.as_slice());
            assert(k@.subrange(0, 32) =~= k@);
            Some((key, b))
        },
        None => None,
    }
}

/// The address written in base 58 in `s`, or `None` when `s` is not one.
pub fn parse_pubkey(s: &str) -> (r: Option<Pubkey>)
    ensures
        (match r {
            Some(k) => Some(k.bytes()),
            None => None::<Seq<u8>>,
        }) == spec_parse_pubkey(s@),
{
    match parse_pubkey_raw(s) {
        Some(k) => {
            let key = Pubkey::from_slice(k.as_slice());
            assert(k@.subrange(0, 32) =~= k@);
            Some(key)
        },
        None => None,
    }
}

} // verus!
