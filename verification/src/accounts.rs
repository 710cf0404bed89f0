//! Plain-value models of the on-chain accounts that the programs read:
//! public keys, token mints and token accounts, and the byte strings that
//! make up program-derived-address signer seeds.

use vstd::prelude::*;

verus! {

/// A 32-byte account address.
#[derive(Clone, Copy)]
pub struct Pubkey {
    pub bytes: [u8; 32],
}

impl View for Pubkey {
    type V = Seq<u8>;

    open spec fn view(&self) -> Seq<u8> {
        self.bytes@
    }
}

impl Pubkey {
    /// Compares two addresses byte by byte.
    pub fn same_key(&self, other: &Pubkey) -> (r: bool)
        ensures
            r == (*self == *other),
    {
        let mut i: usize = 0;
        while i < 32
            invariant
                0 <= i <= 32,
                forall|j: int| 0 <= j < i ==> self.bytes@[j] == other.bytes@[j],
            decreases 32 - i,
        {
            if self.bytes[i] != other.bytes[i] {
                assert(self.bytes@[i as int] != other.bytes@[i as int]);
                return false;
            }
            i = i + 1;
        }
        assert(self.bytes@ =~= other.bytes@);
        assert(self.bytes == other.bytes);
        true
    }

    /// The address as a signer-seed component (its 32 bytes).
    pub fn seed(&self) -> (r: Vec<u8>)
        ensures
            r@ == self@,
    {
        let mut out: Vec<u8> = Vec::new();
        let mut i: usize = 0;
        while i < 32
            invariant
                0 <= i <= 32,
                out@ =~= self.bytes@.take(i as int),
            decreases 32 - i,
        {
            out.push(self.bytes[i]);
            i = i + 1;
        }
        assert(self.bytes@.take(32) =~= self.bytes@);
        out
    }
}

/// What the programs read of a token mint.
#[derive(Clone, Copy)]
pub struct Mint {
    pub key: Pubkey,
    pub decimals: u8,
    pub supply: u64,
}

/// What the programs read of a token account.
#[derive(Clone, Copy)]
pub struct TokenAccount {
    pub key: Pubkey,
    pub amount: u64,
}

/// The collection entry of an NFT's metadata account.
#[derive(Clone, Copy)]
pub struct MetadataCollection {
    pub key: Pubkey,
    pub verified: bool,
}

/// The first `n` bytes of `v` in little-endian order.
pub open spec fn le_bytes(v: nat, n: nat) -> Seq<u8>
    decreases n,
{
    if n == 0 {
        Seq::empty()
    } else {
        seq![(v % 256) as u8] + le_bytes(v / 256, (n - 1) as nat)
    }
}

/// `u64::to_le_bytes`.
pub open spec fn u64_le_bytes(v: u64) -> Seq<u8> {
    le_bytes(v as nat, 8)
}

/// `u64::to_be_bytes`.
pub open spec fn u64_be_bytes(v: u64) -> Seq<u8> {
    u64_le_bytes(v).reverse()
}

/// The byte contents of a list of signer-seed components.
pub open spec fn seeds_view(s: Seq<Vec<u8>>) -> Seq<Seq<u8>> {
    s.map_values(|v: Vec<u8>| v@)
}

/// The eight little-endian bytes of `v` as a seed component.
pub fn u64_le_seed(v: u64) -> (r: Vec<u8>)
    ensures
        r@ == u64_le_bytes(v),
{
    let mut out: Vec<u8> = Vec::new();
    let mut cur: u64 = v;
    let mut i: u64 = 0;
    while i < 8
        invariant
            0 <= i <= 8,
            out@ + le_bytes(cur as nat, (8 - i) as nat) == le_bytes(v as nat, 8),
        decreases 8 - i,
    {
        let ghost before = out@;
        let byte: u8 = (cur % 256) as u8;
        out.push(byte);
        proof {
            let rest = le_bytes((cur / 256) as nat, (8 - i - 1) as nat);
            assert(le_bytes(cur as nat, (8 - i) as nat) == seq![byte] + rest);
            assert(before + (seq![byte] + rest) =~= before.push(byte) + rest);
        }
        cur = cur / 256;
        i = i + 1;
    }
    assert(le_bytes(cur as nat, 0) =~= Seq::<u8>::empty());
    assert(out@ + Seq::<u8>::empty() =~= out@);
    out
}

/// The eight big-endian bytes of `v` as a seed component.
pub fn u64_be_seed(v: u64) -> (r: Vec<u8>)
    ensures
        r@ == u64_be_bytes(v),
{
    let le = u64_le_seed(v);
    proof {
        reveal_with_fuel(le_bytes, 9);
    }
    assert(le@.len() == 8);
    let mut out: Vec<u8> = Vec::new();
    let mut j: usize = 8;
    while j > 0
        invariant
            0 <= j <= 8,
            le@.len() == 8,
            out@ =~= Seq::new((8 - j) as nat, |k: int| le@[7 - k]),
        decreases j,
    {
        j = j - 1;
        out.push(le[j]);
    }
    assert(out@ =~= le@.reverse());
    out
}

/// A one-byte seed component (a bump).
pub fn byte_seed(b: u8) -> (r: Vec<u8>)
    ensures
        r@ == seq![b],
{
    let mut out: Vec<u8> = Vec::new();
    out.push(b);
    assert(out@ =~= seq![b]);
    out
}


/// The bytes of the seed tag `b"config"`.
pub open spec fn tag_config() -> Seq<u8> {
    seq![99u8, 111u8, 110u8, 102u8, 105u8, 103u8]
}

/// The seed tag `b"config"` as a seed component.
pub fn tag_config_seed() -> (r: Vec<u8>)
    ensures
        r@ == tag_config(),
{
    let r: Vec<u8> = vec![99u8, 111u8, 110u8, 102u8, 105u8, 103u8];
    assert(r@ =~= tag_config());
    r
}

/// The bytes of the seed tag `b"escrow"`.
pub open spec fn tag_escrow() -> Seq<u8> {
    seq![101u8, 115u8, 99u8, 114u8, 111u8, 119u8]
}

/// The seed tag `b"escrow"` as a seed component.
pub fn tag_escrow_seed() -> (r: Vec<u8>)
    ensures
        r@ == tag_escrow(),
{
    let r: Vec<u8> = vec![101u8, 115u8, 99u8, 114u8, 111u8, 119u8];
    assert(r@ =~= tag_escrow());
    r
}

/// The bytes of the seed tag `b"listing"`.
pub open spec fn tag_listing() -> Seq<u8> {
    seq![108u8, 105u8, 115u8, 116u8, 105u8, 110u8, 103u8]
}

/// The seed tag `b"listing"` as a seed component.
pub fn tag_listing_seed() -> (r: Vec<u8>)
    ensures
        r@ == tag_listing(),
{
    let r: Vec<u8> = vec![108u8, 105u8, 115u8, 116u8, 105u8, 110u8, 103u8];
    assert(r@ =~= tag_listing());
    r
}

/// The bytes of the seed tag `b"stake_account"`.
pub open spec fn tag_stake_account() -> Seq<u8> {
    seq![115u8, 116u8, 97u8, 107u8, 101u8, 95u8, 97u8, 99u8, 99u8, 111u8, 117u8, 110u8, 116u8]
}

/// The seed tag `b"stake_account"` as a seed component.
pub fn tag_stake_account_seed() -> (r: Vec<u8>)
    ensures
        r@ == tag_stake_account(),
{
    let r: Vec<u8> = vec![115u8, 116u8, 97u8, 107u8, 101u8, 95u8, 97u8, 99u8, 99u8, 111u8, 117u8, 110u8, 116u8];
    assert(r@ =~= tag_stake_account());
    r
}

/// The number that a little-endian byte string denotes.
pub open spec fn le_value(s: Seq<u8>) -> nat
    decreases s.len(),
{
    if s.len() == 0 {
        0
    } else {
        s[0] as nat + 256 * le_value(s.drop_first())
    }
}

/// The number that a big-endian byte string denotes.
pub open spec fn be_value(s: Seq<u8>) -> nat
    decreases s.len(),
{
    if s.len() == 0 {
        0
    } else {
        be_value(s.drop_last()) * 256 + s.last() as nat
    }
}

proof fn lemma_le_bytes_denote(v: nat, n: nat)
    requires
        v < vstd::arithmetic::power::pow(256, n),
    ensures
        le_bytes(v, n).len() == n,
        le_value(le_bytes(v, n)) == v,
    decreases n,
{
    vstd::arithmetic::power::lemma_pow_positive(256, n);
    if n == 0 {
        vstd::arithmetic::power::lemma_pow0(256);
    } else {
        let p = vstd::arithmetic::power::pow(256, (n - 1) as nat);
        vstd::arithmetic::power::lemma_pow_positive(256, (n - 1) as nat);
        assert(vstd::arithmetic::power::pow(256, n) == 256 * p) by {
            vstd::arithmetic::power::lemma_pow_adds(256, 1, (n - 1) as nat);
            vstd::arithmetic::power::lemma_pow1(256);
        }
        assert(v / 256 < p) by (nonlinear_arith)
            requires
                v < 256 * p,
        ;
        lemma_le_bytes_denote(v / 256, (n - 1) as nat);
        let rest = le_bytes(v / 256, (n - 1) as nat);
        let s = le_bytes(v, n);
        assert(s == seq![(v % 256) as u8] + rest);
        assert(s.drop_first() =~= rest);
        assert(s[0] == (v % 256) as u8);
        assert(v == (v % 256) + 256 * (v / 256)) by (nonlinear_arith);
    }
}

proof fn lemma_be_value_of_reverse(s: Seq<u8>)
    ensures
        be_value(s.reverse()) == le_value(s),
    decreases s.len(),
{
    if s.len() > 0 {
        let r = s.reverse();
        assert(r.drop_last() =~= s.drop_first().reverse());
        assert(r.last() == s[0]);
        lemma_be_value_of_reverse(s.drop_first());
    } else {
        assert(s.reverse().len() == 0);
    }
}

/// `u64_le_bytes` and `u64_be_bytes` are eight-byte encodings of their
/// argument: read back in their byte order they denote it again.
pub proof fn lemma_u64_bytes_denote(v: u64)
    ensures
        u64_le_bytes(v).len() == 8,
        u64_be_bytes(v).len() == 8,
        le_value(u64_le_bytes(v)) == v,
        be_value(u64_be_bytes(v)) == v,
{
    assert(vstd::arithmetic::power::pow(256, 8) == 0x1_0000_0000_0000_0000) by {
        reveal_with_fuel(vstd::arithmetic::power::pow, 9);
    }
    lemma_le_bytes_denote(v as nat, 8);
    lemma_be_value_of_reverse(u64_le_bytes(v));
}

} // verus!
