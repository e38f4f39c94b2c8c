//! Seeds of the program's derived addresses. An address is derived from the
//! concatenation of its seeds (and the program id), so the lemmas here speak
//! of that concatenation.
use vstd::prelude::*;
use vstd::bytes::{spec_u64_to_le_bytes, u64_to_le_bytes};

verus! {

/// `b"account_counter"`
pub open spec fn counter_prefix() -> Seq<u8> {
    seq![0x61, 0x63, 0x63, 0x6f, 0x75, 0x6e, 0x74, 0x5f, 0x63, 0x6f, 0x75, 0x6e, 0x74, 0x65, 0x72]
}

/// `b"authority_pda"`
pub open spec fn authority_prefix() -> Seq<u8> {
    seq![0x61, 0x75, 0x74, 0x68, 0x6f, 0x72, 0x69, 0x74, 0x79, 0x5f, 0x70, 0x64, 0x61]
}

/// `b"mint"`
pub open spec fn mint_prefix() -> Seq<u8> {
    seq![0x6d, 0x69, 0x6e, 0x74]
}

/// `b"sol_valt"`
pub open spec fn vault_prefix() -> Seq<u8> {
    seq![0x73, 0x6f, 0x6c, 0x5f, 0x76, 0x61, 0x6c, 0x74]
}

/// `b"trade_status"`
pub open spec fn trade_status_prefix() -> Seq<u8> {
    seq![0x74, 0x72, 0x61, 0x64, 0x65, 0x5f, 0x73, 0x74, 0x61, 0x74, 0x75, 0x73]
}

/// Seeds of the launch counter account.
pub open spec fn spec_counter_seeds() -> Seq<Seq<u8>> {
    seq![counter_prefix()]
}

/// Seeds with which the program signs for its authority account.
pub open spec fn spec_authority_signer_seeds(bump: u8) -> Seq<Seq<u8>> {
    seq![authority_prefix(), seq![bump]]
}

/// Seeds of the mint of the token created when the counter stands at `count`.
pub open spec fn spec_mint_seeds(count: u64) -> Seq<Seq<u8>> {
    seq![mint_prefix(), spec_u64_to_le_bytes(count)]
}

/// Seeds of the sol vault of the token whose program token account is
/// `token_account`.
pub open spec fn spec_vault_seeds(token_account: Seq<u8>) -> Seq<Seq<u8>> {
    seq![vault_prefix(), token_account]
}

/// Seeds of the trade status account of the token whose program token
/// account is `token_account`.
pub open spec fn spec_trade_status_seeds(token_account: Seq<u8>) -> Seq<Seq<u8>> {
    seq![trade_status_prefix(), token_account]
}

fn copy_bytes(bytes: &[u8]) -> (v: Vec<u8>)
    ensures
        v@ == bytes@,
{
    let mut v: Vec<u8> = Vec::new();
    let mut i: usize = 0;
    while i < bytes.len()
        invariant
            i <= bytes.len(),
            v@ == bytes@.take(i as int),
        decreases bytes.len() - i,
    {
        v.push(bytes[i]);
        i = i + 1;
        assert(v@ == bytes@.take(i as int));
    }
    assert(bytes@.take(bytes.len() as int) == bytes@);
    v
}

/// Seeds of the launch counter account.
pub fn counter_seeds() -> (s: Vec<Vec<u8>>)
    ensures
        s.deep_view() == spec_counter_seeds(),
{
    let prefix: Vec<u8> = vec![
        0x61, 0x63, 0x63, 0x6f, 0x75, 0x6e, 0x74, 0x5f, 0x63, 0x6f, 0x75, 0x6e, 0x74, 0x65, 0x72,
    ];
    let s: Vec<Vec<u8>> = vec![prefix];
    assert(s@[0].deep_view() =~= counter_prefix());
    assert(s.deep_view() =~= spec_counter_seeds());
    s
}

/// Seeds with which the program signs for its authority account, `bump`
/// being the bump found for that account.
pub fn authority_signer_seeds(bump: u8) -> (s: Vec<Vec<u8>>)
    ensures
        s.deep_view() == spec_authority_signer_seeds(bump),
{
    let prefix: Vec<u8> = vec![
        0x61, 0x75, 0x74, 0x68, 0x6f, 0x72, 0x69, 0x74, 0x79, 0x5f, 0x70, 0x64, 0x61,
    ];
    let s: Vec<Vec<u8>> = vec![prefix, vec![bump]];
    assert(s@[0].deep_view() =~= authority_prefix());
    assert(s@[1].deep_view() =~= seq![bump]);
    assert(s.deep_view() =~= spec_authority_signer_seeds(bump));
    s
}

/// Seeds of the mint of the token created when the counter stands at
/// `count`: the prefix and the count in little-endian bytes.
pub fn mint_seeds(count: u64) -> (s: Vec<Vec<u8>>)
    ensures
        s.deep_view() == spec_mint_seeds(count),
{
    let prefix: Vec<u8> = vec![0x6d, 0x69, 0x6e, 0x74];
    let s: Vec<Vec<u8>> = vec![prefix, u64_to_le_bytes(count)];
    assert(s@[0].deep_view() =~= mint_prefix());
    assert(s@[1].deep_view() =~= spec_u64_to_le_bytes(count));
    assert(s.deep_view() =~= spec_mint_seeds(count));
    s
}

/// Seeds of a token's sol vault.
pub fn vault_seeds(token_account: &[u8; 32]) -> (s: Vec<Vec<u8>>)
    ensures
        s.deep_view() == spec_vault_seeds(token_account@),
{
    let prefix: Vec<u8> = vec![0x73, 0x6f, 0x6c, 0x5f, 0x76, 0x61, 0x6c, 0x74];
    let s: Vec<Vec<u8>> = vec![prefix, copy_bytes(token_account)];
    assert(s@[0].deep_view() =~= spec_vault_seeds(token_account@)[0]);
    assert(s@[1].deep_view() =~= token_account@);
    assert(s.deep_view() =~= spec_vault_seeds(token_account@));
    s
}

/// Seeds of a token's trade status account.
pub fn trade_status_seeds(token_account: &[u8; 32]) -> (s: Vec<Vec<u8>>)
    ensures
        s.deep_view() == spec_trade_status_seeds(token_account@),
{
    let prefix: Vec<u8> = vec![
        0x74, 0x72, 0x61, 0x64, 0x65, 0x5f, 0x73, 0x74, 0x61, 0x74, 0x75, 0x73,
    ];
    let s: Vec<Vec<u8>> = vec![prefix, copy_bytes(token_account)];
    assert(s@[0].deep_view() =~= spec_trade_status_seeds(token_account@)[0]);
    assert(s@[1].deep_view() =~= token_account@);
    assert(s.deep_view() =~= spec_trade_status_seeds(token_account@));
    s
}

/// The counter account has one seed, the bytes of `account_counter`.
pub proof fn lemma_counter_seeds_shape()
    ensures
        spec_counter_seeds().len() == 1,
        spec_counter_seeds()[0] == seq![
            0x61u8, 0x63, 0x63, 0x6f, 0x75, 0x6e, 0x74, 0x5f, 0x63, 0x6f, 0x75, 0x6e, 0x74, 0x65, 0x72,
        ],
{
}

/// Whatever the bump, the authority signs with exactly two seeds: the bytes
/// of `authority_pda`, then the bump as a single byte.
pub proof fn lemma_authority_signer_seeds_shape(bump: u8)
    ensures
        spec_authority_signer_seeds(bump).len() == 2,
        spec_authority_signer_seeds(bump)[0] == seq![
            0x61u8, 0x75, 0x74, 0x68, 0x6f, 0x72, 0x69, 0x74, 0x79, 0x5f, 0x70, 0x64, 0x61,
        ],
        spec_authority_signer_seeds(bump)[1].len() == 1,
        spec_authority_signer_seeds(bump)[1][0] == bump,
{
}

/// The mint seeds are the bytes of `mint`, then eight bytes from which the
/// count reads back in little-endian order.
pub proof fn lemma_mint_seeds_shape(count: u64)
    ensures
        spec_mint_seeds(count).len() == 2,
        spec_mint_seeds(count)[0] == seq![0x6du8, 0x69, 0x6e, 0x74],
        spec_mint_seeds(count)[1].len() == 8,
        vstd::bytes::spec_u64_from_le_bytes(spec_mint_seeds(count)[1]) == count,
        spec_mint_seeds(count)[1][0] == (count % 256) as u8,
{
    vstd::bytes::lemma_auto_spec_u64_to_from_le_bytes();
    vstd::bytes::spec_u64_to_le_bytes_to_open(count);
    assert((count & 0xff) == count % 256) by (bit_vector);
}

/// Whatever the token account key, the vault has exactly two seeds: the
/// bytes of `sol_valt`, then the key itself, byte for byte.
pub proof fn lemma_vault_seeds_shape(token_account: Seq<u8>)
    ensures
        spec_vault_seeds(token_account).len() == 2,
        spec_vault_seeds(token_account)[0] == seq![0x73u8, 0x6f, 0x6c, 0x5f, 0x76, 0x61, 0x6c, 0x74],
        spec_vault_seeds(token_account)[1] == token_account,
{
}

/// Whatever the token account key, the trade status account has exactly two
/// seeds: the bytes of `trade_status`, then the key itself, byte for byte.
pub proof fn lemma_trade_status_seeds_shape(token_account: Seq<u8>)
    ensures
        spec_trade_status_seeds(token_account).len() == 2,
        spec_trade_status_seeds(token_account)[0] == seq![
            0x74u8, 0x72, 0x61, 0x64, 0x65, 0x5f, 0x73, 0x74, 0x61, 0x74, 0x75, 0x73,
        ],
        spec_trade_status_seeds(token_account)[1] == token_account,
{
}

proof fn lemma_flatten_pair(a: Seq<u8>, b: Seq<u8>)
    ensures
        seq![a, b].flatten() == a + b,
{
    reveal_with_fuel(Seq::flatten, 3);
    assert(seq![a, b].drop_first() =~= seq![b]);
    assert(seq![b].drop_first() =~= Seq::<Seq<u8>>::empty());
    assert(b + Seq::<u8>::empty() =~= b);
}

/// Tokens launched at different counts have different mint addresses: the
/// byte strings from which the mint addresses are derived differ.
pub proof fn lemma_mint_seeds_distinct(a: u64, b: u64)
    requires
        a != b,
    ensures
        spec_mint_seeds(a).flatten() != spec_mint_seeds(b).flatten(),
{
    lemma_flatten_pair(mint_prefix(), spec_u64_to_le_bytes(a));
    lemma_flatten_pair(mint_prefix(), spec_u64_to_le_bytes(b));
    vstd::bytes::lemma_auto_spec_u64_to_from_le_bytes();
    let sa = spec_mint_seeds(a).flatten();
    let sb = spec_mint_seeds(b).flatten();
    if sa == sb {
        assert(spec_u64_to_le_bytes(a) =~= sa.subrange(4, 12));
        assert(spec_u64_to_le_bytes(b) =~= sb.subrange(4, 12));
        assert(spec_u64_to_le_bytes(a) == spec_u64_to_le_bytes(b));
    }
}

/// A token's sol vault and its trade status account never share an address,
/// whatever the token accounts: their seed bytes differ.
pub proof fn lemma_vault_and_status_seeds_differ(t1: Seq<u8>, t2: Seq<u8>)
    requires
        t1.len() == 32,
        t2.len() == 32,
    ensures
        spec_vault_seeds(t1).flatten() != spec_trade_status_seeds(t2).flatten(),
{
    lemma_flatten_pair(vault_prefix(), t1);
    lemma_flatten_pair(trade_status_prefix(), t2);
    assert(vault_prefix().len() == 8);
    assert(trade_status_prefix().len() == 12);
    assert(spec_vault_seeds(t1).flatten().len() == 40);
    assert(spec_trade_status_seeds(t2).flatten().len() == 44);
}

} // verus!
