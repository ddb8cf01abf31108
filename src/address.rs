//! Deterministic derivation of record addresses from seeds.

use anchor_lang::prelude::Pubkey;
use vstd::prelude::*;
use vstd::slice::slice_to_vec;
use vstd::string::StringSliceAdditionalSpecFns;
use vstd::utf8::encode_utf8;

verus! {

/// The namespace tag of the configuration record: the bytes of "config".
pub open spec fn config_tag() -> Seq<u8> {
    seq![99u8, 111u8, 110u8, 102u8, 105u8, 103u8]
}

/// The namespace tag of book records: the bytes of "book".
pub open spec fn book_tag() -> Seq<u8> {
    seq![98u8, 111u8, 111u8, 107u8]
}

/// The seeds that locate the configuration record.
pub open spec fn config_seed_list() -> Seq<Seq<u8>> {
    seq![config_tag()]
}

/// The seeds that locate the book with the given ISBN: the tag, then the
/// UTF-8 bytes of the ISBN.
pub open spec fn book_seed_list(isbn: Seq<char>) -> Seq<Seq<u8>> {
    seq![book_tag(), encode_utf8(isbn)]
}

pub open spec fn seeds_view(seeds: Seq<Vec<u8>>) -> Seq<Seq<u8>> {
    seeds.map_values(|s: Vec<u8>| s@)
}

pub open spec fn address_view(r: Option<([u8; 32], u8)>) -> Option<(Seq<u8>, u8)> {
    match r {
        Some((a, bump)) => Some((a@, bump)),
        None => None,
    }
}

/// The address and bump that program-address derivation gives for `seeds`
/// under `program_id`, or `None` when no bump yields a valid address.
pub uninterp spec fn program_address(seeds: Seq<Seq<u8>>, program_id: Seq<u8>) -> Option<(Seq<u8>, u8)>;

/// Relies on `Pubkey::try_find_program_address`: a deterministic function of
/// the seeds and the program id (a hash of both, walking the bump down from
/// 255 to the first off-curve result), `None` where no bump qualifies.
#[verifier::external_body]
fn try_find_program_address(seeds: &Vec<Vec<u8>>, program_id: &[u8; 32]) -> (r: Option<([u8; 32], u8)>)
    ensures
        address_view(r) == program_address(seeds_view(seeds@), program_id@),
{
    let slices: Vec<&[u8]> = seeds.iter().map(|s| s.as_slice()).collect();
    Pubkey::try_find_program_address(&slices, &Pubkey::new_from_array(*program_id)).map(
        |(address, bump)| (address.to_bytes(), bump),
    )
}

/// The seeds of the configuration record, as bytes.
pub fn config_seeds() -> (r: Vec<Vec<u8>>)
    ensures
        seeds_view(r@) == config_seed_list(),
{
    let mut tag: Vec<u8> = Vec::new();
    tag.push(99u8); // 'c'
    tag.push(111u8); // 'o'
    tag.push(110u8); // 'n'
    tag.push(102u8); // 'f'
    tag.push(105u8); // 'i'
    tag.push(103u8); // 'g'
    let mut r: Vec<Vec<u8>> = Vec::new();
    r.push(tag);
    assert(r@[0]@ =~= config_tag());
    assert(seeds_view(r@) =~= config_seed_list());
    r
}

/// The seeds of the book record with the given ISBN, as bytes.
pub fn book_seeds(isbn: &str) -> (r: Vec<Vec<u8>>)
    ensures
        seeds_view(r@) == book_seed_list(isbn@),
{
    let mut tag: Vec<u8> = Vec::new();
    tag.push(98u8); // 'b'
    tag.push(111u8); // 'o'
    tag.push(111u8); // 'o'
    tag.push(107u8); // 'k'
    let key: Vec<u8> = slice_to_vec(isbn.as_bytes());
    let mut r: Vec<Vec<u8>> = Vec::new();
    r.push(tag);
    r.push(key);
    assert(r@[0]@ =~= book_tag());
    assert(seeds_view(r@) =~= book_seed_list(isbn@));
    r
}

/// Derives the address and bump of the configuration record.
pub fn derive_config_address(program_id: &[u8; 32]) -> (r: Option<([u8; 32], u8)>)
    ensures
        address_view(r) == program_address(config_seed_list(), program_id@),
{
    let seeds = config_seeds();
    try_find_program_address(&seeds, program_id)
}

/// Derives the address and bump of the book record with the given ISBN.
pub fn derive_book_address(isbn: &str, program_id: &[u8; 32]) -> (r: Option<([u8; 32], u8)>)
    ensures
        address_view(r) == program_address(book_seed_list(isbn@), program_id@),
{
    let seeds = book_seeds(isbn);
    try_find_program_address(&seeds, program_id)
}

/// Whether two 32-byte keys (identities or addresses) are equal.
pub fn keys_equal(a: &[u8; 32], b: &[u8; 32]) -> (r: bool)
    ensures
        r == (a@ == b@),
{
    let mut i: usize = 0;
    while i < 32
        invariant
            0 <= i <= 32,
            a@.len() == 32,
            b@.len() == 32,
            forall|j: int| 0 <= j < i ==> a@[j] == b@[j],
        decreases 32 - i,
    {
        if a[i] != b[i] {
            return false;
        }
        i = i + 1;
    }
    assert(a@ =~= b@);
    true
}

} // verus!
