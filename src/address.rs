use vstd::prelude::*;
use anchor_lang::solana_program::pubkey::Pubkey;

verus! {

/// The namespace tag that every price-feed address is derived under.
pub const FEED_SEED: [u8; 10] = [112, 114, 105, 99, 101, 95, 102, 101, 101, 100];

/// The bytes of `"price_feed"`.
pub open spec fn feed_seed_bytes() -> Seq<u8> {
    seq![112u8, 114u8, 105u8, 99u8, 101u8, 95u8, 102u8, 101u8, 101u8, 100u8]
}

/// The program-derived address of the seeds (`tag`, `provider`, `symbol`) under
/// `program_id`, or `None` where no bump seed gives an address off the curve.
pub uninterp spec fn program_address_of(
    tag: Seq<u8>,
    provider: Seq<u8>,
    symbol: Seq<u8>,
    program_id: Seq<u8>,
) -> Option<Seq<u8>>;

/// Relies on `Pubkey::try_find_program_address` for the seeds [`tag`, `provider`,
/// `symbol`]: the address depends on the seeds and the program id alone, and a seed
/// longer than 32 bytes yields none.
#[verifier::external_body]
fn find_program_address(tag: &[u8], provider: &[u8], symbol: &[u8], program_id: [u8; 32]) -> (r:
    Option<[u8; 32]>)
    ensures
        r matches Some(a) ==> program_address_of(tag@, provider@, symbol@, program_id@) == Some(
            a@,
        ),
        r is None ==> program_address_of(tag@, provider@, symbol@, program_id@) is None,
        tag@.len() > 32 || provider@.len() > 32 || symbol@.len() > 32 ==> r is None,
{
    let id = Pubkey::new_from_array(program_id);
    Pubkey::try_find_program_address(&[tag, provider, symbol], &id).map(|found| found.0.to_bytes())
}

/// The address of the record for (`provider`, `symbol`) under `program_id`.
pub fn feed_address(program_id: [u8; 32], provider: &[u8], symbol: &[u8]) -> (r: Option<[u8; 32]>)
    ensures
        derived_address(r, program_id@, provider@, symbol@),
        provider@.len() > 32 || symbol@.len() > 32 ==> r is None,
{
    let tag = FEED_SEED;
    assert(tag@ =~= feed_seed_bytes());
    find_program_address(tag.as_slice(), provider, symbol, program_id)
}

/// What `feed_address` may return for (`provider`, `symbol`) under `program_id`.
pub open spec fn derived_address(
    r: Option<[u8; 32]>,
    program_id: Seq<u8>,
    provider: Seq<u8>,
    symbol: Seq<u8>,
) -> bool {
    &&& r matches Some(a) ==> program_address_of(feed_seed_bytes(), provider, symbol, program_id)
        == Some(a@)
    &&& r is None <==> program_address_of(feed_seed_bytes(), provider, symbol, program_id) is None
}

/// Address derivation is deterministic: two derivations for the same (provider,
/// symbol) under the same program give the same result.
pub proof fn lemma_address_deterministic(
    program_id: Seq<u8>,
    provider: Seq<u8>,
    symbol: Seq<u8>,
    first: Option<[u8; 32]>,
    second: Option<[u8; 32]>,
)
    requires
        derived_address(first, program_id, provider, symbol),
        derived_address(second, program_id, provider, symbol),
    ensures
        first == second,
{
    broadcast use vstd::array::group_array_axioms;

    if let (Some(a), Some(b)) = (first, second) {
        assert(a@ == b@);
        assert(forall|i: int| 0 <= i < 32 ==> a@[i] == b@[i]);
        assert(a =~= b);
    }
}

} // verus!
