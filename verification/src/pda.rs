use vstd::prelude::*;
use vstd::string::*;
use vstd::utf8::*;

use crate::keys::Pubkey;

verus! {

/// The longest seed, in bytes.
pub const MAX_SEED_LEN: usize = 32;

/// The most seeds of an address, its bump seed left out.
pub const MAX_SEEDS_BEFORE_BUMP: usize = 15;

/// What `Pubkey::create_program_address` of the chain's SDK returns for these seeds and this
/// program: the bytes of the derived address, or nothing where the seeds derive none.
pub uninterp spec fn created_address(seeds: Seq<Seq<u8>>, program_id: Seq<u8>) -> Option<Seq<u8>>;

/// What `Pubkey::try_find_program_address` of the chain's SDK returns for these seeds and this
/// program: the bytes of the derived address with its bump seed, or nothing where no bump seed
/// leads to an address.
pub uninterp spec fn found_address(
    seeds: Seq<Seq<u8>>,
    program_id: Seq<u8>,
) -> Option<(Seq<u8>, u8)>;

/// Seeds that the derivation takes: no longer and no more than it allows.
pub open spec fn well_formed_seeds(seeds: Seq<Seq<u8>>, most: int) -> bool {
    &&& seeds.len() <= most
    &&& forall|i: int| 0 <= i < seeds.len() ==> (#[trigger] seeds[i]).len() <= MAX_SEED_LEN
}

/// Calls `Pubkey::create_program_address`, which hashes the seeds with the program's address and
/// refuses a hash that lies on the curve. Its result is named `created_address`; each of its
/// errors is `None` here.
#[verifier::external_body]
pub(crate) fn create_program_address(seeds: &Vec<Vec<u8>>, program_id: &Pubkey) -> (address: Option<
    Pubkey,
>)
    requires
        well_formed_seeds(seeds.deep_view(), MAX_SEEDS_BEFORE_BUMP + 1),
    ensures
        match address {
            Some(address) => created_address(seeds.deep_view(), program_id@) == Some(address@),
            None => created_address(seeds.deep_view(), program_id@) is None,
        },
{
    let parts: Vec<&[u8]> = seeds.iter().map(|seed| seed.as_slice()).collect();
    let program = anchor_lang::prelude::Pubkey::new_from_array(program_id.bytes);
    match anchor_lang::prelude::Pubkey::create_program_address(&parts, &program) {
        Ok(address) => Some(Pubkey { bytes: address.to_bytes() }),
        Err(_) => None,
    }
}

/// Calls `Pubkey::try_find_program_address`, which tries the bump seeds from 255 downwards as one
/// more seed of `Pubkey::create_program_address` and returns the first address with its bump.
/// Its result is named `found_address`; where there is one, the bump appended to the seeds
/// creates the same address.
#[verifier::external_body]
pub(crate) fn find_program_address(seeds: &Vec<Vec<u8>>, program_id: &Pubkey) -> (found: Option<
    (Pubkey, u8),
>)
    requires
        well_formed_seeds(seeds.deep_view(), MAX_SEEDS_BEFORE_BUMP as int),
    ensures
        match found {
            Some((address, bump)) => {
                &&& found_address(seeds.deep_view(), program_id@) == Some((address@, bump))
                &&& created_address(seeds.deep_view().push(seq![bump]), program_id@) == Some(
                    address@,
                )
            },
            None => found_address(seeds.deep_view(), program_id@) is None,
        },
{
    let parts: Vec<&[u8]> = seeds.iter().map(|seed| seed.as_slice()).collect();
    let program = anchor_lang::prelude::Pubkey::new_from_array(program_id.bytes);
    match anchor_lang::prelude::Pubkey::try_find_program_address(&parts, &program) {
        Some((address, bump)) => Some((Pubkey { bytes: address.to_bytes() }, bump)),
        None => None,
    }
}

/// The seeds of the account that holds a vault's state.
pub open spec fn vault_state_seeds(deposit_mint: Pubkey) -> Seq<Seq<u8>> {
    seq!["vault_state".spec_bytes(), deposit_mint@]
}

/// The seeds of the token account that holds a vault's deposits.
pub open spec fn vault_treasury_seeds(deposit_mint: Pubkey) -> Seq<Seq<u8>> {
    seq!["vault_treasury".spec_bytes(), deposit_mint@]
}

/// The seeds of the token account that holds a vault's rewards.
pub open spec fn reward_treasury_seeds(reward_mint: Pubkey) -> Seq<Seq<u8>> {
    seq!["reward_treasury".spec_bytes(), reward_mint@]
}

/// The seeds of the account that holds a user's position in a vault.
pub open spec fn user_position_seeds(vault_state: Pubkey, user: Pubkey) -> Seq<Seq<u8>> {
    seq!["user_position".spec_bytes(), vault_state@, user@]
}

/// The seeds under which a vault signs: those of its state, with the bump seed.
pub open spec fn vault_signer_seeds(deposit_mint: Pubkey, bump: u8) -> Seq<Seq<u8>> {
    vault_state_seeds(deposit_mint).push(seq![bump])
}

/// The bytes of an address that may be missing.
pub open spec fn address_bytes(address: Option<Pubkey>) -> Option<Seq<u8>> {
    match address {
        Some(address) => Some(address@),
        None => None,
    }
}

/// The bytes of an address that was found, without its bump.
pub open spec fn found_bytes(seeds: Seq<Seq<u8>>, program_id: Seq<u8>) -> Option<Seq<u8>> {
    match found_address(seeds, program_id) {
        Some((address, bump)) => Some(address),
        None => None,
    }
}

/// The labels that the seeds begin with are short enough for a seed.
proof fn lemma_labels_fit()
    ensures
        "vault_state".spec_bytes().len() <= MAX_SEED_LEN,
        "vault_treasury".spec_bytes().len() <= MAX_SEED_LEN,
        "reward_treasury".spec_bytes().len() <= MAX_SEED_LEN,
        "user_position".spec_bytes().len() <= MAX_SEED_LEN,
{
    reveal_strlit("vault_state");
    reveal_strlit("vault_treasury");
    reveal_strlit("reward_treasury");
    reveal_strlit("user_position");
    is_ascii_chars_encode_utf8("vault_state"@);
    is_ascii_chars_encode_utf8("vault_treasury"@);
    is_ascii_chars_encode_utf8("reward_treasury"@);
    is_ascii_chars_encode_utf8("user_position"@);
}

/// Bytes are their own deep view.
proof fn lemma_deep_bytes(bytes: Vec<u8>)
    ensures
        bytes.deep_view() == bytes@,
{
    assert(bytes.deep_view() =~= bytes@);
}

/// A label and an address as two seeds.
fn labelled_seeds(label: &str, key: &Pubkey) -> (seeds: Vec<Vec<u8>>)
    ensures
        seeds.deep_view() == seq![label.spec_bytes(), key@],
{
    let mut seeds: Vec<Vec<u8>> = Vec::new();
    seeds.push(label.as_bytes_vec());
    seeds.push(vstd::slice::slice_to_vec(key.bytes.as_slice()));
    proof {
        lemma_deep_bytes(seeds@[0]);
        lemma_deep_bytes(seeds@[1]);
    }
    assert(seeds.deep_view() =~= seq![label.spec_bytes(), key@]);
    seeds
}

/// Adds one more seed.
fn push_seed(seeds: &mut Vec<Vec<u8>>, seed: Vec<u8>)
    ensures
        final(seeds).deep_view() == old(seeds).deep_view().push(seed@),
{
    seeds.push(seed);
    proof {
        lemma_deep_bytes(seed);
    }
    assert(seeds.deep_view() =~= old(seeds).deep_view().push(seed@));
}

/// The seeds under which a vault signs, as bytes.
pub fn signer_seeds(deposit_mint: &Pubkey, bump: u8) -> (seeds: Vec<Vec<u8>>)
    ensures
        seeds.deep_view() == vault_signer_seeds(*deposit_mint, bump),
{
    let mut seeds: Vec<Vec<u8>> = labelled_seeds("vault_state", deposit_mint);
    let mut last: Vec<u8> = Vec::new();
    last.push(bump);
    assert(last@ =~= seq![bump]);
    push_seed(&mut seeds, last);
    seeds
}

/// The address of a vault's state under the bump seed that the vault keeps.
pub fn vault_state_address(deposit_mint: &Pubkey, bump: u8, program_id: &Pubkey) -> (address: Option<
    Pubkey,
>)
    ensures
        address_bytes(address) == created_address(
            vault_signer_seeds(*deposit_mint, bump),
            program_id@,
        ),
{
    proof {
        lemma_labels_fit();
    }
    create_program_address(&signer_seeds(deposit_mint, bump), program_id)
}

/// The address of a vault's state with the bump seed that leads to it.
pub fn find_vault_state(deposit_mint: &Pubkey, program_id: &Pubkey) -> (found: Option<(Pubkey, u8)>)
    ensures
        match found {
            Some((address, bump)) => {
                &&& found_address(vault_state_seeds(*deposit_mint), program_id@) == Some(
                    (address@, bump),
                )
                &&& created_address(vault_signer_seeds(*deposit_mint, bump), program_id@) == Some(
                    address@,
                )
            },
            None => found_address(vault_state_seeds(*deposit_mint), program_id@) is None,
        },
{
    proof {
        lemma_labels_fit();
    }
    find_program_address(&labelled_seeds("vault_state", deposit_mint), program_id)
}

/// The address of the token account that holds a vault's deposits.
pub fn find_vault_treasury(deposit_mint: &Pubkey, program_id: &Pubkey) -> (address: Option<Pubkey>)
    ensures
        address_bytes(address) == found_bytes(vault_treasury_seeds(*deposit_mint), program_id@),
{
    proof {
        lemma_labels_fit();
    }
    match find_program_address(&labelled_seeds("vault_treasury", deposit_mint), program_id) {
        Some((address, _)) => Some(address),
        None => None,
    }
}

/// The address of the token account that holds a vault's rewards.
pub fn find_reward_treasury(reward_mint: &Pubkey, program_id: &Pubkey) -> (address: Option<Pubkey>)
    ensures
        address_bytes(address) == found_bytes(reward_treasury_seeds(*reward_mint), program_id@),
{
    proof {
        lemma_labels_fit();
    }
    match find_program_address(&labelled_seeds("reward_treasury", reward_mint), program_id) {
        Some((address, _)) => Some(address),
        None => None,
    }
}

/// The address of the account that holds a user's position in a vault.
pub fn find_user_position(vault_state: &Pubkey, user: &Pubkey, program_id: &Pubkey) -> (address: Option<
    Pubkey,
>)
    ensures
        address_bytes(address) == found_bytes(
            user_position_seeds(*vault_state, *user),
            program_id@,
        ),
{
    let mut seeds: Vec<Vec<u8>> = labelled_seeds("user_position", vault_state);
    push_seed(&mut seeds, vstd::slice::slice_to_vec(user.bytes.as_slice()));
    proof {
        lemma_labels_fit();
        assert(seeds.deep_view() =~= user_position_seeds(*vault_state, *user));
    }
    match find_program_address(&seeds, program_id) {
        Some((address, _)) => Some(address),
        None => None,
    }
}

} // verus!
