use vstd::prelude::*;
use anchor_lang::solana_program::pubkey::Pubkey;

verus! {

/// A 32-byte ledger identity: a wallet key, a program id or a program-derived address.
#[derive(Clone, Copy)]
pub struct Address {
    pub bytes: [u8; 32],
}

impl View for Address {
    type V = Seq<u8>;

    open spec fn view(&self) -> Seq<u8> {
        self.bytes@
    }
}

impl Address {
    pub fn new(bytes: [u8; 32]) -> (r: Address)
        ensures
            r@ == bytes@,
    {
        Address { bytes }
    }

    /// The all-zero identity, which stands for the native coin in a lock record's asset tag.
    pub fn native() -> (r: Address)
        ensures
            r@ == native_tag(),
    {
        let r = Address { bytes: [0u8; 32] };
        assert(r@ =~= native_tag());
        r
    }

    pub fn equals(&self, other: &Address) -> (r: bool)
        ensures
            r == (self@ == other@),
    {
        let mut i: usize = 0;
        while i < 32
            invariant
                0 <= i <= 32,
                self@.len() == 32,
                other@.len() == 32,
                forall|j: int| 0 <= j < i ==> self@[j] == other@[j],
            decreases 32 - i,
        {
            if self.bytes[i] != other.bytes[i] {
                return false;
            }
            i = i + 1;
        }
        assert(self@ =~= other@);
        true
    }
}

pub open spec fn native_tag() -> Seq<u8> {
    Seq::new(32, |i: int| 0u8)
}

/// A program-derived address together with the bump byte that puts it off the curve.
#[derive(Clone, Copy)]
pub struct ProgramAddress {
    pub address: Address,
    pub bump: u8,
}

/// Which family of derived account a seed tag names.
#[derive(Clone, Copy, PartialEq, Eq, Structural, Debug)]
pub enum SeedTag {
    TimelockSol,
    TimelockSpl,
    Vault,
    VaultTokenAccount,
}

pub open spec fn seed_bytes(tag: SeedTag) -> Seq<u8> {
    match tag {
        SeedTag::TimelockSol => seq![116u8, 105, 109, 101, 108, 111, 99, 107, 95, 115, 111, 108],
        SeedTag::TimelockSpl => seq![116u8, 105, 109, 101, 108, 111, 99, 107, 95, 115, 112, 108],
        SeedTag::Vault => seq![118u8, 97, 117, 108, 116],
        SeedTag::VaultTokenAccount => seq![
            118u8, 97, 117, 108, 116, 95, 116, 111, 107, 101, 110, 95, 97, 99, 99, 111, 117, 110, 116,
        ],
    }
}

/// The bytes of a seed tag: "timelock_sol", "timelock_spl", "vault" or "vault_token_account".
pub fn seed_tag_bytes(tag: SeedTag) -> (r: Vec<u8>)
    ensures
        r@ == seed_bytes(tag),
{
    let r = match tag {
        SeedTag::TimelockSol => vec![116u8, 105, 109, 101, 108, 111, 99, 107, 95, 115, 111, 108],
        SeedTag::TimelockSpl => vec![116u8, 105, 109, 101, 108, 111, 99, 107, 95, 115, 112, 108],
        SeedTag::Vault => vec![118u8, 97, 117, 108, 116],
        SeedTag::VaultTokenAccount => vec![
            118u8, 97, 117, 108, 116, 95, 116, 111, 107, 101, 110, 95, 97, 99, 99, 111, 117, 110, 116,
        ],
    };
    assert(r@ =~= seed_bytes(tag));
    r
}

/// The address and bump found for the seeds `[seed, key]` under a program id, if any.
pub uninterp spec fn program_address_of(seed: Seq<u8>, key: Seq<u8>, program: Seq<u8>) -> Option<(Seq<u8>, u8)>;

pub open spec fn as_program_address(p: Option<ProgramAddress>) -> Option<(Seq<u8>, u8)> {
    match p {
        Some(p) => Some((p.address@, p.bump)),
        None => None,
    }
}

/// Relies on anchor_lang's `Pubkey::try_find_program_address` (solana-program): it searches
/// the bump bytes from 255 down and returns the first address off the curve with its bump,
/// or `None` when no bump gives one. It depends on the seeds and the program id alone.
#[verifier::external_body]
fn find_program_address(seed: &Vec<u8>, key: &Address, program_id: &Address) -> (r: Option<ProgramAddress>)
    ensures
        as_program_address(r) == program_address_of(seed@, key@, program_id@),
{
    let program = Pubkey::new_from_array(program_id.bytes);
    match Pubkey::try_find_program_address(&[seed.as_slice(), &key.bytes], &program) {
        Some((found, bump)) => Some(ProgramAddress { address: Address { bytes: found.to_bytes() }, bump }),
        None => None,
    }
}

pub open spec fn derived(tag: SeedTag, key: Address, program_id: Address) -> Option<(Seq<u8>, u8)> {
    program_address_of(seed_bytes(tag), key@, program_id@)
}

/// Derives the program-controlled address for a seed tag and a key (an owner for a lock
/// record, a lock record's address for a vault).
pub fn derive_address(tag: SeedTag, key: &Address, program_id: &Address) -> (r: Option<ProgramAddress>)
    ensures
        as_program_address(r) == derived(tag, *key, *program_id),
{
    let seed = seed_tag_bytes(tag);
    find_program_address(&seed, key, program_id)
}

/// Whether a presented account is the derived one: the derivation found an address, and it
/// is the presented one.
pub open spec fn matches_derived(presented: Address, d: Option<(Seq<u8>, u8)>) -> bool {
    match d {
        Some(p) => presented@ == p.0,
        None => false,
    }
}

/// The bump of a derivation that found an address.
pub open spec fn bump_of(d: Option<(Seq<u8>, u8)>) -> u8 {
    match d {
        Some(p) => p.1,
        None => 0,
    }
}

pub fn is_derived(presented: &Address, d: &Option<ProgramAddress>) -> (r: bool)
    ensures
        r == matches_derived(*presented, as_program_address(*d)),
{
    match d {
        Some(p) => presented.equals(&p.address),
        None => false,
    }
}

/// Whether a presented account is the derived one, found with the bump that a record holds.
pub fn is_derived_with_bump(presented: &Address, d: &Option<ProgramAddress>, bump: u8) -> (r: bool)
    ensures
        r == (matches_derived(*presented, as_program_address(*d)) && bump_of(
            as_program_address(*d),
        ) == bump),
{
    match d {
        Some(p) => p.bump == bump && presented.equals(&p.address),
        None => false,
    }
}

} // verus!
