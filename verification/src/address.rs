//! Ledger addresses: 32-byte identities, their base58 text form, and the
//! deterministic derivation of the addresses at which the vault and the
//! delegation record are stored.

use vstd::prelude::*;
use vstd::slice::slice_to_vec;

verus! {

broadcast use vstd::array::group_array_axioms;

/// The address of an account on the ledger: an identity or a storage address.
#[derive(Debug, Clone, Copy, PartialEq, Eq, Hash)]
pub struct Address {
    pub bytes: [u8; 32],
}

impl View for Address {
    type V = Seq<u8>;

    open spec fn view(&self) -> Seq<u8> {
        self.bytes@
    }
}

/// Text that the ledger's tooling prints for a 32-byte address (base58).
pub uninterp spec fn base58_text(bytes: Seq<u8>) -> Seq<char>;

/// The 32 bytes that a base58 text stands for, if it stands for an address.
pub uninterp spec fn base58_address(text: Seq<char>) -> Option<Seq<u8>>;

/// The address and bump seed that the ledger derives for a program from a list
/// of seeds, if it derives any.
pub uninterp spec fn program_derived_address(seeds: Seq<Seq<u8>>, program_id: Seq<u8>) -> Option<
    (Seq<u8>, u8),
>;

/// Calls `Display` of `solana_sdk::pubkey::Pubkey`, which writes the base58
/// form of the 32 bytes. The contract only names that text.
#[verifier::external_body]
fn encode_base58(address: &Address) -> (text: String)
    ensures
        text@ == base58_text(address@),
{
    solana_sdk::pubkey::Pubkey::new_from_array(address.bytes).to_string()
}

/// Calls `FromStr` of `solana_sdk::pubkey::Pubkey`, which decodes base58 text
/// into exactly 32 bytes or refuses it. The contract only names the outcome.
#[verifier::external_body]
fn decode_base58(text: &str) -> (address: Option<Address>)
    ensures
        match address {
            Some(a) => base58_address(text@) == Some(a@),
            None => base58_address(text@) is None,
        },
{
    match text.parse::<solana_sdk::pubkey::Pubkey>() {
        Ok(key) => Some(Address { bytes: key.to_bytes() }),
        Err(_) => None,
    }
}

/// The byte sequences that a list of seed vectors holds.
pub open spec fn seed_bytes(seeds: Seq<Vec<u8>>) -> Seq<Seq<u8>> {
    seeds.map_values(|seed: Vec<u8>| seed@)
}

/// Calls `Pubkey::try_find_program_address` of `solana_sdk`, which hashes the
/// seeds, a bump seed and the program id, trying bump seeds from 255 downwards
/// until the hash is a valid derived address. It returns `None` where no bump
/// seed fits or a seed is refused. The contract only names the outcome.
#[verifier::external_body]
fn find_program_address(seeds: &Vec<Vec<u8>>, program_id: &Address) -> (found: Option<(Address, u8)>)
    ensures
        match found {
            Some((address, bump)) => program_derived_address(seed_bytes(seeds@), program_id@)
                == Some((address@, bump)),
            None => program_derived_address(seed_bytes(seeds@), program_id@) is None,
        },
{
    let slices: Vec<&[u8]> = seeds.iter().map(|seed| seed.as_slice()).collect();
    let program = solana_sdk::pubkey::Pubkey::new_from_array(program_id.bytes);
    match solana_sdk::pubkey::Pubkey::try_find_program_address(&slices, &program) {
        Some((key, bump)) => Some((Address { bytes: key.to_bytes() }, bump)),
        None => None,
    }
}

/// The seed tag of a vault's storage address: the ASCII bytes of `vault`.
pub open spec fn vault_seed_tag() -> Seq<u8> {
    seq![0x76u8, 0x61u8, 0x75u8, 0x6cu8, 0x74u8]
}

/// The seed tag of a delegation's storage address: the ASCII bytes of
/// `delegation`.
pub open spec fn delegation_seed_tag() -> Seq<u8> {
    seq![0x64u8, 0x65u8, 0x6cu8, 0x65u8, 0x67u8, 0x61u8, 0x74u8, 0x69u8, 0x6fu8, 0x6eu8]
}

/// Seeds of the vault that `parent` opens for `ephemeral`.
pub open spec fn vault_seeds(parent: Address, ephemeral: Address) -> Seq<Seq<u8>> {
    seq![vault_seed_tag(), parent@, ephemeral@]
}

/// Seeds of the one delegation record of the vault stored at `vault`.
pub open spec fn delegation_seeds(vault: Address) -> Seq<Seq<u8>> {
    seq![delegation_seed_tag(), vault@]
}

/// Storage address and bump seed of the vault of `(parent, ephemeral)` under
/// the program `program_id`.
pub open spec fn vault_address(program_id: Address, parent: Address, ephemeral: Address) -> Option<
    (Seq<u8>, u8),
> {
    program_derived_address(vault_seeds(parent, ephemeral), program_id@)
}

/// Storage address and bump seed of the delegation record of `vault` under
/// the program `program_id`.
pub open spec fn delegation_address(program_id: Address, vault: Address) -> Option<(Seq<u8>, u8)> {
    program_derived_address(delegation_seeds(vault), program_id@)
}

/// The system program's address.
pub open spec fn system_program() -> Address {
    Address { bytes: vstd::array::spec_array_fill_for_copy_type::<u8, 32>(0u8) }
}

impl Address {
    /// The address made of the given bytes.
    pub fn new(bytes: [u8; 32]) -> (address: Address)
        ensures
            address.bytes == bytes,
            address@ == bytes@,
    {
        Address { bytes }
    }

    /// The system program's address: 32 zero bytes.
    pub fn system_program() -> (address: Address)
        ensures
            address == system_program(),
            address@ == Seq::new(32, |i: int| 0u8),
    {
        let address = Address { bytes: [0u8;32] };
        assert(address@ =~= Seq::new(32, |i: int| 0u8));
        address
    }

    /// The 32 bytes of the address.
    pub fn to_bytes(&self) -> (bytes: Vec<u8>)
        ensures
            bytes@ == self@,
    {
        slice_to_vec(self.bytes.as_slice())
    }

    /// Whether two addresses are the same.
    pub fn same_as(&self, other: &Address) -> (same: bool)
        ensures
            same == (*self == *other),
            same == (self@ == other@),
    {
        let mut i: usize = 0;
        while i < 32
            invariant
                i <= 32,
                forall|j: int| 0 <= j < i ==> self.bytes[j] == other.bytes[j],
            decreases 32 - i,
        {
            if self.bytes[i] != other.bytes[i] {
                assert(self@[i as int] != other@[i as int]);
                return false;
            }
            i = i + 1;
        }
        assert(self.bytes@ =~= other.bytes@);
        assert(self.bytes == other.bytes);
        true
    }

    /// The base58 text of the address.
    pub fn to_base58(&self) -> (text: String)
        ensures
            text@ == base58_text(self@),
    {
        encode_base58(self)
    }

    /// The address that a base58 text stands for; `None` where the text is no
    /// address.
    pub fn from_base58(text: &str) -> (address: Option<Address>)
        ensures
            match address {
                Some(a) => base58_address(text@) == Some(a@),
                None => base58_address(text@) is None,
            },
    {
        decode_base58(text)
    }

    /// Where the vault that `parent` opens for `ephemeral` is stored, with its
    /// bump seed. The address depends on the pair alone, so a second vault for
    /// the same pair would land on the first.
    pub fn derive_vault(program_id: &Address, parent: &Address, ephemeral: &Address) -> (found:
        Option<(Address, u8)>)
        ensures
            match found {
                Some((address, bump)) => vault_address(*program_id, *parent, *ephemeral) == Some(
                    (address@, bump),
                ),
                None => vault_address(*program_id, *parent, *ephemeral) is None,
            },
    {
        let mut seeds: Vec<Vec<u8>> = Vec::new();
        let tag: Vec<u8> = vec![0x76u8, 0x61u8, 0x75u8, 0x6cu8, 0x74u8];
        assert(tag@ =~= vault_seed_tag());
        seeds.push(tag);
        seeds.push(parent.to_bytes());
        seeds.push(ephemeral.to_bytes());
        assert(seed_bytes(seeds@) =~= vault_seeds(*parent, *ephemeral));
        find_program_address(&seeds, program_id)
    }

    /// Where the delegation record of the vault at `vault` is stored, with its
    /// bump seed. The address depends on the vault alone, so a vault has at
    /// most one delegation record.
    pub fn derive_delegation(program_id: &Address, vault: &Address) -> (found: Option<(Address, u8)>)
        ensures
            match found {
                Some((address, bump)) => delegation_address(*program_id, *vault) == Some(
                    (address@, bump),
                ),
                None => delegation_address(*program_id, *vault) is None,
            },
    {
        let mut seeds: Vec<Vec<u8>> = Vec::new();
        let tag: Vec<u8> = vec![
            0x64u8,
            0x65u8,
            0x6cu8,
            0x65u8,
            0x67u8,
            0x61u8,
            0x74u8,
            0x69u8,
            0x6fu8,
            0x6eu8,
        ];
        assert(tag@ =~= delegation_seed_tag());
        seeds.push(tag);
        seeds.push(vault.to_bytes());
        assert(seed_bytes(seeds@) =~= delegation_seeds(*vault));
        find_program_address(&seeds, program_id)
    }
}

} // verus!
