//! The bytes of the ledger's records.
//!
//! Each record is stored field by field, in the order of its declaration:
//! addresses as their 32 bytes, integers in little-endian order, a flag as one
//! byte that is 0 or 1, and an optional timestamp as a byte that is 0, or a byte
//! that is 1 followed by the timestamp. Storage may be longer than the record:
//! what follows the record is ignored.

use crate::address::Address;
use crate::vault::EphemeralVault;
use crate::vault::VaultDelegation;
use vstd::bytes::lemma_auto_spec_u64_to_from_le_bytes;
use vstd::bytes::spec_u64_from_le_bytes;
use vstd::bytes::spec_u64_to_le_bytes;
use vstd::bytes::u64_from_le_bytes;
use vstd::bytes::u64_to_le_bytes;
use vstd::prelude::*;
use vstd::slice::slice_subrange;

verus! {

broadcast use vstd::array::group_array_axioms;

/// The 64 bits of a timestamp, as an unsigned number (two's complement).
pub open spec fn timestamp_bits(timestamp: i64) -> u64 {
    if timestamp >= 0 {
        timestamp as u64
    } else {
        (timestamp + 0x1_0000_0000_0000_0000) as u64
    }
}

/// The timestamp of 64 bits.
pub open spec fn timestamp_of_bits(bits: u64) -> i64 {
    if bits < 0x8000_0000_0000_0000 {
        bits as i64
    } else {
        (bits - 0x1_0000_0000_0000_0000) as i64
    }
}

/// The eight bytes of a timestamp.
pub open spec fn timestamp_bytes(timestamp: i64) -> Seq<u8> {
    spec_u64_to_le_bytes(timestamp_bits(timestamp))
}

/// The byte of a flag.
pub open spec fn flag_byte(flag: bool) -> u8 {
    if flag {
        1
    } else {
        0
    }
}

/// The bytes of an optional timestamp.
pub open spec fn optional_timestamp_bytes(timestamp: Option<i64>) -> Seq<u8> {
    match timestamp {
        None => seq![0u8],
        Some(t) => seq![1u8] + timestamp_bytes(t),
    }
}

impl EphemeralVault {
    /// The bytes of the record.
    pub open spec fn encoding(self) -> Seq<u8> {
        self.parent_wallet@ + self.ephemeral_wallet@ + timestamp_bytes(self.session_start)
            + timestamp_bytes(self.session_expiry) + seq![flag_byte(self.is_active)]
            + spec_u64_to_le_bytes(self.total_deposited) + spec_u64_to_le_bytes(self.total_spent)
            + spec_u64_to_le_bytes(self.max_deposit) + seq![self.bump]
    }
}

impl VaultDelegation {
    /// The bytes of the record.
    pub open spec fn encoding(self) -> Seq<u8> {
        self.vault@ + self.delegate@ + timestamp_bytes(self.approved_at) + optional_timestamp_bytes(
            self.revoked_at,
        ) + seq![self.bump]
    }
}

/// Timestamps and their bits stand for each other.
pub proof fn lemma_timestamp_bits_round_trip(timestamp: i64, bits: u64)
    ensures
        timestamp_of_bits(timestamp_bits(timestamp)) == timestamp,
        timestamp_bits(timestamp_of_bits(bits)) == bits,
{
}

fn bits_of(timestamp: i64) -> (bits: u64)
    ensures
        bits == timestamp_bits(timestamp),
{
    if timestamp >= 0 {
        timestamp as u64
    } else {
        let above_least: i64 = timestamp - i64::MIN;
        above_least as u64 + 0x8000_0000_0000_0000u64
    }
}

fn timestamp_from(bits: u64) -> (timestamp: i64)
    ensures
        timestamp == timestamp_of_bits(bits),
{
    if bits < 0x8000_0000_0000_0000u64 {
        bits as i64
    } else {
        let above_least: u64 = bits - 0x8000_0000_0000_0000u64;
        above_least as i64 + i64::MIN
    }
}

fn append(out: &mut Vec<u8>, bytes: &Vec<u8>)
    ensures
        final(out)@ == old(out)@ + bytes@,
{
    let mut i: usize = 0;
    while i < bytes.len()
        invariant
            i <= bytes.len(),
            out@ == old(out)@ + bytes@.subrange(0, i as int),
        decreases bytes.len() - i,
    {
        out.push(bytes[i]);
        assert(bytes@.subrange(0, i as int).push(bytes@[i as int]) =~= bytes@.subrange(
            0,
            i + 1,
        ));
        i = i + 1;
    }
    assert(bytes@.subrange(0, bytes@.len() as int) =~= bytes@);
}

fn read_address(bytes: &[u8], at: usize) -> (address: Address)
    requires
        at + 32 <= bytes@.len(),
    ensures
        address@ == bytes@.subrange(at as int, at + 32),
{
    let length: usize = bytes.len();
    let mut out: [u8; 32] = [0u8;32];
    let mut i: usize = 0;
    while i < 32
        invariant
            i <= 32,
            at + 32 <= bytes@.len(),
            bytes@.len() == length,
            forall|j: int| 0 <= j < i ==> out@[j] == bytes@[at + j],
        decreases 32 - i,
    {
        out[i] = bytes[at + i];
        i = i + 1;
    }
    let address = Address::new(out);
    assert(address@ =~= bytes@.subrange(at as int, at + 32));
    address
}

fn read_u64(bytes: &[u8], at: usize) -> (number: u64)
    requires
        at + 8 <= bytes@.len(),
    ensures
        spec_u64_to_le_bytes(number) == bytes@.subrange(at as int, at + 8),
{
    proof {
        lemma_auto_spec_u64_to_from_le_bytes();
    }
    let _length: usize = bytes.len();
    u64_from_le_bytes(slice_subrange(bytes, at, at + 8))
}

fn read_timestamp(bytes: &[u8], at: usize) -> (timestamp: i64)
    requires
        at + 8 <= bytes@.len(),
    ensures
        timestamp_bytes(timestamp) == bytes@.subrange(at as int, at + 8),
{
    timestamp_from(read_u64(bytes, at))
}

/// Every vault record takes the same number of bytes, and its flag is 0 or 1.
pub proof fn lemma_vault_encoding_shape(vault: EphemeralVault)
    ensures
        vault.encoding().len() == EphemeralVault::LEN,
        vault.encoding().subrange(0, 32) == vault.parent_wallet@,
        vault.encoding().subrange(32, 64) == vault.ephemeral_wallet@,
        vault.encoding().subrange(64, 72) == timestamp_bytes(vault.session_start),
        vault.encoding().subrange(72, 80) == timestamp_bytes(vault.session_expiry),
        vault.encoding()[80] == flag_byte(vault.is_active),
        vault.encoding().subrange(81, 89) == spec_u64_to_le_bytes(vault.total_deposited),
        vault.encoding().subrange(89, 97) == spec_u64_to_le_bytes(vault.total_spent),
        vault.encoding().subrange(97, 105) == spec_u64_to_le_bytes(vault.max_deposit),
        vault.encoding()[105] == vault.bump,
{
    lemma_auto_spec_u64_to_from_le_bytes();
    let e = vault.encoding();
    assert(e.subrange(0, 32) =~= vault.parent_wallet@);
    assert(e.subrange(32, 64) =~= vault.ephemeral_wallet@);
    assert(e.subrange(64, 72) =~= timestamp_bytes(vault.session_start));
    assert(e.subrange(72, 80) =~= timestamp_bytes(vault.session_expiry));
    assert(e.subrange(81, 89) =~= spec_u64_to_le_bytes(vault.total_deposited));
    assert(e.subrange(89, 97) =~= spec_u64_to_le_bytes(vault.total_spent));
    assert(e.subrange(97, 105) =~= spec_u64_to_le_bytes(vault.max_deposit));
}

/// Two vault records with the same bytes are the same record.
pub proof fn lemma_vault_encoding_is_injective(left: EphemeralVault, right: EphemeralVault)
    requires
        left.encoding() == right.encoding(),
    ensures
        left == right,
{
    lemma_vault_encoding_shape(left);
    lemma_vault_encoding_shape(right);
    lemma_auto_spec_u64_to_from_le_bytes();
    lemma_timestamp_bits_round_trip(left.session_start, 0);
    lemma_timestamp_bits_round_trip(right.session_start, 0);
    lemma_timestamp_bits_round_trip(left.session_expiry, 0);
    lemma_timestamp_bits_round_trip(right.session_expiry, 0);
    assert(left.parent_wallet.bytes@ == right.parent_wallet.bytes@);
    assert(left.parent_wallet.bytes == right.parent_wallet.bytes);
    assert(left.ephemeral_wallet.bytes@ == right.ephemeral_wallet.bytes@);
    assert(left.ephemeral_wallet.bytes == right.ephemeral_wallet.bytes);
    assert(timestamp_bits(left.session_start) == timestamp_bits(right.session_start)) by {
        assert(spec_u64_from_le_bytes(timestamp_bytes(left.session_start))
            == spec_u64_from_le_bytes(timestamp_bytes(right.session_start)));
    }
    assert(timestamp_bits(left.session_expiry) == timestamp_bits(right.session_expiry)) by {
        assert(spec_u64_from_le_bytes(timestamp_bytes(left.session_expiry))
            == spec_u64_from_le_bytes(timestamp_bytes(right.session_expiry)));
    }
    assert(left.total_deposited == right.total_deposited) by {
        assert(spec_u64_from_le_bytes(spec_u64_to_le_bytes(left.total_deposited))
            == spec_u64_from_le_bytes(spec_u64_to_le_bytes(right.total_deposited)));
    }
    assert(left.total_spent == right.total_spent) by {
        assert(spec_u64_from_le_bytes(spec_u64_to_le_bytes(left.total_spent))
            == spec_u64_from_le_bytes(spec_u64_to_le_bytes(right.total_spent)));
    }
    assert(left.max_deposit == right.max_deposit) by {
        assert(spec_u64_from_le_bytes(spec_u64_to_le_bytes(left.max_deposit))
            == spec_u64_from_le_bytes(spec_u64_to_le_bytes(right.max_deposit)));
    }
}

impl EphemeralVault {
    /// The bytes of the record.
    pub fn to_bytes(&self) -> (bytes: Vec<u8>)
        ensures
            bytes@ == self.encoding(),
            bytes@.len() == EphemeralVault::LEN,
    {
        let mut out: Vec<u8> = Vec::new();
        append(&mut out, &self.parent_wallet.to_bytes());
        append(&mut out, &self.ephemeral_wallet.to_bytes());
        append(&mut out, &u64_to_le_bytes(bits_of(self.session_start)));
        append(&mut out, &u64_to_le_bytes(bits_of(self.session_expiry)));
        out.push(if self.is_active { 1u8 } else { 0u8 });
        append(&mut out, &u64_to_le_bytes(self.total_deposited));
        append(&mut out, &u64_to_le_bytes(self.total_spent));
        append(&mut out, &u64_to_le_bytes(self.max_deposit));
        out.push(self.bump);
        proof {
            lemma_vault_encoding_shape(*self);
            assert(out@ =~= self.encoding());
        }
        out
    }

    /// The record that storage holds: `Some` exactly where the storage begins
    /// with the bytes of a record, and then that record.
    pub fn from_bytes(bytes: &[u8]) -> (vault: Option<EphemeralVault>)
        ensures
            match vault {
                Some(v) => v.encoding().is_prefix_of(bytes@),
                None => forall|v: EphemeralVault| !(#[trigger] v.encoding()).is_prefix_of(bytes@),
            },
    {
        if bytes.len() < EphemeralVault::LEN {
            proof {
                assert forall|v: EphemeralVault| !(#[trigger] v.encoding()).is_prefix_of(
                    bytes@,
                ) by {
                    lemma_vault_encoding_shape(v);
                }
            }
            return None;
        }
        let flag: u8 = bytes[80];
        if flag > 1 {
            proof {
                assert forall|v: EphemeralVault| !(#[trigger] v.encoding()).is_prefix_of(
                    bytes@,
                ) by {
                    lemma_vault_encoding_shape(v);
                    if v.encoding().is_prefix_of(bytes@) {
                        assert(v.encoding()[80] == bytes@[80]);
                    }
                }
            }
            return None;
        }
        let vault = EphemeralVault {
            parent_wallet: read_address(bytes, 0),
            ephemeral_wallet: read_address(bytes, 32),
            session_start: read_timestamp(bytes, 64),
            session_expiry: read_timestamp(bytes, 72),
            is_active: flag == 1,
            total_deposited: read_u64(bytes, 81),
            total_spent: read_u64(bytes, 89),
            max_deposit: read_u64(bytes, 97),
            bump: bytes[105],
        };
        proof {
            lemma_vault_encoding_shape(vault);
            let e = vault.encoding();
            assert forall|i: int| 0 <= i < e.len() implies e[i] == bytes@[i] by {
                if i < 32 {
                    assert(e[i] == e.subrange(0, 32)[i]);
                    assert(bytes@[i] == bytes@.subrange(0, 32)[i]);
                } else if i < 64 {
                    assert(e[i] == e.subrange(32, 64)[i - 32]);
                    assert(bytes@[i] == bytes@.subrange(32, 64)[i - 32]);
                } else if i < 72 {
                    assert(e[i] == e.subrange(64, 72)[i - 64]);
                    assert(bytes@[i] == bytes@.subrange(64, 72)[i - 64]);
                } else if i < 80 {
                    assert(e[i] == e.subrange(72, 80)[i - 72]);
                    assert(bytes@[i] == bytes@.subrange(72, 80)[i - 72]);
                } else if i == 80 {
                } else if i < 89 {
                    assert(e[i] == e.subrange(81, 89)[i - 81]);
                    assert(bytes@[i] == bytes@.subrange(81, 89)[i - 81]);
                } else if i < 97 {
                    assert(e[i] == e.subrange(89, 97)[i - 89]);
                    assert(bytes@[i] == bytes@.subrange(89, 97)[i - 89]);
                } else if i < 105 {
                    assert(e[i] == e.subrange(97, 105)[i - 97]);
                    assert(bytes@[i] == bytes@.subrange(97, 105)[i - 97]);
                } else {
                }
            }
            assert(e =~= bytes@.subrange(0, e.len() as int));
        }
        Some(vault)
    }
}

/// What is written is read back: the bytes of a record, followed by anything,
/// hold that record and no other.
pub proof fn lemma_vault_is_read_back(vault: EphemeralVault, read: EphemeralVault, storage: Seq<u8>)
    requires
        vault.encoding().is_prefix_of(storage),
        read.encoding().is_prefix_of(storage),
    ensures
        read == vault,
{
    lemma_vault_encoding_shape(vault);
    lemma_vault_encoding_shape(read);
    assert(vault.encoding() =~= storage.subrange(0, EphemeralVault::LEN as int));
    assert(read.encoding() =~= storage.subrange(0, EphemeralVault::LEN as int));
    lemma_vault_encoding_is_injective(vault, read);
}

/// The shape of a delegation record's bytes: 74 of them where the delegation
/// is in force, 82 where it is revoked.
pub proof fn lemma_delegation_encoding_shape(delegation: VaultDelegation)
    ensures
        delegation.encoding().len() == if delegation.revoked_at is Some {
            VaultDelegation::LEN as int
        } else {
            VaultDelegation::LEN - 8
        },
        delegation.encoding().subrange(0, 32) == delegation.vault@,
        delegation.encoding().subrange(32, 64) == delegation.delegate@,
        delegation.encoding().subrange(64, 72) == timestamp_bytes(delegation.approved_at),
        delegation.encoding()[72] == flag_byte(delegation.revoked_at is Some),
        delegation.revoked_at matches Some(t) ==> delegation.encoding().subrange(73, 81)
            == timestamp_bytes(t) && delegation.encoding()[81] == delegation.bump,
        delegation.revoked_at is None ==> delegation.encoding()[73] == delegation.bump,
{
    lemma_auto_spec_u64_to_from_le_bytes();
    let e = delegation.encoding();
    assert(e.subrange(0, 32) =~= delegation.vault@);
    assert(e.subrange(32, 64) =~= delegation.delegate@);
    assert(e.subrange(64, 72) =~= timestamp_bytes(delegation.approved_at));
    if let Some(t) = delegation.revoked_at {
        assert(e.subrange(73, 81) =~= timestamp_bytes(t));
    }
}

/// Two delegation records with the same bytes are the same record.
pub proof fn lemma_delegation_encoding_is_injective(left: VaultDelegation, right: VaultDelegation)
    requires
        left.encoding() == right.encoding(),
    ensures
        left == right,
{
    lemma_delegation_encoding_shape(left);
    lemma_delegation_encoding_shape(right);
    lemma_auto_spec_u64_to_from_le_bytes();
    lemma_timestamp_bits_round_trip(left.approved_at, 0);
    lemma_timestamp_bits_round_trip(right.approved_at, 0);
    assert(left.vault.bytes@ == right.vault.bytes@);
    assert(left.vault.bytes == right.vault.bytes);
    assert(left.delegate.bytes@ == right.delegate.bytes@);
    assert(left.delegate.bytes == right.delegate.bytes);
    assert(timestamp_bits(left.approved_at) == timestamp_bits(right.approved_at)) by {
        assert(spec_u64_from_le_bytes(timestamp_bytes(left.approved_at))
            == spec_u64_from_le_bytes(timestamp_bytes(right.approved_at)));
    }
    if let Some(l) = left.revoked_at {
        let r = right.revoked_at->0;
        lemma_timestamp_bits_round_trip(l, 0);
        lemma_timestamp_bits_round_trip(r, 0);
        assert(timestamp_bits(l) == timestamp_bits(r)) by {
            assert(spec_u64_from_le_bytes(timestamp_bytes(l)) == spec_u64_from_le_bytes(
                timestamp_bytes(r),
            ));
        }
    }
}

impl VaultDelegation {
    /// The bytes of the record.
    pub fn to_bytes(&self) -> (bytes: Vec<u8>)
        ensures
            bytes@ == self.encoding(),
    {
        let mut out: Vec<u8> = Vec::new();
        append(&mut out, &self.vault.to_bytes());
        append(&mut out, &self.delegate.to_bytes());
        append(&mut out, &u64_to_le_bytes(bits_of(self.approved_at)));
        match self.revoked_at {
            None => {
                out.push(0u8);
            },
            Some(t) => {
                out.push(1u8);
                append(&mut out, &u64_to_le_bytes(bits_of(t)));
            },
        }
        out.push(self.bump);
        proof {
            lemma_delegation_encoding_shape(*self);
            assert(out@ =~= self.encoding());
        }
        out
    }

    /// The record that storage holds: `Some` exactly where the storage begins
    /// with the bytes of a record, and then that record.
    pub fn from_bytes(bytes: &[u8]) -> (delegation: Option<VaultDelegation>)
        ensures
            match delegation {
                Some(d) => d.encoding().is_prefix_of(bytes@),
                None => forall|d: VaultDelegation| !(#[trigger] d.encoding()).is_prefix_of(bytes@),
            },
    {
        if bytes.len() < VaultDelegation::LEN - 8 {
            proof {
                assert forall|d: VaultDelegation| !(#[trigger] d.encoding()).is_prefix_of(
                    bytes@,
                ) by {
                    lemma_delegation_encoding_shape(d);
                }
            }
            return None;
        }
        let tag: u8 = bytes[72];
        if tag > 1 || (tag == 1 && bytes.len() < VaultDelegation::LEN) {
            proof {
                assert forall|d: VaultDelegation| !(#[trigger] d.encoding()).is_prefix_of(
                    bytes@,
                ) by {
                    lemma_delegation_encoding_shape(d);
                    if d.encoding().is_prefix_of(bytes@) {
                        assert(d.encoding()[72] == bytes@[72]);
                    }
                }
            }
            return None;
        }
        let vault = read_address(bytes, 0);
        let delegate = read_address(bytes, 32);
        let approved_at: i64 = read_timestamp(bytes, 64);
        let delegation = if tag == 1 {
            VaultDelegation {
                vault,
                delegate,
                approved_at,
                revoked_at: Some(read_timestamp(bytes, 73)),
                bump: bytes[81],
            }
        } else {
            VaultDelegation { vault, delegate, approved_at, revoked_at: None, bump: bytes[73] }
        };
        proof {
            lemma_delegation_encoding_shape(delegation);
            let e = delegation.encoding();
            assert forall|i: int| 0 <= i < e.len() implies e[i] == bytes@[i] by {
                if i < 32 {
                    assert(e[i] == e.subrange(0, 32)[i]);
                    assert(bytes@[i] == bytes@.subrange(0, 32)[i]);
                } else if i < 64 {
                    assert(e[i] == e.subrange(32, 64)[i - 32]);
                    assert(bytes@[i] == bytes@.subrange(32, 64)[i - 32]);
                } else if i < 72 {
                    assert(e[i] == e.subrange(64, 72)[i - 64]);
                    assert(bytes@[i] == bytes@.subrange(64, 72)[i - 64]);
                } else if i == 72 {
                } else if tag == 1 && i < 81 {
                    assert(e[i] == e.subrange(73, 81)[i - 73]);
                    assert(bytes@[i] == bytes@.subrange(73, 81)[i - 73]);
                } else {
                }
            }
            assert(e =~= bytes@.subrange(0, e.len() as int));
        }
        Some(delegation)
    }
}

/// What is written is read back: the bytes of a delegation, followed by
/// anything, hold that delegation and no other.
pub proof fn lemma_delegation_is_read_back(
    delegation: VaultDelegation,
    read: VaultDelegation,
    storage: Seq<u8>,
)
    requires
        delegation.encoding().is_prefix_of(storage),
        read.encoding().is_prefix_of(storage),
    ensures
        read == delegation,
{
    lemma_delegation_encoding_shape(delegation);
    lemma_delegation_encoding_shape(read);
    assert(delegation.encoding()[72] == storage[72]);
    assert(read.encoding()[72] == storage[72]);
    assert(delegation.encoding() =~= storage.subrange(0, delegation.encoding().len() as int));
    assert(read.encoding() =~= storage.subrange(0, read.encoding().len() as int));
    lemma_delegation_encoding_is_injective(delegation, read);
}

} // verus!
