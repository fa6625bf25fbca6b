//! The two records that the program keeps: the configuration of a campaign
//! and the claim state of one user in it, with their stored layout.
//!
//! Both layouts are fixed-width. A flag is one byte, `0` or `1`; an address
//! is its 32 bytes; an amount is 8 bytes, little-endian.

use vstd::prelude::*;
use crate::address::Address;
use crate::codec::{
    append_bytes, append_u64, lemma_u64_le_read_write, lemma_u64_le_write_read, read_array,
    read_u64, spec_u64_from_le, spec_u64_to_le,
};
use crate::error::AirdropError;

verus! {

/// Stored size of an [`AirdropConfig`].
pub const AIRDROP_CONFIG_LEN: usize = 154;

/// Stored size of an [`AirdropUserData`].
pub const AIRDROP_USER_DATA_LEN: usize = 67;

/// One airdrop campaign.
#[derive(Clone, Copy, Debug, PartialEq, Eq)]
pub struct AirdropConfig {
    /// Set when the campaign is first populated, and never cleared.
    pub is_initialized: bool,
    /// Who runs the campaign.
    pub authority: Address,
    /// The derived address that signs for the campaign's mints.
    pub mint_authority: Address,
    /// Where the revenue of the campaign goes.
    pub revenue: Address,
    /// How many tokens the campaign gives away in total.
    pub airdrop_amount: u64,
    pub metadata_prefix: [u8; 32],
    pub symbol: [u8; 8],
    /// Price of one unit.
    pub price: u64,
    /// Bump seed of `mint_authority`.
    pub mint_authority_bump: u8,
}

/// An [`AirdropConfig`] as plain values.
pub struct AirdropConfigView {
    pub is_initialized: bool,
    pub authority: Seq<u8>,
    pub mint_authority: Seq<u8>,
    pub revenue: Seq<u8>,
    pub airdrop_amount: u64,
    pub metadata_prefix: Seq<u8>,
    pub symbol: Seq<u8>,
    pub price: u64,
    pub mint_authority_bump: u8,
}

impl View for AirdropConfig {
    type V = AirdropConfigView;

    open spec fn view(&self) -> AirdropConfigView {
        AirdropConfigView {
            is_initialized: self.is_initialized,
            authority: self.authority@,
            mint_authority: self.mint_authority@,
            revenue: self.revenue@,
            airdrop_amount: self.airdrop_amount,
            metadata_prefix: self.metadata_prefix@,
            symbol: self.symbol@,
            price: self.price,
            mint_authority_bump: self.mint_authority_bump,
        }
    }
}

/// The byte that stores a flag.
pub open spec fn spec_flag_byte(flag: bool) -> u8 {
    if flag {
        1
    } else {
        0
    }
}

impl AirdropConfigView {
    /// Every field has the width that the stored layout gives it.
    pub open spec fn wf(self) -> bool {
        &&& self.authority.len() == 32
        &&& self.mint_authority.len() == 32
        &&& self.revenue.len() == 32
        &&& self.metadata_prefix.len() == 32
        &&& self.symbol.len() == 8
    }

    /// The stored bytes of the record.
    pub open spec fn spec_pack(self) -> Seq<u8> {
        seq![spec_flag_byte(self.is_initialized)] + self.authority + self.mint_authority
            + self.revenue + spec_u64_to_le(self.airdrop_amount) + self.metadata_prefix
            + self.symbol + spec_u64_to_le(self.price) + seq![self.mint_authority_bump]
    }

    /// The record that `data` stores, if `data` has the layout of one.
    pub open spec fn spec_unpack(data: Seq<u8>) -> Option<AirdropConfigView> {
        if data.len() == AIRDROP_CONFIG_LEN && data[0] <= 1 {
            Some(
                AirdropConfigView {
                    is_initialized: data[0] == 1,
                    authority: data.subrange(1, 33),
                    mint_authority: data.subrange(33, 65),
                    revenue: data.subrange(65, 97),
                    airdrop_amount: spec_u64_from_le(data.subrange(97, 105)) as u64,
                    metadata_prefix: data.subrange(105, 137),
                    symbol: data.subrange(137, 145),
                    price: spec_u64_from_le(data.subrange(145, 153)) as u64,
                    mint_authority_bump: data[153],
                },
            )
        } else {
            None
        }
    }
}

impl AirdropConfig {
    /// Whether the campaign has been populated.
    pub fn is_initialized(&self) -> (flag: bool)
        ensures
            flag == self.is_initialized,
    {
        self.is_initialized
    }

    /// The stored bytes of the record.
    pub fn pack(&self) -> (data: Vec<u8>)
        ensures
            data@ == self@.spec_pack(),
            data@.len() == AIRDROP_CONFIG_LEN,
    {
        let mut data: Vec<u8> = Vec::new();
        data.push(if self.is_initialized { 1u8 } else { 0u8 });
        append_bytes(&mut data, self.authority.bytes.as_slice());
        append_bytes(&mut data, self.mint_authority.bytes.as_slice());
        append_bytes(&mut data, self.revenue.bytes.as_slice());
        append_u64(&mut data, self.airdrop_amount);
        append_bytes(&mut data, self.metadata_prefix.as_slice());
        append_bytes(&mut data, self.symbol.as_slice());
        append_u64(&mut data, self.price);
        data.push(self.mint_authority_bump);
        assert(data@ =~= self@.spec_pack());
        data
    }

    /// Reads a record from its stored bytes. Fails with
    /// `DeserializationFailed` unless `data` has exactly the stored size and
    /// its flag byte is `0` or `1`.
    pub fn unpack(data: &[u8]) -> (record: Result<AirdropConfig, AirdropError>)
        ensures
            match record {
                Ok(config) => AirdropConfigView::spec_unpack(data@) == Some(config@),
                Err(error) => error == AirdropError::DeserializationFailed
                    && AirdropConfigView::spec_unpack(data@) is None,
            },
    {
        if data.len() != AIRDROP_CONFIG_LEN || data[0] > 1 {
            return Err(AirdropError::DeserializationFailed);
        }
        proof {
            lemma_u64_le_read_write(data@.subrange(97, 105));
            lemma_u64_le_read_write(data@.subrange(145, 153));
        }
        Ok(
            AirdropConfig {
                is_initialized: data[0] == 1,
                authority: Address::new(read_array::<32>(data, 1)),
                mint_authority: Address::new(read_array::<32>(data, 33)),
                revenue: Address::new(read_array::<32>(data, 65)),
                airdrop_amount: read_u64(data, 97),
                metadata_prefix: read_array::<32>(data, 105),
                symbol: read_array::<8>(data, 137),
                price: read_u64(data, 145),
                mint_authority_bump: data[153],
            },
        )
    }
}

/// A record is what its stored bytes are read as; and bytes that are read as
/// a record are the stored bytes of that record.
pub proof fn lemma_config_pack_unpack(record: AirdropConfigView, data: Seq<u8>)
    ensures
        record.wf() ==> AirdropConfigView::spec_unpack(record.spec_pack()) == Some(record),
        AirdropConfigView::spec_unpack(data) == Some(record) ==> record.wf() && record.spec_pack()
            == data,
{
    if record.wf() {
        let packed = record.spec_pack();
        lemma_u64_le_write_read(record.airdrop_amount);
        lemma_u64_le_write_read(record.price);
        assert(packed.len() == 154);
        assert(packed.subrange(1, 33) =~= record.authority);
        assert(packed.subrange(33, 65) =~= record.mint_authority);
        assert(packed.subrange(65, 97) =~= record.revenue);
        assert(packed.subrange(97, 105) =~= spec_u64_to_le(record.airdrop_amount));
        assert(packed.subrange(105, 137) =~= record.metadata_prefix);
        assert(packed.subrange(137, 145) =~= record.symbol);
        assert(packed.subrange(145, 153) =~= spec_u64_to_le(record.price));
    }
    if AirdropConfigView::spec_unpack(data) == Some(record) {
        lemma_u64_le_read_write(data.subrange(97, 105));
        lemma_u64_le_read_write(data.subrange(145, 153));
        assert(record.spec_pack() =~= data);
    }
}

/// The claim state of one user in one campaign.
#[derive(Clone, Copy, Debug, PartialEq, Eq)]
pub struct AirdropUserData {
    /// Set when the record is created.
    pub is_initialized: bool,
    /// The user that the record belongs to.
    pub user: Address,
    /// The config account of the campaign.
    pub airdrop: Address,
    /// Bump seed of the record's own derived address.
    pub bump: u8,
    /// Set once the user has minted.
    pub claimed: bool,
}

/// An [`AirdropUserData`] as plain values.
pub struct AirdropUserDataView {
    pub is_initialized: bool,
    pub user: Seq<u8>,
    pub airdrop: Seq<u8>,
    pub bump: u8,
    pub claimed: bool,
}

impl View for AirdropUserData {
    type V = AirdropUserDataView;

    open spec fn view(&self) -> AirdropUserDataView {
        AirdropUserDataView {
            is_initialized: self.is_initialized,
            user: self.user@,
            airdrop: self.airdrop@,
            bump: self.bump,
            claimed: self.claimed,
        }
    }
}

impl AirdropUserDataView {
    /// Every field has the width that the stored layout gives it.
    pub open spec fn wf(self) -> bool {
        &&& self.user.len() == 32
        &&& self.airdrop.len() == 32
    }

    /// The stored bytes of the record.
    pub open spec fn spec_pack(self) -> Seq<u8> {
        seq![spec_flag_byte(self.is_initialized)] + self.user + self.airdrop + seq![
            self.bump,
            spec_flag_byte(self.claimed),
        ]
    }

    /// The record that `data` stores, if `data` has the layout of one.
    pub open spec fn spec_unpack(data: Seq<u8>) -> Option<AirdropUserDataView> {
        if data.len() == AIRDROP_USER_DATA_LEN && data[0] <= 1 && data[66] <= 1 {
            Some(
                AirdropUserDataView {
                    is_initialized: data[0] == 1,
                    user: data.subrange(1, 33),
                    airdrop: data.subrange(33, 65),
                    bump: data[65],
                    claimed: data[66] == 1,
                },
            )
        } else {
            None
        }
    }
}

impl AirdropUserData {
    /// Whether the record has been created.
    pub fn is_initialized(&self) -> (flag: bool)
        ensures
            flag == self.is_initialized,
    {
        self.is_initialized
    }

    /// The stored bytes of the record.
    pub fn pack(&self) -> (data: Vec<u8>)
        ensures
            data@ == self@.spec_pack(),
            data@.len() == AIRDROP_USER_DATA_LEN,
    {
        let mut data: Vec<u8> = Vec::new();
        data.push(if self.is_initialized { 1u8 } else { 0u8 });
        append_bytes(&mut data, self.user.bytes.as_slice());
        append_bytes(&mut data, self.airdrop.bytes.as_slice());
        data.push(self.bump);
        data.push(if self.claimed { 1u8 } else { 0u8 });
        assert(data@ =~= self@.spec_pack());
        data
    }

    /// Reads a record from its stored bytes. Fails with
    /// `DeserializationFailed` unless `data` has exactly the stored size and
    /// both flag bytes are `0` or `1`.
    pub fn unpack(data: &[u8]) -> (record: Result<AirdropUserData, AirdropError>)
        ensures
            match record {
                Ok(user_data) => AirdropUserDataView::spec_unpack(data@) == Some(user_data@),
                Err(error) => error == AirdropError::DeserializationFailed
                    && AirdropUserDataView::spec_unpack(data@) is None,
            },
    {
        if data.len() != AIRDROP_USER_DATA_LEN || data[0] > 1 || data[66] > 1 {
            return Err(AirdropError::DeserializationFailed);
        }
        Ok(
            AirdropUserData {
                is_initialized: data[0] == 1,
                user: Address::new(read_array::<32>(data, 1)),
                airdrop: Address::new(read_array::<32>(data, 33)),
                bump: data[65],
                claimed: data[66] == 1,
            },
        )
    }
}

/// A record is what its stored bytes are read as; and bytes that are read as
/// a record are the stored bytes of that record.
pub proof fn lemma_user_data_pack_unpack(record: AirdropUserDataView, data: Seq<u8>)
    ensures
        record.wf() ==> AirdropUserDataView::spec_unpack(record.spec_pack()) == Some(record),
        AirdropUserDataView::spec_unpack(data) == Some(record) ==> record.wf()
            && record.spec_pack() == data,
{
    if record.wf() {
        let packed = record.spec_pack();
        assert(packed.len() == 67);
        assert(packed.subrange(1, 33) =~= record.user);
        assert(packed.subrange(33, 65) =~= record.airdrop);
    }
    if AirdropUserDataView::spec_unpack(data) == Some(record) {
        assert(record.spec_pack() =~= data);
    }
}

} // verus!
