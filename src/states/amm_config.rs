use crate::codec::{has_prefix, keys_equal, read_key, read_u16, read_u64, u64_at};
use crate::error::CpmmError;
use crate::host::account_data;
use crate::ID;
use pinocchio::account_info::AccountInfo;
use pinocchio::pubkey::Pubkey;
use vstd::bytes::spec_u16_from_le_bytes;
use vstd::prelude::*;
use vstd::slice::slice_subrange;

verus! {

/// Protocol-wide fee settings of the downstream program.
///
/// Stored tagged: the 8-byte `DISCRIMINATOR`, then the fields in declaration
/// order, integers little-endian, `disable_create_pool` as one byte 0 or 1.
#[derive(Clone, Copy, Debug, PartialEq, Eq)]
pub struct AmmConfig {
    /// Bump to identify PDA
    pub bump: u8,
    /// Status to control if new pool can be create
    pub disable_create_pool: bool,
    /// Config index
    pub index: u16,
    /// The trade fee, denominated in hundredths of a bip (10^-6)
    pub trade_fee_rate: u64,
    /// The protocol fee
    pub protocol_fee_rate: u64,
    /// The fund fee, denominated in hundredths of a bip (10^-6)
    pub fund_fee_rate: u64,
    /// Fee for create a new pool
    pub create_pool_fee: u64,
    /// Address of the protocol fee owner
    pub protocol_owner: Pubkey,
    /// Address of the fund fee owner
    pub fund_owner: Pubkey,
    /// padding
    pub padding: [u64; 16],
}

impl Default for AmmConfig {
    fn default() -> (r: Self)
        ensures
            r.bump == 0,
            !r.disable_create_pool,
            r.index == 0,
            r.trade_fee_rate == 0,
            r.protocol_fee_rate == 0,
            r.fund_fee_rate == 0,
            r.create_pool_fee == 0,
            forall|i: int| 0 <= i < 32 ==> r.protocol_owner@[i] == 0 && r.fund_owner@[i] == 0,
            forall|i: int| 0 <= i < 16 ==> r.padding@[i] == 0,
    {
        AmmConfig {
            bump: 0,
            disable_create_pool: false,
            index: 0,
            trade_fee_rate: 0,
            protocol_fee_rate: 0,
            fund_fee_rate: 0,
            create_pool_fee: 0,
            protocol_owner: [0u8; 32],
            fund_owner: [0u8; 32],
            padding: [0u64; 16],
        }
    }
}

impl AmmConfig {
    /// Length of the stored record, tag included.
    pub const LEN: usize = 236;

    /// Length of the record after its tag.
    pub const BODY_LEN: usize = 228;

    /// Tag that opens a stored configuration record.
    pub const DISCRIMINATOR: [u8; 8] = [218, 244, 33, 104, 203, 203, 43, 111];

    /// Whether `b`, a record without its tag, can be read: exact length and a
    /// flag byte of 0 or 1.
    pub open spec fn body_ok(b: Seq<u8>) -> bool {
        b.len() == Self::BODY_LEN && (b[1] == 0 || b[1] == 1)
    }

    /// Whether `b` is a readable stored record: exact length, tag, readable body.
    pub open spec fn record_ok(b: Seq<u8>) -> bool {
        b.len() == Self::LEN && b.subrange(0, 8) == Self::DISCRIMINATOR@ && Self::body_ok(b.skip(8))
    }

    /// Whether every field of this configuration is the one stored in `b`, a
    /// record without its tag.
    pub open spec fn decoded_from(self, b: Seq<u8>) -> bool {
        &&& self.bump == b[0]
        &&& self.disable_create_pool == (b[1] == 1)
        &&& self.index == spec_u16_from_le_bytes(b.subrange(2, 4))
        &&& self.trade_fee_rate == u64_at(b, 4)
        &&& self.protocol_fee_rate == u64_at(b, 12)
        &&& self.fund_fee_rate == u64_at(b, 20)
        &&& self.create_pool_fee == u64_at(b, 28)
        &&& self.protocol_owner@ == b.subrange(36, 68)
        &&& self.fund_owner@ == b.subrange(68, 100)
        &&& forall|i: int| 0 <= i < 16 ==> #[trigger] self.padding@[i] == u64_at(b, 100 + 8 * i)
    }

    /// Reads a configuration from a record without its tag.
    pub fn from_bytes(bytes: &[u8]) -> (r: Result<AmmConfig, CpmmError>)
        ensures
            r is Ok <==> Self::body_ok(bytes@),
            r matches Ok(config) ==> config.decoded_from(bytes@),
            !Self::body_ok(bytes@) ==> r == Err::<AmmConfig, CpmmError>(
                CpmmError::InvalidAccountData,
            ),
    {
        if bytes.len() != Self::BODY_LEN {
            return Err(CpmmError::InvalidAccountData);
        }
        let flag = bytes[1];
        if flag > 1 {
            return Err(CpmmError::InvalidAccountData);
        }
        let mut padding = [0u64; 16];
        let mut i: usize = 0;
        while i < 16
            invariant
                i <= 16,
                bytes@.len() == Self::BODY_LEN,
                forall|j: int| 0 <= j < i ==> #[trigger] padding@[j] == u64_at(bytes@, 100 + 8 * j),
            decreases 16 - i,
        {
            padding[i] = read_u64(bytes, 100 + 8 * i);
            i = i + 1;
        }
        Ok(AmmConfig {
            bump: bytes[0],
            disable_create_pool: flag == 1,
            index: read_u16(bytes, 2),
            trade_fee_rate: read_u64(bytes, 4),
            protocol_fee_rate: read_u64(bytes, 12),
            fund_fee_rate: read_u64(bytes, 20),
            create_pool_fee: read_u64(bytes, 28),
            protocol_owner: read_key(bytes, 36),
            fund_owner: read_key(bytes, 68),
            padding,
        })
    }

    /// Reads a stored record: checks its length and tag, then its body.
    pub fn try_deserialize(buf: &mut &[u8]) -> (r: Result<Self, CpmmError>)
        ensures
            *final(buf) == *old(buf),
            r is Ok <==> Self::record_ok(old(buf)@),
            r matches Ok(config) ==> config.decoded_from(old(buf)@.skip(8)),
            !Self::record_ok(old(buf)@) ==> r == Err::<Self, CpmmError>(
                CpmmError::InvalidAccountData,
            ),
    {
        if !has_prefix(*buf, &Self::DISCRIMINATOR) {
            return Err(CpmmError::InvalidAccountData);
        }
        Self::try_deserialize_unchecked(buf)
    }

    /// Reads a stored record without looking at its tag; its length is still
    /// checked.
    pub fn try_deserialize_unchecked(buf: &mut &[u8]) -> (r: Result<Self, CpmmError>)
        ensures
            *final(buf) == *old(buf),
            r is Ok <==> old(buf)@.len() == Self::LEN && Self::body_ok(old(buf)@.skip(8)),
            r matches Ok(config) ==> config.decoded_from(old(buf)@.skip(8)),
            !(old(buf)@.len() == Self::LEN && Self::body_ok(old(buf)@.skip(8))) ==> r == Err::<
                Self,
                CpmmError,
            >(CpmmError::InvalidAccountData),
    {
        let data: &[u8] = *buf;
        if data.len() != Self::LEN {
            return Err(CpmmError::InvalidAccountData);
        }
        Self::from_bytes(slice_subrange(data, 8, Self::LEN))
    }

    /// Reads a stored record from what was learned of its account: whether the
    /// downstream program owns it, then its data, or `None` when the data
    /// could not be borrowed. The owner is checked first, then the borrow, then
    /// the record as `try_deserialize` reads it.
    pub fn from_account_parts(owned: bool, data: Option<&[u8]>) -> (r: Result<Self, CpmmError>)
        ensures
            !owned ==> r == Err::<Self, CpmmError>(CpmmError::InvalidOwner),
            owned && data is None ==> r == Err::<Self, CpmmError>(CpmmError::AccountBorrowFailed),
            owned ==> (data matches Some(d) ==> {
                &&& r is Ok <==> Self::record_ok(d@)
                &&& r matches Ok(config) ==> config.decoded_from(d@.skip(8))
                &&& !Self::record_ok(d@) ==> r == Err::<Self, CpmmError>(
                    CpmmError::InvalidAccountData,
                )
            }),
    {
        if !owned {
            return Err(CpmmError::InvalidOwner);
        }
        match data {
            Some(bytes) => {
                let mut buf = bytes;
                Self::try_deserialize(&mut buf)
            },
            None => Err(CpmmError::AccountBorrowFailed),
        }
    }

    /// Reads a stored record from an account's owner and data: the owner must
    /// be the downstream program, then the record is read as `try_deserialize`
    /// does.
    pub fn from_account_data(owner: &Pubkey, data: &[u8]) -> (r: Result<Self, CpmmError>)
        ensures
            owner@ != ID@ ==> r == Err::<Self, CpmmError>(CpmmError::InvalidOwner),
            owner@ == ID@ ==> (r is Ok <==> Self::record_ok(data@)),
            owner@ == ID@ && !Self::record_ok(data@) ==> r == Err::<Self, CpmmError>(
                CpmmError::InvalidAccountData,
            ),
            r matches Ok(config) ==> config.decoded_from(data@.skip(8)),
    {
        Self::from_account_parts(keys_equal(owner, &ID), Some(data))
    }

    /// Reads the record stored in an account: the account must be owned by the
    /// downstream program, its data must not be mutably borrowed, and the
    /// record must be readable. Its data is borrowed only when the owner
    /// matches, and the borrow ends before this returns.
    pub fn from_account_info(account_info: &AccountInfo) -> (r: Result<AmmConfig, CpmmError>)
        ensures
            r matches Ok(config) ==> exists|b: Seq<u8>|
                Self::record_ok(b) && #[trigger] config.decoded_from(b.skip(8)),
            r matches Err(e) ==> {
                ||| e is InvalidOwner
                ||| e is AccountBorrowFailed
                ||| e is InvalidAccountData
            },
    {
        let owned = account_info.is_owned_by(&ID);
        let borrowed = if owned {
            Some(account_data(account_info))
        } else {
            None
        };
        match borrowed {
            Some(Ok(data)) => Self::from_account_parts(true, Some(data.as_slice())),
            _ => Self::from_account_parts(owned, None),
        }
    }

    /// The tag of a stored record.
    pub fn discriminator() -> (r: [u8; 8])
        ensures
            r == Self::DISCRIMINATOR,
    {
        Self::DISCRIMINATOR
    }

    /// The program that owns configuration accounts.
    pub fn owner() -> (r: Pubkey)
        ensures
            r == ID,
    {
        ID
    }

    /// Length of a stored record, tag included.
    pub fn size() -> (r: usize)
        ensures
            r == Self::LEN,
    {
        Self::LEN
    }
}

} // verus!
