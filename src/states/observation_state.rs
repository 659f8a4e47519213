use crate::codec::{has_prefix, keys_equal, read_key, read_u16, read_u64, u64_at};
use crate::error::CpmmError;
use crate::host::account_data;
use crate::states::Observation;
use crate::ID;
use pinocchio::account_info::AccountInfo;
use pinocchio::pubkey::Pubkey;
use vstd::bytes::spec_u16_from_le_bytes;
use vstd::prelude::*;
use vstd::slice::slice_subrange;

verus! {

/// A pool's price history: a ring of 100 samples and the index of the latest.
///
/// Stored tagged: the 8-byte `DISCRIMINATOR`, then the fields packed in
/// declaration order, integers little-endian, `initialized` as one byte 0 or 1.
#[derive(Clone, Copy, Debug, PartialEq, Eq)]
pub struct ObservationState {
    /// Whether the ObservationState is initialized
    pub initialized: bool,
    /// the most-recently updated index of the observations array
    pub observation_index: u16,
    pub pool_id: Pubkey,
    /// observation array
    pub observations: [Observation; 100],
    /// padding for feature update
    pub padding: [u64; 4],
}

impl ObservationState {
    /// Length of the record after its tag.
    pub const LEN: usize = 4067;

    /// Tag that opens a stored observation record.
    pub const DISCRIMINATOR: [u8; 8] = [122, 174, 197, 53, 129, 9, 165, 132];

    /// Whether `b`, a record without its tag, can be read: exact length and an
    /// `initialized` byte of 0 or 1.
    pub open spec fn body_ok(b: Seq<u8>) -> bool {
        b.len() == Self::LEN && (b[0] == 0 || b[0] == 1)
    }

    /// Whether `b` is a readable stored record: exact length, tag, readable body.
    pub open spec fn record_ok(b: Seq<u8>) -> bool {
        b.len() == Self::LEN + 8 && b.subrange(0, 8) == Self::DISCRIMINATOR@ && Self::body_ok(
            b.skip(8),
        )
    }

    /// Whether every field of this record is the one stored in `b`, a record
    /// without its tag.
    pub open spec fn decoded_from(self, b: Seq<u8>) -> bool {
        &&& self.initialized == (b[0] == 1)
        &&& self.observation_index == spec_u16_from_le_bytes(b.subrange(1, 3))
        &&& self.pool_id@ == b.subrange(3, 35)
        &&& forall|i: int|
            0 <= i < 100 ==> #[trigger] self.observations@[i].decoded_from(b, 35 + 40 * i)
        &&& forall|i: int| 0 <= i < 4 ==> #[trigger] self.padding@[i] == u64_at(b, 4035 + 8 * i)
    }

    /// Reads an observation record from its bytes without the tag.
    pub fn from_bytes(bytes: &[u8]) -> (r: Result<ObservationState, CpmmError>)
        ensures
            r is Ok <==> Self::body_ok(bytes@),
            r matches Ok(state) ==> state.decoded_from(bytes@),
            !Self::body_ok(bytes@) ==> r == Err::<ObservationState, CpmmError>(
                CpmmError::InvalidAccountData,
            ),
    {
        if bytes.len() != Self::LEN {
            return Err(CpmmError::InvalidAccountData);
        }
        let flag = bytes[0];
        if flag > 1 {
            return Err(CpmmError::InvalidAccountData);
        }
        let empty = Observation {
            block_timestamp: 0,
            cumulative_token_0_price_x32: 0,
            cumulative_token_1_price_x32: 0,
        };
        let mut observations = [empty; 100];
        let mut i: usize = 0;
        while i < 100
            invariant
                i <= 100,
                bytes@.len() == Self::LEN,
                forall|j: int|
                    0 <= j < i ==> #[trigger] observations@[j].decoded_from(bytes@, 35 + 40 * j),
            decreases 100 - i,
        {
            observations[i] = Observation::read(bytes, 35 + 40 * i);
            i = i + 1;
        }
        let mut padding = [0u64; 4];
        let mut k: usize = 0;
        while k < 4
            invariant
                k <= 4,
                bytes@.len() == Self::LEN,
                forall|j: int| 0 <= j < k ==> #[trigger] padding@[j] == u64_at(bytes@, 4035 + 8 * j),
            decreases 4 - k,
        {
            padding[k] = read_u64(bytes, 4035 + 8 * k);
            k = k + 1;
        }
        Ok(ObservationState {
            initialized: flag == 1,
            observation_index: read_u16(bytes, 1),
            pool_id: read_key(bytes, 3),
            observations,
            padding,
        })
    }

    /// Whether the series has been initialized.
    pub fn is_initialized(&self) -> (r: bool)
        ensures
            r == self.initialized,
    {
        self.initialized
    }

    /// Reads a stored record: checks its length and tag, then its body.
    pub fn try_deserialize(buf: &mut &[u8]) -> (r: Result<Self, CpmmError>)
        ensures
            *final(buf) == *old(buf),
            r is Ok <==> Self::record_ok(old(buf)@),
            r matches Ok(state) ==> state.decoded_from(old(buf)@.skip(8)),
            !Self::record_ok(old(buf)@) ==> r == Err::<Self, CpmmError>(
                CpmmError::InvalidAccountData,
            ),
    {
        if !has_prefix(*buf, &Self::DISCRIMINATOR) {
            return Err(CpmmError::InvalidAccountData);
        }
        Self::try_deserialize_unchecked(buf)
    }

    /// Reads a stored record without looking at its tag; its length is still
    /// checked.
    pub fn try_deserialize_unchecked(buf: &mut &[u8]) -> (r: Result<Self, CpmmError>)
        ensures
            *final(buf) == *old(buf),
            r is Ok <==> old(buf)@.len() == Self::LEN + 8 && Self::body_ok(old(buf)@.skip(8)),
            r matches Ok(state) ==> state.decoded_from(old(buf)@.skip(8)),
            !(old(buf)@.len() == Self::LEN + 8 && Self::body_ok(old(buf)@.skip(8))) ==> r
                == Err::<Self, CpmmError>(CpmmError::InvalidAccountData),
    {
        let data: &[u8] = *buf;
        if data.len() != Self::LEN + 8 {
            return Err(CpmmError::InvalidAccountData);
        }
        Self::from_bytes(slice_subrange(data, 8, Self::LEN + 8))
    }

    /// Reads a stored record from what was learned of its account: whether the
    /// downstream program owns it, then its data, or `None` when the data
    /// could not be borrowed. The owner is checked first, then the borrow, then
    /// the record as `try_deserialize` reads it.
    pub fn from_account_parts(owned: bool, data: Option<&[u8]>) -> (r: Result<Self, CpmmError>)
        ensures
            !owned ==> r == Err::<Self, CpmmError>(CpmmError::InvalidOwner),
            owned && data is None ==> r == Err::<Self, CpmmError>(CpmmError::AccountBorrowFailed),
            owned ==> (data matches Some(d) ==> {
                &&& r is Ok <==> Self::record_ok(d@)
                &&& r matches Ok(state) ==> state.decoded_from(d@.skip(8))
                &&& !Self::record_ok(d@) ==> r == Err::<Self, CpmmError>(
                    CpmmError::InvalidAccountData,
                )
            }),
    {
        if !owned {
            return Err(CpmmError::InvalidOwner);
        }
        match data {
            Some(bytes) => {
                let mut buf = bytes;
                Self::try_deserialize(&mut buf)
            },
            None => Err(CpmmError::AccountBorrowFailed),
        }
    }

    /// Reads a stored record from an account's owner and data, as the unchecked
    /// account reader does: the length is checked first, then the owner must
    /// be the downstream program, then the record is read as `try_deserialize`
    /// does.
    pub fn from_account_data(owner: &Pubkey, data: &[u8]) -> (r: Result<Self, CpmmError>)
        ensures
            data@.len() != Self::LEN + 8 ==> r == Err::<Self, CpmmError>(
                CpmmError::InvalidAccountData,
            ),
            data@.len() == Self::LEN + 8 && owner@ != ID@ ==> r == Err::<Self, CpmmError>(
                CpmmError::InvalidOwner,
            ),
            owner@ == ID@ ==> (r is Ok <==> Self::record_ok(data@)),
            owner@ == ID@ && !Self::record_ok(data@) ==> r == Err::<Self, CpmmError>(
                CpmmError::InvalidAccountData,
            ),
            r matches Ok(state) ==> state.decoded_from(data@.skip(8)),
    {
        if data.len() != Self::LEN + 8 {
            return Err(CpmmError::InvalidAccountData);
        }
        Self::from_account_parts(keys_equal(owner, &ID), Some(data))
    }

    /// Reads the record stored in an account: the account must be owned by the
    /// downstream program, its data must not be mutably borrowed, and the
    /// record must be readable. Its data is borrowed only when the owner
    /// matches, and the borrow ends before this returns.
    pub fn from_account_info(account_info: &AccountInfo) -> (r: Result<ObservationState, CpmmError>)
        ensures
            r matches Ok(state) ==> exists|b: Seq<u8>|
                Self::record_ok(b) && #[trigger] state.decoded_from(b.skip(8)),
            r matches Err(e) ==> {
                ||| e is InvalidOwner
                ||| e is AccountBorrowFailed
                ||| e is InvalidAccountData
            },
    {
        let owned = account_info.is_owned_by(&ID);
        let borrowed = if owned {
            Some(account_data(account_info))
        } else {
            None
        };
        match borrowed {
            Some(Ok(data)) => Self::from_account_parts(true, Some(data.as_slice())),
            _ => Self::from_account_parts(owned, None),
        }
    }

    /// The tag of a stored record.
    pub fn discriminator() -> (r: [u8; 8])
        ensures
            r == Self::DISCRIMINATOR,
    {
        Self::DISCRIMINATOR
    }

    /// The program that owns observation accounts.
    pub fn owner() -> (r: Pubkey)
        ensures
            r == ID,
    {
        ID
    }

    /// Length of a stored record, tag included.
    pub fn size() -> (r: usize)
        ensures
            r == Self::LEN + 8,
    {
        Self::LEN + 8
    }
}

} // verus!
