//! The bus account: a counter of the rewards that one bus may still issue
//! in the current epoch.

use solana_program::program_error::ProgramError;
use vstd::bytes::{
    lemma_auto_spec_u64_to_from_le_bytes, spec_u64_from_le_bytes, spec_u64_to_le_bytes,
    u64_from_le_bytes, u64_to_le_bytes,
};
use vstd::prelude::*;

use crate::error::{program_error_from_number, program_error_from_u64, INVALID_ACCOUNT_DATA};
use crate::utils::{AccountDiscriminator, Discriminator};

verus! {

/// Bus accounts are responsible for distributing mining rewards.
/// There are 8 busses in all, to minimize write-lock contention and allow
/// parallel mine operations. Every epoch, the reward counters of the busses
/// are topped up to 2.5 MARS each (20 MARS split amongst 8 busses).
#[derive(Clone, Copy, Debug, PartialEq, Eq, Structural)]
pub struct Bus {
    /// The ID of the bus account.
    pub id: u64,
    /// The quantity of rewards this bus can issue in the current epoch.
    pub rewards: u64,
}

/// Length of the account header that precedes the account's fields.
pub const HEADER_LEN: usize = 8;

/// Length of the encoded fields of a bus.
pub const BUS_LEN: usize = 16;

impl Bus {
    /// The bus in its in-memory layout: `id`, then `rewards`, each as eight
    /// little-endian bytes.
    pub open spec fn spec_to_bytes(self) -> Seq<u8> {
        spec_u64_to_le_bytes(self.id) + spec_u64_to_le_bytes(self.rewards)
    }

    /// The bus that the fields part of account data (the bytes after the
    /// header) encodes.
    pub open spec fn spec_from_fields(fields: Seq<u8>) -> Bus {
        Bus {
            id: spec_u64_from_le_bytes(fields.subrange(0, 8)),
            rewards: spec_u64_from_le_bytes(fields.subrange(8, 16)),
        }
    }

    /// Account data holds a bus when its first byte is the bus discriminator
    /// and the header is followed by exactly the bus's fields.
    pub open spec fn spec_is_bus_data(data: Seq<u8>) -> bool {
        &&& data.len() > 0
        &&& data[0] == AccountDiscriminator::Bus.spec_code()
        &&& data.len() == HEADER_LEN + BUS_LEN
    }

    /// What reading a bus out of account data gives.
    pub open spec fn spec_try_from_bytes(data: Seq<u8>) -> Option<Bus> {
        if Self::spec_is_bus_data(data) {
            Some(Self::spec_from_fields(data.subrange(HEADER_LEN as int, data.len() as int)))
        } else {
            None
        }
    }

    /// The account data on which reading a bus does not panic: there is a
    /// first byte, and where it is the bus discriminator, a whole header.
    pub open spec fn readable(data: Seq<u8>) -> bool {
        &&& data.len() > 0
        &&& data[0] == AccountDiscriminator::Bus.spec_code() ==> data.len() >= HEADER_LEN
    }

    /// The bus's bytes in its in-memory layout.
    pub fn to_bytes(&self) -> (b: Vec<u8>)
        ensures
            b@ == self.spec_to_bytes(),
            b@.len() == 16,
            spec_u64_from_le_bytes(b@.subrange(0, 8)) == self.id,
            spec_u64_from_le_bytes(b@.subrange(8, 16)) == self.rewards,
            b@.subrange(0, 8) == spec_u64_to_le_bytes(self.id),
            b@.subrange(8, 16) == spec_u64_to_le_bytes(self.rewards),
    {
        proof {
            lemma_to_bytes_layout(*self);
        }
        let mut b = u64_to_le_bytes(self.id);
        let mut r = u64_to_le_bytes(self.rewards);
        b.append(&mut r);
        b
    }

    /// Reads a bus out of account data: the first byte must be the bus
    /// discriminator, and the eight-byte header must be followed by exactly
    /// the sixteen bytes of the bus's fields. Otherwise the error is
    /// `ProgramError::InvalidAccountData`.
    pub fn try_from_bytes(data: &[u8]) -> (r: Result<Bus, ProgramError>)
        requires
            Self::readable(data@),
        ensures
            r is Ok <==> Self::spec_is_bus_data(data@),
            r is Ok ==> Some(r->Ok_0) == Self::spec_try_from_bytes(data@),
            r is Err ==> r->Err_0 == program_error_from_number(INVALID_ACCOUNT_DATA),
            r is Ok <==> (data@[0] == 100 && data@.len() == 24),
            r is Ok ==> data@[0] == AccountDiscriminator::Bus.spec_code(),
            r is Ok ==> r->Ok_0.id == spec_u64_from_le_bytes(data@.subrange(8, 16)),
            r is Ok ==> r->Ok_0.rewards == spec_u64_from_le_bytes(data@.subrange(16, 24)),
    {
        proof {
            lemma_read_layout(data@);
        }
        if Self::discriminator().code() != data[0] {
            return Err(program_error_from_u64(INVALID_ACCOUNT_DATA));
        }
        if data.len() != HEADER_LEN + BUS_LEN {
            return Err(program_error_from_u64(INVALID_ACCOUNT_DATA));
        }
        let id = u64_from_le_bytes(&data[8..16]);
        let rewards = u64_from_le_bytes(&data[16..24]);
        proof {
            let fields = data@.subrange(HEADER_LEN as int, data@.len() as int);
            assert(fields.subrange(0, 8) =~= data@.subrange(8, 16));
            assert(fields.subrange(8, 16) =~= data@.subrange(16, 24));
        }
        Ok(Bus { id, rewards })
    }
}

impl Discriminator for Bus {
    fn discriminator() -> (d: AccountDiscriminator)
        ensures
            d == AccountDiscriminator::Bus,
    {
        AccountDiscriminator::Bus
    }
}

/// The bytes of a bus are the little-endian encoding of its id, then that of
/// its rewards: the first eight bytes decode to the id and the next eight to
/// the rewards.
pub proof fn lemma_to_bytes_layout(bus: Bus)
    ensures
        bus.spec_to_bytes().len() == 16,
        bus.spec_to_bytes().subrange(0, 8) == spec_u64_to_le_bytes(bus.id),
        bus.spec_to_bytes().subrange(8, 16) == spec_u64_to_le_bytes(bus.rewards),
        spec_u64_from_le_bytes(bus.spec_to_bytes().subrange(0, 8)) == bus.id,
        spec_u64_from_le_bytes(bus.spec_to_bytes().subrange(8, 16)) == bus.rewards,
{
    lemma_auto_spec_u64_to_from_le_bytes();
    assert(bus.spec_to_bytes().subrange(0, 8) =~= spec_u64_to_le_bytes(bus.id));
    assert(bus.spec_to_bytes().subrange(8, 16) =~= spec_u64_to_le_bytes(bus.rewards));
}

/// Account data reads as a bus exactly when its first byte is the bus tag
/// (100) and it is 24 bytes long; the bus's id is then the little-endian
/// number in bytes 8 to 16, and its rewards the one in bytes 16 to 24.
pub proof fn lemma_read_layout(data: Seq<u8>)
    ensures
        Bus::spec_try_from_bytes(data) is Some <==> (data.len() == 24 && data[0] == 100),
        Bus::spec_try_from_bytes(data) is Some ==> data[0] == AccountDiscriminator::Bus.spec_code(),
        Bus::spec_try_from_bytes(data) is Some ==> Bus::spec_try_from_bytes(data).unwrap().id
            == spec_u64_from_le_bytes(data.subrange(8, 16)),
        Bus::spec_try_from_bytes(data) is Some ==> Bus::spec_try_from_bytes(data).unwrap().rewards
            == spec_u64_from_le_bytes(data.subrange(16, 24)),
{
    if Bus::spec_try_from_bytes(data) is Some {
        let fields = data.subrange(8, data.len() as int);
        assert(fields.subrange(0, 8) =~= data.subrange(8, 16));
        assert(fields.subrange(8, 16) =~= data.subrange(16, 24));
    }
}

/// Writing a bus and reading it back gives the same bus: account data made of
/// a header that starts with the bus discriminator, followed by the bus's
/// bytes, reads as that bus.
pub proof fn lemma_write_then_read(bus: Bus, header: Seq<u8>)
    requires
        header.len() == HEADER_LEN,
        header[0] == AccountDiscriminator::Bus.spec_code(),
    ensures
        Bus::readable(header + bus.spec_to_bytes()),
        Bus::spec_try_from_bytes(header + bus.spec_to_bytes()) == Some(bus),
{
    lemma_auto_spec_u64_to_from_le_bytes();
    let data = header + bus.spec_to_bytes();
    let fields = data.subrange(HEADER_LEN as int, data.len() as int);
    assert(fields =~= bus.spec_to_bytes());
    assert(fields.subrange(0, 8) =~= spec_u64_to_le_bytes(bus.id));
    assert(fields.subrange(8, 16) =~= spec_u64_to_le_bytes(bus.rewards));
}

/// Reading a bus and writing it back gives the bytes it was read from: the
/// bus's bytes are the account data after the header.
pub proof fn lemma_read_then_write(data: Seq<u8>)
    requires
        Bus::spec_try_from_bytes(data) is Some,
    ensures
        Bus::spec_try_from_bytes(data).unwrap().spec_to_bytes() =~= data.subrange(
            HEADER_LEN as int,
            data.len() as int,
        ),
{
    lemma_auto_spec_u64_to_from_le_bytes();
    let fields = data.subrange(HEADER_LEN as int, data.len() as int);
    assert(fields.subrange(0, 8).len() == 8);
    assert(fields.subrange(8, 16).len() == 8);
    assert(fields =~= fields.subrange(0, 8) + fields.subrange(8, 16));
}

/// Distinct busses have distinct bytes.
pub proof fn lemma_to_bytes_injective(a: Bus, b: Bus)
    ensures
        a.spec_to_bytes() == b.spec_to_bytes() ==> a == b,
{
    lemma_auto_spec_u64_to_from_le_bytes();
    if a.spec_to_bytes() == b.spec_to_bytes() {
        assert(a.spec_to_bytes().subrange(0, 8) =~= spec_u64_to_le_bytes(a.id));
        assert(b.spec_to_bytes().subrange(0, 8) =~= spec_u64_to_le_bytes(b.id));
        assert(a.spec_to_bytes().subrange(8, 16) =~= spec_u64_to_le_bytes(a.rewards));
        assert(b.spec_to_bytes().subrange(8, 16) =~= spec_u64_to_le_bytes(b.rewards));
    }
}

} // verus!
