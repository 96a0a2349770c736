use mars::state::Bus;
use mars::utils::{AccountDiscriminator, Discriminator};
use mars::BUS_COUNT;
use solana_program::program_error::ProgramError;

fn account_data(bus: &Bus) -> Vec<u8> {
    [
        &(Bus::discriminator().code() as u64).to_le_bytes()[..],
        &bus.to_bytes()[..],
    ]
    .concat()
}

#[test]
fn bus_discriminator_is_bus() {
    assert_eq!(Bus::discriminator(), AccountDiscriminator::Bus);
    assert_eq!(Bus::discriminator().code(), 100);
}

#[test]
fn discriminator_codes() {
    assert_eq!(AccountDiscriminator::Bus.code(), 100);
    assert_eq!(AccountDiscriminator::Proof.code(), 101);
    assert_eq!(AccountDiscriminator::Treasury.code(), 102);
}

#[test]
fn bus_to_bytes_is_little_endian_id_then_rewards() {
    let bus = Bus { id: 0x0102030405060708, rewards: 250_000_000 };
    assert_eq!(
        bus.to_bytes(),
        vec![8, 7, 6, 5, 4, 3, 2, 1, 0x80, 0xb2, 0xe6, 0x0e, 0, 0, 0, 0]
    );
    assert_eq!(Bus { id: 0, rewards: 0 }.to_bytes(), vec![0u8; 16]);
}

#[test]
fn bus_roundtrip_for_every_bus_id() {
    for i in 0..BUS_COUNT {
        let bus = Bus { id: i as u64, rewards: 0 };
        let data = account_data(&bus);
        assert_eq!(data.len(), 24);
        assert_eq!(data[0], 100);
        let read = Bus::try_from_bytes(&data).unwrap();
        assert_eq!(read, bus);
        assert_eq!(read.id as u8, i as u8);
    }
}

#[test]
fn bus_roundtrip_extreme_values() {
    let bus = Bus { id: u64::MAX, rewards: u64::MAX - 1 };
    assert_eq!(Bus::try_from_bytes(&account_data(&bus)), Ok(bus));
}

#[test]
fn bus_header_tail_is_not_checked() {
    let bus = Bus { id: 3, rewards: 42 };
    let mut data = account_data(&bus);
    data[1] = 9;
    data[7] = 255;
    assert_eq!(Bus::try_from_bytes(&data), Ok(bus));
}

#[test]
fn bus_wrong_discriminator_is_invalid() {
    let bus = Bus { id: 1, rewards: 2 };
    let mut data = account_data(&bus);
    data[0] = AccountDiscriminator::Treasury.code();
    assert_eq!(Bus::try_from_bytes(&data), Err(ProgramError::InvalidAccountData));
    // Short data is rejected by its first byte before its length matters.
    assert_eq!(Bus::try_from_bytes(&[0u8]), Err(ProgramError::InvalidAccountData));
}

#[test]
fn bus_wrong_length_is_invalid() {
    let bus = Bus { id: 1, rewards: 2 };
    let mut data = account_data(&bus);
    data.push(0);
    assert_eq!(Bus::try_from_bytes(&data), Err(ProgramError::InvalidAccountData));
    let data = account_data(&bus);
    assert_eq!(Bus::try_from_bytes(&data[..23]), Err(ProgramError::InvalidAccountData));
    assert_eq!(Bus::try_from_bytes(&data[..8]), Err(ProgramError::InvalidAccountData));
}

#[test]
fn bus_read_then_write_gives_the_fields() {
    let data: Vec<u8> = vec![100, 0, 0, 0, 0, 0, 0, 0, 1, 0, 0, 0, 0, 0, 0, 0, 2, 1, 0, 0, 0, 0, 0, 0];
    let bus = Bus::try_from_bytes(&data).unwrap();
    assert_eq!(bus, Bus { id: 1, rewards: 258 });
    assert_eq!(bus.to_bytes(), data[8..].to_vec());
}
