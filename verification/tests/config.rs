use pixel_market_program::constants::{CONFIG_SEED, DISCRIMINATOR_LEN, PUBKEY_LEN, U64_LEN, U8_LEN};
use pixel_market_program::errors::PixelMarketErrorCode;
use pixel_market_program::pubkey::Pubkey;
use pixel_market_program::state::config::Config;

fn key(fill: u8) -> Pubkey {
    Pubkey::new_from_array([fill; 32])
}

fn sample() -> Config {
    Config { bump: [7], admin: key(0xA1), operator: key(0xB2), price: 100 }
}

fn sample_bytes() -> Vec<u8> {
    let mut bytes = vec![155, 12, 170, 224, 30, 250, 204, 130, 7];
    bytes.extend_from_slice(&[0xA1; 32]);
    bytes.extend_from_slice(&[0xB2; 32]);
    bytes.extend_from_slice(&[100, 0, 0, 0, 0, 0, 0, 0]);
    bytes
}

#[test]
fn constants_have_the_layout_widths() {
    assert_eq!(DISCRIMINATOR_LEN, 8);
    assert_eq!(PUBKEY_LEN, 32);
    assert_eq!(U64_LEN, 8);
    assert_eq!(U8_LEN, 1);
    assert_eq!(&CONFIG_SEED, b"config");
    assert_eq!(Config::LEN, 81);
}

#[test]
fn pubkey_keeps_its_bytes() {
    let mut bytes = [0u8; 32];
    for (i, b) in bytes.iter_mut().enumerate() {
        *b = i as u8;
    }
    let k = Pubkey::new_from_array(bytes);
    assert_eq!(k.to_bytes(), bytes);
    assert_eq!(k, Pubkey { bytes });
}

#[test]
fn pubkeys_differ_in_any_byte() {
    let a = key(1);
    for i in [0usize, 15, 31] {
        let mut bytes = [1u8; 32];
        bytes[i] = 2;
        assert_ne!(a, Pubkey::new_from_array(bytes));
        assert!(a != Pubkey::new_from_array(bytes));
    }
    assert!(a == key(1));
}

#[test]
fn zeroed_record_is_all_zero() {
    let record = Config::zeroed();
    assert_eq!(record, Config { bump: [0], admin: key(0), operator: key(0), price: 0 });
}

#[test]
fn init_sets_every_field() {
    let mut record = Config::zeroed();
    assert_eq!(record.init(7, key(0xA1), key(0xB2), 100), Ok(()));
    assert_eq!(record, sample());
}

#[test]
fn init_overwrites_earlier_values() {
    let mut record = sample();
    assert_eq!(record.init(254, key(3), key(4), u64::MAX), Ok(()));
    assert_eq!(record, Config { bump: [254], admin: key(3), operator: key(4), price: u64::MAX });
}

#[test]
fn change_operator_touches_only_the_operator() {
    let mut record = sample();
    assert_eq!(record.change_operator(key(0xC3)), Ok(()));
    assert_eq!(record, Config { operator: key(0xC3), ..sample() });
}

#[test]
fn update_price_touches_only_the_price() {
    let mut record = sample();
    assert_eq!(record.update_price(250), Ok(()));
    assert_eq!(record, Config { price: 250, ..sample() });
}

#[test]
fn update_price_accepts_zero_and_the_maximum() {
    let mut record = sample();
    assert_eq!(record.update_price(0), Ok(()));
    assert_eq!(record.price, 0);
    assert_eq!(record.update_price(u64::MAX), Ok(()));
    assert_eq!(record.price, u64::MAX);
}

#[test]
fn serialized_record_has_the_fixed_layout() {
    let bytes = sample().try_serialize();
    assert_eq!(bytes.len(), Config::LEN);
    assert_eq!(bytes, sample_bytes());
}

#[test]
fn serialized_price_has_its_low_byte_first() {
    let record = Config { price: 0x0102_0304_0506_0708, ..sample() };
    let bytes = record.try_serialize();
    assert_eq!(&bytes[73..], &[8, 7, 6, 5, 4, 3, 2, 1]);
    let record = Config { price: u64::MAX, ..sample() };
    assert_eq!(&record.try_serialize()[73..], &[255; 8]);
}

#[test]
fn serialized_record_begins_with_the_discriminator() {
    assert_eq!(Config::DISCRIMINATOR, [155, 12, 170, 224, 30, 250, 204, 130]);
    assert_eq!(&sample().try_serialize()[..8], &Config::DISCRIMINATOR);
}

#[test]
fn deserialize_reads_the_fixed_layout() {
    assert_eq!(Config::try_deserialize(&sample_bytes()), Some(sample()));
}

#[test]
fn round_trip_keeps_every_value() {
    let records = [
        sample(),
        Config::zeroed(),
        Config { bump: [255], admin: key(255), operator: key(254), price: u64::MAX },
        Config { bump: [1], admin: key(9), operator: key(9), price: 1 << 40 },
    ];
    for record in records {
        let reloaded = Config::try_deserialize(&record.try_serialize());
        assert_eq!(reloaded, Some(record));
    }
}

#[test]
fn deserialize_refuses_short_data() {
    assert_eq!(Config::try_deserialize(&[]), None);
    assert_eq!(Config::try_deserialize(&Config::DISCRIMINATOR), None);
    let bytes = sample_bytes();
    assert_eq!(Config::try_deserialize(&bytes[..80]), None);
}

#[test]
fn deserialize_refuses_a_foreign_discriminator() {
    for i in 0..8 {
        let mut bytes = sample_bytes();
        bytes[i] ^= 1;
        assert_eq!(Config::try_deserialize(&bytes), None);
    }
    assert_eq!(Config::try_deserialize(&[0u8; 81]), None);
}

#[test]
fn deserialize_ignores_what_follows_the_record() {
    let mut bytes = sample_bytes();
    bytes.extend_from_slice(&[9, 9, 9]);
    assert_eq!(Config::try_deserialize(&bytes), Some(sample()));
}

#[test]
fn error_kinds_are_distinct() {
    let kinds = [
        PixelMarketErrorCode::OnlyAdmin,
        PixelMarketErrorCode::WrongOperator,
        PixelMarketErrorCode::AddressDerivationMismatch,
        PixelMarketErrorCode::AlreadyInitialized,
        PixelMarketErrorCode::MissingSignature,
        PixelMarketErrorCode::TransferFailure(0),
        PixelMarketErrorCode::TransferFailure(1),
    ];
    for (i, a) in kinds.iter().enumerate() {
        for (j, b) in kinds.iter().enumerate() {
            assert_eq!(a == b, i == j);
        }
    }
}
