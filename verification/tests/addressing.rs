use pixel_market_program::accounts::AccountInfo;
use pixel_market_program::access::{require_address, require_admin, require_operator, require_signer};
use pixel_market_program::errors::PixelMarketErrorCode;
use pixel_market_program::pda::{derive_config_address, find_config_address};
use pixel_market_program::pubkey::Pubkey;
use pixel_market_program::state::config::Config;

const PROGRAM: [u8; 32] = [
    123, 194, 22, 169, 8, 0, 199, 18, 254, 208, 19, 204, 208, 195, 186, 1, 171, 199, 177, 90, 84,
    22, 200, 132, 246, 218, 235, 84, 109, 101, 149, 199,
];

fn key(fill: u8) -> Pubkey {
    Pubkey::new_from_array([fill; 32])
}

fn host(key: &Pubkey) -> anchor_lang::prelude::Pubkey {
    anchor_lang::prelude::Pubkey::new_from_array(key.to_bytes())
}

fn host_find(admin: &Pubkey, program: &Pubkey) -> (Pubkey, u8) {
    let (address, bump) = anchor_lang::prelude::Pubkey::find_program_address(
        &[b"config", &admin.to_bytes()],
        &host(program),
    );
    (Pubkey::new_from_array(address.to_bytes()), bump)
}

fn host_create(admin: &Pubkey, bump: u8, program: &Pubkey) -> Option<Pubkey> {
    anchor_lang::prelude::Pubkey::create_program_address(
        &[b"config", &admin.to_bytes(), &[bump]],
        &host(program),
    )
    .ok()
    .map(|address| Pubkey::new_from_array(address.to_bytes()))
}

#[test]
fn found_address_is_the_hosts() {
    let program = Pubkey::new_from_array(PROGRAM);
    for fill in [0u8, 1, 2, 77, 200, 255] {
        let admin = key(fill);
        assert_eq!(find_config_address(&admin, &program), Some(host_find(&admin, &program)));
    }
}

#[test]
fn found_address_differs_from_its_inputs() {
    let program = Pubkey::new_from_array(PROGRAM);
    let admin = key(5);
    let (address, _) = find_config_address(&admin, &program).unwrap();
    assert_ne!(address, admin);
    assert_ne!(address, program);
}

#[test]
fn found_address_depends_on_the_admin_and_the_program() {
    let program = Pubkey::new_from_array(PROGRAM);
    let (a, _) = find_config_address(&key(1), &program).unwrap();
    let (b, _) = find_config_address(&key(2), &program).unwrap();
    let (c, _) = find_config_address(&key(1), &key(9)).unwrap();
    assert_ne!(a, b);
    assert_ne!(a, c);
}

#[test]
fn derived_address_is_the_hosts_for_every_bump() {
    let program = Pubkey::new_from_array(PROGRAM);
    let admin = key(42);
    let mut some = 0;
    let mut none = 0;
    for bump in 0..=255u8 {
        let derived = derive_config_address(&admin, bump, &program);
        assert_eq!(derived, host_create(&admin, bump, &program));
        match derived {
            Some(_) => some += 1,
            None => none += 1,
        }
    }
    assert!(some > 0);
    assert!(none > 0);
}

#[test]
fn found_bump_derives_the_found_address() {
    let program = Pubkey::new_from_array(PROGRAM);
    for fill in [3u8, 4, 5, 6, 7, 8, 9, 10] {
        let admin = key(fill);
        let (address, bump) = find_config_address(&admin, &program).unwrap();
        assert_eq!(derive_config_address(&admin, bump, &program), Some(address));
    }
}

#[test]
fn another_bump_derives_another_address_or_none() {
    let program = Pubkey::new_from_array(PROGRAM);
    let admin = key(11);
    let (address, bump) = find_config_address(&admin, &program).unwrap();
    for other in 0..=255u8 {
        if other != bump {
            assert_ne!(derive_config_address(&admin, other, &program), Some(address));
        }
    }
}

#[test]
fn require_signer_wants_the_signature() {
    assert_eq!(require_signer(&AccountInfo { key: key(1), is_signer: true }), Ok(()));
    assert_eq!(
        require_signer(&AccountInfo { key: key(1), is_signer: false }),
        Err(PixelMarketErrorCode::MissingSignature)
    );
}

#[test]
fn require_admin_compares_with_the_stored_admin() {
    let record = Config { bump: [1], admin: key(1), operator: key(2), price: 3 };
    let admin = AccountInfo { key: key(1), is_signer: false };
    let operator = AccountInfo { key: key(2), is_signer: true };
    assert_eq!(require_admin(&admin, &record), Ok(()));
    assert_eq!(require_admin(&operator, &record), Err(PixelMarketErrorCode::OnlyAdmin));
}

#[test]
fn require_operator_compares_with_the_stored_operator() {
    let record = Config { bump: [1], admin: key(1), operator: key(2), price: 3 };
    let admin = AccountInfo { key: key(1), is_signer: true };
    let operator = AccountInfo { key: key(2), is_signer: false };
    assert_eq!(require_operator(&operator, &record), Ok(()));
    assert_eq!(require_operator(&admin, &record), Err(PixelMarketErrorCode::WrongOperator));
}

#[test]
fn require_address_wants_the_derived_address() {
    assert_eq!(require_address(&key(1), Some(key(1))), Ok(()));
    assert_eq!(
        require_address(&key(1), Some(key(2))),
        Err(PixelMarketErrorCode::AddressDerivationMismatch)
    );
    assert_eq!(
        require_address(&key(1), None),
        Err(PixelMarketErrorCode::AddressDerivationMismatch)
    );
}
