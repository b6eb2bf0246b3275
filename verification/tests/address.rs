use token::address::{find_metadata_address, METADATA_PROGRAM_ID, METADATA_TAG};
use token::Pubkey;

fn key(n: u8) -> Pubkey {
    Pubkey::new_from_array([n; 32])
}

fn sdk_key(key: &Pubkey) -> anchor_lang::prelude::Pubkey {
    anchor_lang::prelude::Pubkey::new_from_array(key.to_bytes())
}

#[test]
fn metadata_program_id_is_the_one_the_crate_declares() {
    assert_eq!(METADATA_PROGRAM_ID, mpl_token_metadata::ID.to_bytes());
}

#[test]
fn metadata_tag_spells_metadata() {
    assert_eq!(&METADATA_TAG[..], "metadata".as_bytes());
}

#[test]
fn derivation_agrees_with_the_metadata_crate() {
    for n in [0u8, 1, 2, 7, 42, 200, 255] {
        let mint = key(n);
        let (address, bump) = mpl_token_metadata::accounts::Metadata::find_pda(&sdk_key(&mint));
        assert_eq!(
            find_metadata_address(&mint),
            Some((Pubkey::new_from_array(address.to_bytes()), bump))
        );
    }
}

#[test]
fn derivation_gives_the_same_result_twice() {
    let mint = key(9);
    let first = find_metadata_address(&mint);
    let second = find_metadata_address(&mint);
    assert!(first.is_some());
    assert_eq!(first, second);
    let copy = Pubkey::new_from_array(mint.to_bytes());
    assert_eq!(find_metadata_address(&copy), first);
}

#[test]
fn derivation_tells_assets_apart() {
    let (a, _) = find_metadata_address(&key(1)).unwrap();
    let (b, _) = find_metadata_address(&key(2)).unwrap();
    assert_ne!(a, b);
}

#[test]
fn derived_address_is_neither_the_asset_nor_the_program() {
    let mint = key(3);
    let (address, _) = find_metadata_address(&mint).unwrap();
    assert_ne!(address, mint);
    assert_ne!(address, Pubkey::new_from_array(METADATA_PROGRAM_ID));
}

#[test]
fn derived_address_is_off_the_curve() {
    for n in [0u8, 5, 77, 255] {
        let (address, _) = find_metadata_address(&key(n)).unwrap();
        assert!(!sdk_key(&address).is_on_curve());
    }
}

#[test]
fn derived_address_is_rebuilt_from_its_bump_seed() {
    let mint = key(11);
    let (address, bump) = find_metadata_address(&mint).unwrap();
    let program = anchor_lang::prelude::Pubkey::new_from_array(METADATA_PROGRAM_ID);
    let mint_bytes = mint.to_bytes();
    let rebuilt = anchor_lang::prelude::Pubkey::create_program_address(
        &[&METADATA_TAG[..], &METADATA_PROGRAM_ID[..], &mint_bytes[..], &[bump]],
        &program,
    )
    .unwrap();
    assert_eq!(address.to_bytes(), rebuilt.to_bytes());
}

#[test]
fn pubkey_round_trips_its_bytes() {
    let mut bytes = [0u8; 32];
    for (i, b) in bytes.iter_mut().enumerate() {
        *b = i as u8;
    }
    let k = Pubkey::new_from_array(bytes);
    assert_eq!(k.to_bytes(), bytes);
    assert_eq!(k.to_vec(), bytes.to_vec());
    assert_eq!(k, Pubkey::new_from_array(bytes));
}

#[test]
fn pubkeys_differ_when_any_byte_differs() {
    let a = key(4);
    for i in [0usize, 15, 31] {
        let mut bytes = a.to_bytes();
        bytes[i] ^= 1;
        assert_ne!(a, Pubkey::new_from_array(bytes));
    }
}

#[test]
fn default_pubkey_is_all_zero() {
    assert_eq!(Pubkey::default().to_bytes(), [0u8; 32]);
}
