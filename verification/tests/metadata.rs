use token::metadata::{
    text_fits, text_fits_if_present, update_nft, NFTMetadata, UpdateNft, MAX_NAME_LEN,
    MAX_SYMBOL_LEN, MAX_URI_LEN,
};
use token::{ErrorCode, Pubkey, Signer};

fn key(n: u8) -> Pubkey {
    Pubkey::new_from_array([n; 32])
}

fn record() -> NFTMetadata {
    NFTMetadata {
        mint: key(10),
        authority: key(1),
        name: "First".to_string(),
        symbol: "OLD".to_string(),
        uri: "https://example.com/1.json".to_string(),
    }
}

fn updating(signer: u8) -> UpdateNft {
    UpdateNft { nft_metadata: record(), authority: Signer { key: key(signer), is_signer: true } }
}

#[test]
fn reserved_width_is_318_bytes() {
    assert_eq!(NFTMetadata::LEN, 318);
    assert_eq!(NFTMetadata::LEN, 32 + 32 + (4 + MAX_NAME_LEN) + (4 + MAX_SYMBOL_LEN) + (4 + MAX_URI_LEN));
}

#[test]
fn field_bounds() {
    assert_eq!(MAX_NAME_LEN, 32);
    assert_eq!(MAX_SYMBOL_LEN, 10);
    assert_eq!(MAX_URI_LEN, 200);
}

#[test]
fn fitting_counts_bytes_not_characters() {
    assert!(text_fits("", 0));
    assert!(text_fits("abc", 3));
    assert!(!text_fits("abcd", 3));
    assert!(text_fits("\u{20ac}", 3));
    assert!(!text_fits("\u{20ac}", 2));
    assert!(text_fits(&"\u{e9}".repeat(16), 32));
    assert!(!text_fits(&"\u{e9}".repeat(17), 32));
    assert!(text_fits_if_present(&None, 0));
    assert!(text_fits_if_present(&Some(String::new()), 0));
    assert!(!text_fits_if_present(&Some("x".to_string()), 0));
}

#[test]
fn update_of_the_symbol_alone_changes_only_the_symbol() {
    let mut ctx = updating(1);
    assert_eq!(update_nft(&mut ctx, None, Some("NEW".to_string()), None), Ok(()));
    assert_eq!(ctx.nft_metadata.symbol, "NEW");
    assert_eq!(ctx.nft_metadata.name, "First");
    assert_eq!(ctx.nft_metadata.uri, "https://example.com/1.json");
    assert_eq!(ctx.nft_metadata.mint, key(10));
    assert_eq!(ctx.nft_metadata.authority, key(1));
}

#[test]
fn update_of_every_field() {
    let mut ctx = updating(1);
    let result = update_nft(
        &mut ctx,
        Some("Second".to_string()),
        Some("TWO".to_string()),
        Some("ipfs://two".to_string()),
    );
    assert_eq!(result, Ok(()));
    assert_eq!(
        ctx.nft_metadata,
        NFTMetadata {
            mint: key(10),
            authority: key(1),
            name: "Second".to_string(),
            symbol: "TWO".to_string(),
            uri: "ipfs://two".to_string(),
        }
    );
}

#[test]
fn update_with_nothing_present_changes_nothing() {
    let mut ctx = updating(1);
    assert_eq!(update_nft(&mut ctx, None, None, None), Ok(()));
    assert_eq!(ctx, updating(1));
}

#[test]
fn update_with_an_empty_value_clears_the_field() {
    let mut ctx = updating(1);
    assert_eq!(update_nft(&mut ctx, Some(String::new()), None, None), Ok(()));
    assert_eq!(ctx.nft_metadata.name, "");
    assert_eq!(ctx.nft_metadata.symbol, "OLD");
    assert_eq!(ctx.nft_metadata.uri, "https://example.com/1.json");
    assert_eq!(update_nft(&mut ctx, None, Some(String::new()), Some(String::new())), Ok(()));
    assert_eq!(ctx.nft_metadata.symbol, "");
    assert_eq!(ctx.nft_metadata.uri, "");
}

#[test]
fn update_by_another_identity_is_unauthorized() {
    let mut ctx = updating(2);
    let before = ctx.clone();
    let result = update_nft(&mut ctx, Some("Mine".to_string()), Some("NEW".to_string()), None);
    assert_eq!(result, Err(ErrorCode::UnauthorizedAuthority));
    assert_eq!(ctx, before);
}

#[test]
fn update_without_a_signature_is_unauthorized() {
    let mut ctx = updating(1);
    ctx.authority.is_signer = false;
    let before = ctx.clone();
    assert_eq!(update_nft(&mut ctx, None, Some("NEW".to_string()), None), Err(ErrorCode::UnauthorizedAuthority));
    assert_eq!(ctx, before);
}

#[test]
fn authority_is_checked_before_lengths() {
    let mut ctx = updating(2);
    let before = ctx.clone();
    assert_eq!(update_nft(&mut ctx, Some("x".repeat(33)), None, None), Err(ErrorCode::UnauthorizedAuthority));
    assert_eq!(ctx, before);
}

#[test]
fn update_rejects_a_value_past_its_bound() {
    let cases = [
        (Some("n".repeat(33)), None, None),
        (None, Some("s".repeat(11)), None),
        (None, None, Some("u".repeat(201))),
    ];
    for (name, symbol, uri) in cases {
        let mut ctx = updating(1);
        assert_eq!(update_nft(&mut ctx, name, symbol, uri), Err(ErrorCode::InvalidInput));
        assert_eq!(ctx, updating(1));
    }
}

#[test]
fn update_accepts_values_at_their_bounds() {
    let mut ctx = updating(1);
    let result = update_nft(&mut ctx, Some("n".repeat(32)), Some("s".repeat(10)), Some("u".repeat(200)));
    assert_eq!(result, Ok(()));
    assert_eq!(ctx.nft_metadata.name, "n".repeat(32));
    assert_eq!(ctx.nft_metadata.symbol, "s".repeat(10));
    assert_eq!(ctx.nft_metadata.uri, "u".repeat(200));
    assert!(ctx.nft_metadata.is_valid());
}

#[test]
fn update_applies_all_or_nothing() {
    let mut ctx = updating(1);
    let result = update_nft(&mut ctx, Some("Fine".to_string()), Some("WAY_TOO_LONG".to_string()), None);
    assert_eq!(result, Err(ErrorCode::InvalidInput));
    assert_eq!(ctx, updating(1));
}

#[test]
fn update_measures_encoded_length() {
    let mut ctx = updating(1);
    let four = "\u{20ac}".repeat(4);
    assert_eq!(update_nft(&mut ctx, None, Some(four), None), Err(ErrorCode::InvalidInput));
    let three = "\u{20ac}".repeat(3);
    assert_eq!(update_nft(&mut ctx, None, Some(three.clone()), None), Ok(()));
    assert_eq!(ctx.nft_metadata.symbol, three);
}

#[test]
fn record_validity() {
    assert!(record().is_valid());
    let mut long = record();
    long.uri = "u".repeat(201);
    assert!(!long.is_valid());
    let mut long_name = record();
    long_name.name = "n".repeat(33);
    assert!(!long_name.is_valid());
    let mut long_symbol = record();
    long_symbol.symbol = "s".repeat(11);
    assert!(!long_symbol.is_valid());
}

#[test]
fn default_record_is_empty() {
    let empty = NFTMetadata::default();
    assert_eq!(empty.mint, Pubkey::default());
    assert_eq!(empty.authority, Pubkey::default());
    assert_eq!(empty.name, "");
    assert_eq!(empty.symbol, "");
    assert_eq!(empty.uri, "");
    assert!(empty.is_valid());
}

#[test]
fn every_error_has_its_message() {
    assert_eq!(ErrorCode::UnauthorizedAuthority.message(), "Authority is not authorized to update this NFT");
    let all = [
        ErrorCode::InvalidInput,
        ErrorCode::UnauthorizedAuthority,
        ErrorCode::AlreadyInitialized,
        ErrorCode::SupplyExceeded,
        ErrorCode::InsufficientBalance,
    ];
    for (i, a) in all.iter().enumerate() {
        assert!(!a.message().is_empty());
        for b in all.iter().skip(i + 1) {
            assert_ne!(a, b);
            assert_ne!(a.message(), b.message());
        }
    }
}
