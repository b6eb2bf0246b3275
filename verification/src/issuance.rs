//! Issuance: the instruction that creates an asset's record and its metadata
//! record together.

use vstd::prelude::*;
use crate::address::{find_metadata_address, metadata_address, metadata_key};
use crate::error::ErrorCode;
use crate::ledger::{Mint, MintView, DECIMALS};
use crate::metadata::{
    byte_len, fits, text_fits, NFTMetadata, NFTMetadataView, MAX_NAME_LEN, MAX_SYMBOL_LEN,
    MAX_URI_LEN,
};
use crate::pubkey::{Pubkey, Signer, SignerView};

verus! {

/// Royalty on resale, in hundredths of a percent: none is taken.
pub const SELLER_FEE_BASIS_POINTS: u16 = 0;

/// Share of the proceeds that goes to the issuer, in percent: all of it.
pub const CREATOR_SHARE: u8 = 100;

/// A party credited with the asset.
#[derive(Clone, Copy, Debug, PartialEq, Eq)]
pub struct Creator {
    pub address: Pubkey,
    /// Whether the party has signed for the credit.
    pub verified: bool,
    /// Its share of the proceeds, in percent.
    pub share: u8,
}

/// What a creator entry holds.
pub struct CreatorView {
    pub address: Seq<u8>,
    pub verified: bool,
    pub share: nat,
}

impl View for Creator {
    type V = CreatorView;

    open spec fn view(&self) -> CreatorView {
        CreatorView { address: self.address@, verified: self.verified, share: self.share as nat }
    }
}

/// What the metadata program is asked to create for a new asset: which
/// accounts take which part, and what the record is to hold.
#[derive(Clone, Debug, PartialEq, Eq)]
pub struct CreateMetadata {
    /// Address of the new record.
    pub metadata: Pubkey,
    pub mint: Pubkey,
    pub mint_authority: Pubkey,
    pub payer: Pubkey,
    pub update_authority: Pubkey,
    pub update_authority_is_signer: bool,
    pub name: String,
    pub symbol: String,
    pub uri: String,
    pub seller_fee_basis_points: u16,
    pub creators: Option<Vec<Creator>>,
    pub is_mutable: bool,
}

/// What a request to the metadata program holds.
pub struct CreateMetadataView {
    pub metadata: Seq<u8>,
    pub mint: Seq<u8>,
    pub mint_authority: Seq<u8>,
    pub payer: Seq<u8>,
    pub update_authority: Seq<u8>,
    pub update_authority_is_signer: bool,
    pub name: Seq<char>,
    pub symbol: Seq<char>,
    pub uri: Seq<char>,
    pub seller_fee_basis_points: nat,
    pub creators: Option<Seq<CreatorView>>,
    pub is_mutable: bool,
}

/// An optional list of creators, each by what it holds.
pub open spec fn creators_view(creators: Option<Vec<Creator>>) -> Option<Seq<CreatorView>> {
    match creators {
        Some(list) => Some(Seq::new(list@.len(), |i: int| list@[i]@)),
        None => None,
    }
}

impl View for CreateMetadata {
    type V = CreateMetadataView;

    open spec fn view(&self) -> CreateMetadataView {
        CreateMetadataView {
            metadata: self.metadata@,
            mint: self.mint@,
            mint_authority: self.mint_authority@,
            payer: self.payer@,
            update_authority: self.update_authority@,
            update_authority_is_signer: self.update_authority_is_signer,
            name: self.name@,
            symbol: self.symbol@,
            uri: self.uri@,
            seller_fee_basis_points: self.seller_fee_basis_points as nat,
            creators: creators_view(self.creators),
            is_mutable: self.is_mutable,
        }
    }
}

/// The records that issuance touches.
#[derive(Clone, Debug, PartialEq, Eq)]
pub struct InitializeNft {
    /// The issuer: it pays for storage and becomes mint authority and update
    /// authority.
    pub payer: Signer,
    /// The record of the asset to issue.
    pub mint: Mint,
    /// What is stored at the asset's metadata address: nothing, before
    /// issuance.
    pub metadata: Option<NFTMetadata>,
}

/// What the records of an issuance hold.
pub struct InitializeNftView {
    pub payer: SignerView,
    pub mint: MintView,
    pub metadata: Option<NFTMetadataView>,
}

/// An optional metadata record, by what it holds.
pub open spec fn record_view(record: Option<NFTMetadata>) -> Option<NFTMetadataView> {
    match record {
        Some(r) => Some(r@),
        None => None,
    }
}

impl View for InitializeNft {
    type V = InitializeNftView;

    open spec fn view(&self) -> InitializeNftView {
        InitializeNftView {
            payer: self.payer@,
            mint: self.mint@,
            metadata: record_view(self.metadata),
        }
    }
}

impl InitializeNftView {
    /// How issuance with these texts ends. The texts are checked first, so
    /// that nothing is allocated for a record that could not hold them. The
    /// issuer is to become every authority of the asset, and so must approve
    /// as any authority must: by its signature.
    pub open spec fn outcome(self, name: Seq<char>, symbol: Seq<char>, uri: Seq<char>) -> Result<
        (),
        ErrorCode,
    > {
        if !(fits(name, MAX_NAME_LEN) && fits(symbol, MAX_SYMBOL_LEN) && fits(uri, MAX_URI_LEN)) {
            Err(ErrorCode::InvalidInput)
        } else if !self.payer.approves(self.payer.key) {
            Err(ErrorCode::UnauthorizedAuthority)
        } else if self.mint.is_initialized || self.metadata is Some {
            Err(ErrorCode::AlreadyInitialized)
        } else {
            Ok(())
        }
    }

    /// The records once the asset has been issued: nothing in circulation, no
    /// fractions, the issuer as every authority, and a metadata record that
    /// points back at the asset.
    pub open spec fn issued(self, name: Seq<char>, symbol: Seq<char>, uri: Seq<char>) -> InitializeNftView {
        InitializeNftView {
            payer: self.payer,
            mint: MintView {
                key: self.mint.key,
                is_initialized: true,
                supply: 0,
                decimals: DECIMALS as nat,
                mint_authority: Some(self.payer.key),
                freeze_authority: Some(self.payer.key),
            },
            metadata: Some(
                NFTMetadataView {
                    mint: self.mint.key,
                    authority: self.payer.key,
                    name,
                    symbol,
                    uri,
                },
            ),
        }
    }

    /// What the metadata program is asked for, with the record at `address`.
    pub open spec fn request(
        self,
        name: Seq<char>,
        symbol: Seq<char>,
        uri: Seq<char>,
        address: Seq<u8>,
    ) -> CreateMetadataView {
        CreateMetadataView {
            metadata: address,
            mint: self.mint.key,
            mint_authority: self.payer.key,
            payer: self.payer.key,
            update_authority: self.payer.key,
            update_authority_is_signer: true,
            name,
            symbol,
            uri,
            seller_fee_basis_points: SELLER_FEE_BASIS_POINTS as nat,
            creators: Some(
                seq![
                    CreatorView {
                        address: self.payer.key,
                        verified: true,
                        share: CREATOR_SHARE as nat,
                    },
                ],
            ),
            is_mutable: true,
        }
    }

    /// The records after the instruction, however it ended.
    pub open spec fn after(self, name: Seq<char>, symbol: Seq<char>, uri: Seq<char>) -> InitializeNftView {
        if self.outcome(name, symbol, uri) is Ok {
            self.issued(name, symbol, uri)
        } else {
            self
        }
    }

    /// What the instruction returns: the request for the metadata program
    /// where issuance goes ahead, the error where it does not.
    pub open spec fn answer(
        self,
        name: Seq<char>,
        symbol: Seq<char>,
        uri: Seq<char>,
        address: Seq<u8>,
    ) -> Result<CreateMetadataView, ErrorCode> {
        match self.outcome(name, symbol, uri) {
            Ok(()) => Ok(self.request(name, symbol, uri, address)),
            Err(e) => Err(e),
        }
    }
}

/// What an issuance returned, with the request by what it holds.
pub open spec fn answer_view(result: Result<CreateMetadata, ErrorCode>) -> Result<
    CreateMetadataView,
    ErrorCode,
> {
    match result {
        Ok(request) => Ok(request@),
        Err(e) => Err(e),
    }
}

/// Issues an asset whose metadata record is to live at `address`, the
/// address that the caller has derived for it: creates the asset's record and
/// its metadata record, with the issuer as mint authority and update
/// authority, and returns what to ask of the metadata program. Either both
/// records are created or neither is.
pub fn initialize_nft_at(
    ctx: &mut InitializeNft,
    name: String,
    symbol: String,
    uri: String,
    address: Pubkey,
) -> (result: Result<CreateMetadata, ErrorCode>)
    ensures
        answer_view(result) == old(ctx)@.answer(name@, symbol@, uri@, address@),
        final(ctx)@ == old(ctx)@.after(name@, symbol@, uri@),
{
    if !(text_fits(name.as_str(), MAX_NAME_LEN) && text_fits(symbol.as_str(), MAX_SYMBOL_LEN)
        && text_fits(uri.as_str(), MAX_URI_LEN)) {
        return Err(ErrorCode::InvalidInput);
    }
    if !ctx.payer.is_authority(&ctx.payer.key) {
        return Err(ErrorCode::UnauthorizedAuthority);
    }
    if ctx.mint.is_initialized || ctx.metadata.is_some() {
        return Err(ErrorCode::AlreadyInitialized);
    }
    let payer = ctx.payer.key;
    let mut creators: Vec<Creator> = Vec::new();
    creators.push(Creator { address: payer, verified: true, share: CREATOR_SHARE });
    let request = CreateMetadata {
        metadata: address,
        mint: ctx.mint.key,
        mint_authority: payer,
        payer,
        update_authority: payer,
        update_authority_is_signer: true,
        name: name.clone(),
        symbol: symbol.clone(),
        uri: uri.clone(),
        seller_fee_basis_points: SELLER_FEE_BASIS_POINTS,
        creators: Some(creators),
        is_mutable: true,
    };
    ctx.mint = Mint {
        key: ctx.mint.key,
        is_initialized: true,
        supply: 0,
        decimals: DECIMALS,
        mint_authority: Some(payer),
        freeze_authority: Some(payer),
    };
    ctx.metadata = Some(NFTMetadata { mint: ctx.mint.key, authority: payer, name, symbol, uri });
    assert(request@.creators->0 =~= old(ctx)@.request(name@, symbol@, uri@, address@).creators->0);
    Ok(request)
}

/// Issues an asset: derives the address of its metadata record, then creates
/// the asset's record and that record, with the issuer as mint authority and
/// update authority. The texts are checked first, then the issuer's
/// signature, then that neither record exists yet; a rejected issuance
/// creates nothing.
pub fn initialize_nft(ctx: &mut InitializeNft, name: String, symbol: String, uri: String) -> (result:
    Result<CreateMetadata, ErrorCode>)
    requires
        metadata_address(old(ctx).mint.key@) is Some,
    ensures
        answer_view(result) == old(ctx)@.answer(
            name@,
            symbol@,
            uri@,
            metadata_key(old(ctx).mint.key@),
        ),
        final(ctx)@ == old(ctx)@.after(name@, symbol@, uri@),
{
    let (address, _) = find_metadata_address(&ctx.mint.key).unwrap();
    initialize_nft_at(ctx, name, symbol, uri, address)
}

/// Issues an asset where the address of its metadata record can be derived,
/// and does nothing where it cannot: then the result is `None` and no record
/// changes.
pub fn try_initialize_nft(ctx: &mut InitializeNft, name: String, symbol: String, uri: String) -> (result:
    Option<Result<CreateMetadata, ErrorCode>>)
    ensures
        match metadata_address(old(ctx).mint.key@) {
            Some((address, _)) => {
                &&& result matches Some(answer)
                &&& answer_view(answer) == old(ctx)@.answer(name@, symbol@, uri@, address)
                &&& final(ctx)@ == old(ctx)@.after(name@, symbol@, uri@)
            },
            None => result is None && final(ctx)@ == old(ctx)@,
        },
{
    if find_metadata_address(&ctx.mint.key).is_none() {
        return None;
    }
    Some(initialize_nft(ctx, name, symbol, uri))
}

/// Whatever issuance creates is an asset with nothing in circulation and no
/// fractions, whose metadata record points back at it and holds the texts
/// given, within their bounds; the issuer is mint authority and update
/// authority.
pub proof fn lemma_issued_asset_is_unminted(
    pre: InitializeNftView,
    name: Seq<char>,
    symbol: Seq<char>,
    uri: Seq<char>,
)
    requires
        pre.outcome(name, symbol, uri) is Ok,
    ensures
        pre.after(name, symbol, uri).mint.supply == 0,
        pre.after(name, symbol, uri).mint.decimals == 0,
        pre.after(name, symbol, uri).mint.key == pre.mint.key,
        pre.after(name, symbol, uri).mint.mint_authority == Some(pre.payer.key),
        pre.after(name, symbol, uri).mint.wf(),
        pre.after(name, symbol, uri).metadata matches Some(record) && record.mint == pre.mint.key
            && record.authority == pre.payer.key && record.name == name && record.symbol == symbol
            && record.uri == uri && record.wf(),
{
}

/// A text that does not fit its field stops issuance with `InvalidInput`
/// before anything is created, whatever else holds: a name past 32 bytes, a
/// symbol past 10, a content locator past 200.
pub proof fn lemma_long_text_rejected(
    pre: InitializeNftView,
    name: Seq<char>,
    symbol: Seq<char>,
    uri: Seq<char>,
)
    requires
        byte_len(name) > MAX_NAME_LEN || byte_len(symbol) > MAX_SYMBOL_LEN || byte_len(uri)
            > MAX_URI_LEN,
    ensures
        pre.outcome(name, symbol, uri) == Err::<(), ErrorCode>(ErrorCode::InvalidInput),
        pre.after(name, symbol, uri) == pre,
        forall|address: Seq<u8>|
            #[trigger] pre.answer(name, symbol, uri, address) == Err::<
                CreateMetadataView,
                ErrorCode,
            >(ErrorCode::InvalidInput),
{
}

/// An asset is issued once: on the records that an issuance has left, every
/// further issuance with texts that fit and the issuer's signature fails with
/// `AlreadyInitialized`.
pub proof fn lemma_issuance_happens_once(
    pre: InitializeNftView,
    name: Seq<char>,
    symbol: Seq<char>,
    uri: Seq<char>,
    next_name: Seq<char>,
    next_symbol: Seq<char>,
    next_uri: Seq<char>,
)
    requires
        pre.outcome(name, symbol, uri) is Ok,
        fits(next_name, MAX_NAME_LEN),
        fits(next_symbol, MAX_SYMBOL_LEN),
        fits(next_uri, MAX_URI_LEN),
    ensures
        pre.after(name, symbol, uri).outcome(next_name, next_symbol, next_uri) == Err::<
            (),
            ErrorCode,
        >(ErrorCode::AlreadyInitialized),
{
}

} // verus!
