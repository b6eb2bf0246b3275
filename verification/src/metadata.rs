//! The metadata record of an asset, and the instruction that edits it.

use vstd::prelude::*;
use vstd::utf8::encode_utf8;
use crate::error::ErrorCode;
use crate::pubkey::{zero_key, Pubkey, Signer, SignerView};

verus! {

/// Most bytes that a display name may take.
pub const MAX_NAME_LEN: usize = 32;

/// Most bytes that a symbol may take.
pub const MAX_SYMBOL_LEN: usize = 10;

/// Most bytes that a content locator may take.
pub const MAX_URI_LEN: usize = 200;

/// Bytes that `text` takes in storage: the length of its UTF-8 encoding.
pub open spec fn byte_len(text: Seq<char>) -> nat {
    encode_utf8(text).len()
}

/// Whether `text` fits in a field of `bound` bytes.
pub open spec fn fits(text: Seq<char>, bound: usize) -> bool {
    byte_len(text) <= bound
}

/// Whether a new value, where one is given, fits in a field of `bound` bytes.
pub open spec fn fits_if_present(text: Option<Seq<char>>, bound: usize) -> bool {
    text matches Some(t) ==> fits(t, bound)
}

/// The value of a field after an update that may leave it alone.
pub open spec fn replaced(prior: Seq<char>, text: Option<Seq<char>>) -> Seq<char> {
    match text {
        Some(t) => t,
        None => prior,
    }
}

/// An optional text, by its characters.
pub open spec fn text_view(text: Option<String>) -> Option<Seq<char>> {
    match text {
        Some(t) => Some(t@),
        None => None,
    }
}

/// Whether `text` fits in a field of `bound` bytes.
pub fn text_fits(text: &str, bound: usize) -> (ok: bool)
    ensures
        ok == fits(text@, bound),
{
    text.as_bytes().len() <= bound
}

/// Whether a new value, where one is given, fits in a field of `bound` bytes.
pub fn text_fits_if_present(text: &Option<String>, bound: usize) -> (ok: bool)
    ensures
        ok == fits_if_present(text_view(*text), bound),
{
    match text {
        Some(t) => text_fits(t.as_str(), bound),
        None => true,
    }
}

/// The metadata record of one asset.
#[derive(Clone, Debug, PartialEq, Eq)]
pub struct NFTMetadata {
    /// The asset that this record describes.
    pub mint: Pubkey,
    /// Who may edit the descriptive fields.
    pub authority: Pubkey,
    pub name: String,
    pub symbol: String,
    pub uri: String,
}

/// What a metadata record holds.
pub struct NFTMetadataView {
    pub mint: Seq<u8>,
    pub authority: Seq<u8>,
    pub name: Seq<char>,
    pub symbol: Seq<char>,
    pub uri: Seq<char>,
}

impl View for NFTMetadata {
    type V = NFTMetadataView;

    open spec fn view(&self) -> NFTMetadataView {
        NFTMetadataView {
            mint: self.mint@,
            authority: self.authority@,
            name: self.name@,
            symbol: self.symbol@,
            uri: self.uri@,
        }
    }
}

impl NFTMetadataView {
    /// Every field fits the width that storage reserves for it.
    pub open spec fn wf(self) -> bool {
        &&& fits(self.name, MAX_NAME_LEN)
        &&& fits(self.symbol, MAX_SYMBOL_LEN)
        &&& fits(self.uri, MAX_URI_LEN)
    }

    /// Bytes that the record takes in storage: both identities, then each
    /// text behind a four-byte length.
    pub open spec fn stored_len(self) -> nat {
        32 + 32 + (4 + byte_len(self.name)) + (4 + byte_len(self.symbol)) + (4 + byte_len(self.uri))
    }
}

impl NFTMetadata {
    /// Bytes reserved for a record when it is created. The width is fixed: a
    /// record never grows past it.
    pub const LEN: usize = 32 + 32 + 4 + 32 + 4 + 10 + 4 + 200;

    /// Whether every field fits the width that storage reserves for it.
    pub fn is_valid(&self) -> (ok: bool)
        ensures
            ok == self@.wf(),
    {
        text_fits(self.name.as_str(), MAX_NAME_LEN) && text_fits(self.symbol.as_str(), MAX_SYMBOL_LEN)
            && text_fits(self.uri.as_str(), MAX_URI_LEN)
    }

    /// A record whose fields fit never takes more than the reserved width.
    pub proof fn lemma_fits_reserved_width(record: NFTMetadataView)
        requires
            record.wf(),
        ensures
            record.stored_len() <= NFTMetadata::LEN,
    {
    }
}

impl Default for NFTMetadata {
    /// The record of no asset: zero identities and empty texts.
    fn default() -> (record: NFTMetadata)
        ensures
            record@ == (NFTMetadataView {
                mint: zero_key(),
                authority: zero_key(),
                name: Seq::<char>::empty(),
                symbol: Seq::<char>::empty(),
                uri: Seq::<char>::empty(),
            }),
    {
        NFTMetadata {
            mint: Pubkey::default(),
            authority: Pubkey::default(),
            name: String::new(),
            symbol: String::new(),
            uri: String::new(),
        }
    }
}

/// The records that a metadata update touches.
#[derive(Clone, Debug, PartialEq, Eq)]
pub struct UpdateNft {
    /// The record to edit.
    pub nft_metadata: NFTMetadata,
    /// The identity that claims to be the update authority.
    pub authority: Signer,
}

/// What the records of an update hold.
pub struct UpdateNftView {
    pub nft_metadata: NFTMetadataView,
    pub authority: SignerView,
}

impl View for UpdateNft {
    type V = UpdateNftView;

    open spec fn view(&self) -> UpdateNftView {
        UpdateNftView { nft_metadata: self.nft_metadata@, authority: self.authority@ }
    }
}

impl UpdateNftView {
    /// How an update with these new values ends. An absent value asks for
    /// nothing and so cannot be too long; a present one, empty or not, must
    /// fit its field.
    pub open spec fn outcome(
        self,
        name: Option<Seq<char>>,
        symbol: Option<Seq<char>>,
        uri: Option<Seq<char>>,
    ) -> Result<(), ErrorCode> {
        if !self.authority.approves(self.nft_metadata.authority) {
            Err(ErrorCode::UnauthorizedAuthority)
        } else if !(fits_if_present(name, MAX_NAME_LEN) && fits_if_present(symbol, MAX_SYMBOL_LEN)
            && fits_if_present(uri, MAX_URI_LEN)) {
            Err(ErrorCode::InvalidInput)
        } else {
            Ok(())
        }
    }

    /// The records once each present value has replaced its field.
    pub open spec fn updated(
        self,
        name: Option<Seq<char>>,
        symbol: Option<Seq<char>>,
        uri: Option<Seq<char>>,
    ) -> UpdateNftView {
        UpdateNftView {
            nft_metadata: NFTMetadataView {
                name: replaced(self.nft_metadata.name, name),
                symbol: replaced(self.nft_metadata.symbol, symbol),
                uri: replaced(self.nft_metadata.uri, uri),
                ..self.nft_metadata
            },
            authority: self.authority,
        }
    }
}

impl UpdateNftView {
    /// The records after the instruction, however it ended.
    pub open spec fn after(
        self,
        name: Option<Seq<char>>,
        symbol: Option<Seq<char>>,
        uri: Option<Seq<char>>,
    ) -> UpdateNftView {
        if self.outcome(name, symbol, uri) is Ok {
            self.updated(name, symbol, uri)
        } else {
            self
        }
    }
}

/// Edits the descriptive fields of a metadata record. The signer must be the
/// record's update authority. Each value that is present replaces its field,
/// an empty one included; each that is absent leaves its field as it was. The
/// asset and the update authority never change. A rejected instruction changes
/// nothing.
pub fn update_nft(
    ctx: &mut UpdateNft,
    name: Option<String>,
    symbol: Option<String>,
    uri: Option<String>,
) -> (result: Result<(), ErrorCode>)
    ensures
        result == old(ctx)@.outcome(text_view(name), text_view(symbol), text_view(uri)),
        final(ctx)@ == old(ctx)@.after(text_view(name), text_view(symbol), text_view(uri)),
        old(ctx).nft_metadata@.wf() ==> final(ctx).nft_metadata@.wf(),
{
    if !ctx.authority.is_authority(&ctx.nft_metadata.authority) {
        return Err(ErrorCode::UnauthorizedAuthority);
    }
    if !(text_fits_if_present(&name, MAX_NAME_LEN) && text_fits_if_present(&symbol, MAX_SYMBOL_LEN)
        && text_fits_if_present(&uri, MAX_URI_LEN)) {
        return Err(ErrorCode::InvalidInput);
    }
    if let Some(name) = name {
        ctx.nft_metadata.name = name;
    }
    if let Some(symbol) = symbol {
        ctx.nft_metadata.symbol = symbol;
    }
    if let Some(uri) = uri {
        ctx.nft_metadata.uri = uri;
    }
    Ok(())
}

/// An update touches only what it names: each field whose new value is
/// absent is afterwards what it was before, and so are the asset and the
/// update authority, whether the update went ahead or not.
pub proof fn lemma_update_keeps_absent_fields(
    pre: UpdateNftView,
    name: Option<Seq<char>>,
    symbol: Option<Seq<char>>,
    uri: Option<Seq<char>>,
)
    ensures
        name is None ==> pre.after(name, symbol, uri).nft_metadata.name == pre.nft_metadata.name,
        symbol is None ==> pre.after(name, symbol, uri).nft_metadata.symbol
            == pre.nft_metadata.symbol,
        uri is None ==> pre.after(name, symbol, uri).nft_metadata.uri == pre.nft_metadata.uri,
        pre.after(name, symbol, uri).nft_metadata.mint == pre.nft_metadata.mint,
        pre.after(name, symbol, uri).nft_metadata.authority == pre.nft_metadata.authority,
        pre.after(name, symbol, uri).authority == pre.authority,
{
}

/// An update that goes ahead writes each present value as it was given, an
/// empty one too.
pub proof fn lemma_update_writes_present_fields(
    pre: UpdateNftView,
    name: Option<Seq<char>>,
    symbol: Option<Seq<char>>,
    uri: Option<Seq<char>>,
)
    requires
        pre.outcome(name, symbol, uri) is Ok,
    ensures
        name matches Some(text) ==> pre.after(name, symbol, uri).nft_metadata.name == text,
        symbol matches Some(text) ==> pre.after(name, symbol, uri).nft_metadata.symbol == text,
        uri matches Some(text) ==> pre.after(name, symbol, uri).nft_metadata.uri == text,
{
}

/// Only the update authority edits: with a signer that has not signed, or is
/// not the record's update authority, an update fails with
/// `UnauthorizedAuthority` whatever it asks for, and the record stays as it
/// was.
pub proof fn lemma_update_unauthorized_rejected(
    pre: UpdateNftView,
    name: Option<Seq<char>>,
    symbol: Option<Seq<char>>,
    uri: Option<Seq<char>>,
)
    requires
        !pre.authority.approves(pre.nft_metadata.authority),
    ensures
        pre.outcome(name, symbol, uri) == Err::<(), ErrorCode>(ErrorCode::UnauthorizedAuthority),
        pre.after(name, symbol, uri) == pre,
{
}

/// A record never outgrows its storage: an authorised update with a present
/// value past its field's bound fails with `InvalidInput` and changes
/// nothing, and no update takes a record whose fields fit to one whose fields
/// do not.
pub proof fn lemma_update_keeps_fields_in_bounds(
    pre: UpdateNftView,
    name: Option<Seq<char>>,
    symbol: Option<Seq<char>>,
    uri: Option<Seq<char>>,
)
    ensures
        pre.authority.approves(pre.nft_metadata.authority) && !(fits_if_present(name, MAX_NAME_LEN)
            && fits_if_present(symbol, MAX_SYMBOL_LEN) && fits_if_present(uri, MAX_URI_LEN))
            ==> pre.outcome(name, symbol, uri) == Err::<(), ErrorCode>(ErrorCode::InvalidInput)
            && pre.after(name, symbol, uri) == pre,
        pre.nft_metadata.wf() ==> pre.after(name, symbol, uri).nft_metadata.wf(),
{
}

} // verus!
