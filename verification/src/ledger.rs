//! Asset records, custody records, and the two instructions that move the
//! single unit of a unique asset: minting it and transferring it.

use vstd::prelude::*;
use crate::error::ErrorCode;
use crate::pubkey::{Pubkey, Signer, SignerView};

verus! {

/// The whole supply of a unique asset, and the quantity that one minting or
/// one transfer moves.
pub const UNIT: u64 = 1;

/// Divisibility of a unique asset: it has no fractions.
pub const DECIMALS: u8 = 0;

/// The record of one unique asset.
#[derive(Clone, Copy, Debug, PartialEq, Eq)]
pub struct Mint {
    /// The asset's identifier.
    pub key: Pubkey,
    /// Whether issuance has created this record.
    pub is_initialized: bool,
    /// Units in circulation.
    pub supply: u64,
    /// Divisibility.
    pub decimals: u8,
    /// Who may mint; `None` closes minting for good.
    pub mint_authority: Option<Pubkey>,
    /// Who may freeze custody records of this asset.
    pub freeze_authority: Option<Pubkey>,
}

/// What an asset record holds.
pub struct MintView {
    pub key: Seq<u8>,
    pub is_initialized: bool,
    pub supply: nat,
    pub decimals: nat,
    pub mint_authority: Option<Seq<u8>>,
    pub freeze_authority: Option<Seq<u8>>,
}

/// An optional identity, by its bytes.
pub open spec fn key_view(key: Option<Pubkey>) -> Option<Seq<u8>> {
    match key {
        Some(k) => Some(k@),
        None => None,
    }
}

impl View for Mint {
    type V = MintView;

    open spec fn view(&self) -> MintView {
        MintView {
            key: self.key@,
            is_initialized: self.is_initialized,
            supply: self.supply as nat,
            decimals: self.decimals as nat,
            mint_authority: key_view(self.mint_authority),
            freeze_authority: key_view(self.freeze_authority),
        }
    }
}

impl MintView {
    /// The record is that of a unique asset: indivisible, with at most one
    /// unit in circulation, and empty until issuance has created it.
    pub open spec fn wf(self) -> bool {
        &&& self.decimals == DECIMALS
        &&& self.supply <= UNIT
        &&& !self.is_initialized ==> self.supply == 0 && self.mint_authority is None
            && self.freeze_authority is None
    }

    /// Whether `signer` has signed and is this asset's mint authority.
    pub open spec fn may_mint(self, signer: SignerView) -> bool {
        self.mint_authority matches Some(authority) && signer.approves(authority)
    }
}

impl Mint {
    /// The record of an asset that has not been issued yet.
    pub fn new(key: Pubkey) -> (mint: Mint)
        ensures
            mint@.wf(),
            mint@ == (MintView {
                key: key@,
                is_initialized: false,
                supply: 0,
                decimals: 0,
                mint_authority: None,
                freeze_authority: None,
            }),
    {
        Mint {
            key,
            is_initialized: false,
            supply: 0,
            decimals: DECIMALS,
            mint_authority: None,
            freeze_authority: None,
        }
    }

    /// Whether the record is that of a unique asset.
    pub fn is_valid(&self) -> (ok: bool)
        ensures
            ok == self@.wf(),
    {
        self.decimals == DECIMALS && self.supply <= UNIT && (self.is_initialized || (self.supply == 0
            && self.mint_authority.is_none() && self.freeze_authority.is_none()))
    }

    /// Whether `signer` has signed and is this asset's mint authority.
    pub fn may_mint(&self, signer: &Signer) -> (ok: bool)
        ensures
            ok == self@.may_mint(signer@),
    {
        match &self.mint_authority {
            Some(authority) => signer.is_authority(authority),
            None => false,
        }
    }
}

/// A custody record: how many units of one asset one holder has.
#[derive(Clone, Copy, Debug, PartialEq, Eq)]
pub struct TokenAccount {
    /// The asset held.
    pub mint: Pubkey,
    /// The holder.
    pub owner: Pubkey,
    /// Units held.
    pub amount: u64,
}

/// What a custody record holds.
pub struct TokenAccountView {
    pub mint: Seq<u8>,
    pub owner: Seq<u8>,
    pub amount: nat,
}

impl View for TokenAccount {
    type V = TokenAccountView;

    open spec fn view(&self) -> TokenAccountView {
        TokenAccountView { mint: self.mint@, owner: self.owner@, amount: self.amount as nat }
    }
}

impl TokenAccountView {
    /// No holder has more than the one unit there is.
    pub open spec fn wf(self) -> bool {
        self.amount <= UNIT
    }
}

impl TokenAccount {
    /// An empty custody record of `mint` for `owner`.
    pub fn new(mint: Pubkey, owner: Pubkey) -> (account: TokenAccount)
        ensures
            account@.wf(),
            account@ == (TokenAccountView { mint: mint@, owner: owner@, amount: 0 }),
    {
        TokenAccount { mint, owner, amount: 0 }
    }

    /// Whether the record holds no more than the one unit there is.
    pub fn is_valid(&self) -> (ok: bool)
        ensures
            ok == self@.wf(),
    {
        self.amount <= UNIT
    }
}

/// The records that minting touches.
#[derive(Clone, Copy, Debug, PartialEq, Eq)]
pub struct MintNft {
    /// The asset to mint.
    pub mint: Mint,
    /// The custody record that receives the unit.
    pub token: TokenAccount,
    /// The identity that claims to be the mint authority.
    pub owner: Signer,
}

/// What the records of a minting hold.
pub struct MintNftView {
    pub mint: MintView,
    pub token: TokenAccountView,
    pub owner: SignerView,
}

impl View for MintNft {
    type V = MintNftView;

    open spec fn view(&self) -> MintNftView {
        MintNftView { mint: self.mint@, token: self.token@, owner: self.owner@ }
    }
}

impl MintNftView {
    /// The destination is a custody record of this asset, and holds no more
    /// than is in circulation.
    pub open spec fn wf(self) -> bool {
        &&& self.mint.wf()
        &&& self.token.mint == self.mint.key
        &&& self.token.amount <= self.mint.supply
    }

    /// How minting ends on these records.
    pub open spec fn outcome(self) -> Result<(), ErrorCode> {
        if !self.mint.may_mint(self.owner) {
            Err(ErrorCode::UnauthorizedAuthority)
        } else if self.mint.supply >= UNIT {
            Err(ErrorCode::SupplyExceeded)
        } else {
            Ok(())
        }
    }

    /// The records once the unit has been minted into the destination.
    pub open spec fn minted(self) -> MintNftView {
        MintNftView {
            mint: MintView { supply: (self.mint.supply + UNIT) as nat, ..self.mint },
            token: TokenAccountView { amount: (self.token.amount + UNIT) as nat, ..self.token },
            owner: self.owner,
        }
    }

    /// The records after the instruction, however it ended.
    pub open spec fn after(self) -> MintNftView {
        if self.outcome() is Ok {
            self.minted()
        } else {
            self
        }
    }
}

impl MintNft {
    /// Whether the records belong together: a unique asset, and a custody
    /// record of it that holds no more than is in circulation.
    pub fn is_valid(&self) -> (ok: bool)
        ensures
            ok == self@.wf(),
    {
        self.mint.is_valid() && self.token.mint == self.mint.key && self.token.amount
            <= self.mint.supply
    }
}

/// Brings the asset's single unit into circulation, in the destination custody
/// record. The signer must be the recorded mint authority, and nothing may
/// have been minted before. A rejected instruction changes no record.
///
/// Where minting goes ahead, the destination's balance must have room for one
/// more unit; on records that belong together (`MintNft::is_valid`) it has.
pub fn mint_nft(ctx: &mut MintNft) -> (result: Result<(), ErrorCode>)
    requires
        old(ctx)@.outcome() is Ok ==> old(ctx).token.amount < u64::MAX,
    ensures
        result == old(ctx)@.outcome(),
        final(ctx)@ == old(ctx)@.after(),
        old(ctx)@.wf() ==> final(ctx)@.wf(),
{
    if !ctx.mint.may_mint(&ctx.owner) {
        return Err(ErrorCode::UnauthorizedAuthority);
    }
    if ctx.mint.supply >= UNIT {
        return Err(ErrorCode::SupplyExceeded);
    }
    ctx.mint.supply = ctx.mint.supply + UNIT;
    ctx.token.amount = ctx.token.amount + UNIT;
    Ok(())
}

/// Minting happens once: with the mint authority's signature on an asset
/// whose unit is already in circulation, minting fails with `SupplyExceeded`,
/// and neither the supply nor any balance changes.
pub proof fn lemma_mint_at_cap_rejected(pre: MintNftView)
    requires
        pre.mint.may_mint(pre.owner),
        pre.mint.supply >= UNIT,
    ensures
        pre.outcome() == Err::<(), ErrorCode>(ErrorCode::SupplyExceeded),
        pre.after() == pre,
{
}

/// Only the mint authority mints: with a signer that has not signed, or is
/// not the recorded mint authority, or on an asset whose minting is closed,
/// minting fails with `UnauthorizedAuthority` and changes nothing.
pub proof fn lemma_mint_unauthorized_rejected(pre: MintNftView)
    requires
        !pre.mint.may_mint(pre.owner),
    ensures
        pre.outcome() == Err::<(), ErrorCode>(ErrorCode::UnauthorizedAuthority),
        pre.after() == pre,
{
}

/// A minting that goes ahead takes the supply from nothing to the one unit,
/// all of it in the destination, and leaves the mint authority in place.
pub proof fn lemma_mint_brings_one_unit(pre: MintNftView)
    requires
        pre.wf(),
        pre.outcome() is Ok,
    ensures
        pre.mint.supply == 0,
        pre.after().mint.supply == UNIT,
        pre.after().token.amount == UNIT,
        pre.after().mint.mint_authority == pre.mint.mint_authority,
        pre.after().wf(),
{
}

/// The supply never goes down, and on the record of a unique asset it never
/// goes past the one unit.
pub proof fn lemma_supply_never_decreases(pre: MintNftView)
    ensures
        pre.after().mint.supply >= pre.mint.supply,
        pre.wf() ==> pre.after().mint.supply <= UNIT,
{
}

/// The records that a transfer touches.
#[derive(Clone, Copy, Debug, PartialEq, Eq)]
pub struct TransferNft {
    /// The custody record that gives the unit.
    pub from: TokenAccount,
    /// The custody record that receives it.
    pub to: TokenAccount,
    /// The identity that claims to be the current holder.
    pub owner: Signer,
}

/// What the records of a transfer hold.
pub struct TransferNftView {
    pub from: TokenAccountView,
    pub to: TokenAccountView,
    pub owner: SignerView,
}

impl View for TransferNft {
    type V = TransferNftView;

    open spec fn view(&self) -> TransferNftView {
        TransferNftView { from: self.from@, to: self.to@, owner: self.owner@ }
    }
}

impl TransferNftView {
    /// Both records are of one asset, and between them they hold no more than
    /// its one unit.
    pub open spec fn wf(self) -> bool {
        &&& self.from.mint == self.to.mint
        &&& self.from.amount + self.to.amount <= UNIT
    }

    /// How a transfer ends on these records.
    pub open spec fn outcome(self) -> Result<(), ErrorCode> {
        if self.from.amount < UNIT {
            Err(ErrorCode::InsufficientBalance)
        } else if !self.owner.approves(self.from.owner) {
            Err(ErrorCode::UnauthorizedAuthority)
        } else {
            Ok(())
        }
    }

    /// The records once the unit has moved.
    pub open spec fn transferred(self) -> TransferNftView {
        TransferNftView {
            from: TokenAccountView { amount: (self.from.amount - UNIT) as nat, ..self.from },
            to: TokenAccountView { amount: (self.to.amount + UNIT) as nat, ..self.to },
            owner: self.owner,
        }
    }

    /// The records after the instruction, however it ended.
    pub open spec fn after(self) -> TransferNftView {
        if self.outcome() is Ok {
            self.transferred()
        } else {
            self
        }
    }
}

impl TransferNft {
    /// Whether the records belong together: two custody records of one
    /// asset, with at most its one unit between them.
    pub fn is_valid(&self) -> (ok: bool)
        ensures
            ok == self@.wf(),
    {
        self.from.mint == self.to.mint && self.from.amount <= UNIT && self.to.amount <= UNIT
            - self.from.amount
    }
}

/// Moves the asset's unit from one custody record to the other. The source
/// must hold it, and the signer must be the source's holder. A rejected
/// instruction changes no record.
///
/// Where the transfer goes ahead, the destination's balance must have room for
/// one more unit; on records that belong together (`TransferNft::is_valid`)
/// it has.
pub fn transfer_nft(ctx: &mut TransferNft) -> (result: Result<(), ErrorCode>)
    requires
        old(ctx)@.outcome() is Ok ==> old(ctx).to.amount < u64::MAX,
    ensures
        result == old(ctx)@.outcome(),
        final(ctx)@ == old(ctx)@.after(),
        old(ctx)@.wf() ==> final(ctx)@.wf(),
{
    if ctx.from.amount < UNIT {
        return Err(ErrorCode::InsufficientBalance);
    }
    if !ctx.owner.is_authority(&ctx.from.owner) {
        return Err(ErrorCode::UnauthorizedAuthority);
    }
    ctx.from.amount = ctx.from.amount - UNIT;
    ctx.to.amount = ctx.to.amount + UNIT;
    Ok(())
}

/// A transfer that goes ahead moves exactly one unit: the source holds one
/// less, the destination one more, and the two together as much as before, so
/// that the supply is untouched.
pub proof fn lemma_transfer_moves_one_unit(pre: TransferNftView)
    requires
        pre.outcome() is Ok,
    ensures
        pre.after().from.amount == pre.from.amount - UNIT,
        pre.after().to.amount == pre.to.amount + UNIT,
        pre.after().from.amount + pre.after().to.amount == pre.from.amount + pre.to.amount,
        pre.after().from.owner == pre.from.owner,
        pre.after().to.owner == pre.to.owner,
{
}

/// A transfer from a source that holds nothing fails with
/// `InsufficientBalance`, whoever signs, and changes nothing.
pub proof fn lemma_transfer_from_empty_rejected(pre: TransferNftView)
    requires
        pre.from.amount == 0,
    ensures
        pre.outcome() == Err::<(), ErrorCode>(ErrorCode::InsufficientBalance),
        pre.after() == pre,
{
}

/// Only the holder transfers: from a source that holds the unit, a signer
/// that has not signed or is not the source's holder gets
/// `UnauthorizedAuthority`, and nothing changes.
pub proof fn lemma_transfer_unauthorized_rejected(pre: TransferNftView)
    requires
        pre.from.amount >= UNIT,
        !pre.owner.approves(pre.from.owner),
    ensures
        pre.outcome() == Err::<(), ErrorCode>(ErrorCode::UnauthorizedAuthority),
        pre.after() == pre,
{
}

} // verus!
