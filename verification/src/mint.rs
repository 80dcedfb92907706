//! The token that stands for a ticket.
//!
//! An event is the authority over the tokens of its tickets. Minting is the
//! host's work; what is decided here is what to mint and who signs for it.

use vstd::prelude::*;
use crate::identity::Identity;
use crate::seeds::{event_signer_seeds, event_signer_seeds_of, seed_bytes};
use crate::state::Event;

verus! {

/// The event whose ticket is minted, who receives the token and who pays for it.
#[derive(Clone, Debug, PartialEq, Eq)]
pub struct MintTicketNFT {
    pub event: Event,
    /// Who receives the token.
    pub buyer: Identity,
    /// The caller, who pays for the storage.
    pub authority: Identity,
}

/// What is to be minted: one token that cannot be divided, for the
/// recipient, with the event as the authority that signs.
#[derive(Clone, Debug, PartialEq, Eq)]
pub struct MintOrder {
    /// The seeds with which the event signs.
    pub signer_seeds: Vec<Vec<u8>>,
    pub recipient: Identity,
    pub payer: Identity,
    pub amount: u64,
    pub name: String,
    pub symbol: String,
    pub uri: String,
    /// Share of resales that the token's own metadata asks for. The
    /// marketplace takes its royalty itself, so this is zero.
    pub seller_fee_basis_points: u16,
    pub is_mutable: bool,
    pub update_authority_is_signer: bool,
}

/// Orders the token of one ticket: a single unit for the buyer, described
/// by `name`, `symbol` and `uri`, signed for by the event.
pub fn mint_ticket_nft(ctx: &MintTicketNFT, name: String, symbol: String, uri: String) -> (order:
    MintOrder)
    ensures
        seed_bytes(order.signer_seeds) == event_signer_seeds_of(ctx.event),
        order.recipient == ctx.buyer,
        order.payer == ctx.authority,
        order.amount == 1,
        order.name == name,
        order.symbol == symbol,
        order.uri == uri,
        order.seller_fee_basis_points == 0,
        order.is_mutable,
        order.update_authority_is_signer,
{
    MintOrder {
        signer_seeds: event_signer_seeds(&ctx.event),
        recipient: ctx.buyer,
        payer: ctx.authority,
        amount: 1,
        name,
        symbol,
        uri,
        seller_fee_basis_points: 0,
        is_mutable: true,
        update_authority_is_signer: true,
    }
}

} // verus!
