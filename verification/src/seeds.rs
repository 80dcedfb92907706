//! The seeds from which the address of each record is derived.
//!
//! The address of a record is a function of its seeds alone, so whoever
//! knows the seeds can find the record. The derivation itself is the host's.

use vstd::prelude::*;
use vstd::slice::slice_to_vec;
use vstd::utf8::encode_utf8;
use crate::identity::Identity;
use crate::state::Event;

verus! {

/// What a list of seeds holds: the bytes of each seed, in order.
pub open spec fn seed_bytes(seeds: Vec<Vec<u8>>) -> Seq<Seq<u8>> {
    Seq::new(seeds@.len(), |i: int| seeds@[i]@)
}

/// The seeds of the configuration: the word `config`.
pub open spec fn config_seeds_of() -> Seq<Seq<u8>> {
    seq![encode_utf8("config"@)]
}

/// The seeds of an event: the word `event`, its organizer and its id.
pub open spec fn event_seeds_of(organizer: Identity, event_id: Seq<char>) -> Seq<Seq<u8>> {
    seq![encode_utf8("event"@), organizer@, encode_utf8(event_id)]
}

/// The seeds of a tier: the word `tier`, the address of its event and its id.
pub open spec fn tier_seeds_of(event_key: Identity, tier_id: Seq<char>) -> Seq<Seq<u8>> {
    seq![encode_utf8("tier"@), event_key@, encode_utf8(tier_id)]
}

/// The seeds of a profile: the word `user` and its owner.
pub open spec fn user_seeds_of(owner: Identity) -> Seq<Seq<u8>> {
    seq![encode_utf8("user"@), owner@]
}

/// The seeds of an agent: the word `agent`, its owner and its id.
pub open spec fn agent_seeds_of(owner: Identity, agent_id: Seq<char>) -> Seq<Seq<u8>> {
    seq![encode_utf8("agent"@), owner@, encode_utf8(agent_id)]
}

/// The seeds of an escrow: the word `escrow`, the address of its agent and
/// the agent's owner.
pub open spec fn escrow_seeds_of(agent_key: Identity, owner: Identity) -> Seq<Seq<u8>> {
    seq![encode_utf8("escrow"@), agent_key@, owner@]
}

/// The seeds of a ticket counter: the words `user_ticket_counter`, the user
/// and the address of the event.
pub open spec fn ticket_counter_seeds_of(user: Identity, event_key: Identity) -> Seq<Seq<u8>> {
    seq![encode_utf8("user_ticket_counter"@), user@, event_key@]
}

/// The seeds of a listing: the word `listing`, the mint of the ticket and
/// the id of the listing.
pub open spec fn listing_seeds_of(ticket_mint: Identity, listing_id: Seq<char>) -> Seq<Seq<u8>> {
    seq![encode_utf8("listing"@), ticket_mint@, encode_utf8(listing_id)]
}

/// The seeds of an offer: the word `offer`, the address of the listing and
/// the buyer.
pub open spec fn offer_seeds_of(listing_key: Identity, buyer: Identity) -> Seq<Seq<u8>> {
    seq![encode_utf8("offer"@), listing_key@, buyer@]
}

/// The seeds with which an event signs: its own seeds and then its bump.
pub open spec fn event_signer_seeds_of(event: Event) -> Seq<Seq<u8>> {
    event_seeds_of(event.organizer, event.event_id@).push(seq![event.bump])
}

/// The bytes of a text.
fn text_seed(text: &str) -> (seed: Vec<u8>)
    ensures
        seed@ == encode_utf8(text@),
{
    slice_to_vec(text.as_bytes())
}

/// The seeds of the configuration.
pub fn config_seeds() -> (seeds: Vec<Vec<u8>>)
    ensures
        seed_bytes(seeds) == config_seeds_of(),
{
    let mut seeds: Vec<Vec<u8>> = Vec::new();
    seeds.push(text_seed("config"));
    assert(seed_bytes(seeds) =~= config_seeds_of());
    seeds
}

/// The seeds of an event.
pub fn event_seeds(organizer: &Identity, event_id: &String) -> (seeds: Vec<Vec<u8>>)
    ensures
        seed_bytes(seeds) == event_seeds_of(*organizer, event_id@),
{
    let mut seeds: Vec<Vec<u8>> = Vec::new();
    seeds.push(text_seed("event"));
    seeds.push(organizer.to_vec());
    seeds.push(text_seed(event_id.as_str()));
    assert(seed_bytes(seeds) =~= event_seeds_of(*organizer, event_id@));
    seeds
}

/// The seeds of a tier.
pub fn tier_seeds(event_key: &Identity, tier_id: &String) -> (seeds: Vec<Vec<u8>>)
    ensures
        seed_bytes(seeds) == tier_seeds_of(*event_key, tier_id@),
{
    let mut seeds: Vec<Vec<u8>> = Vec::new();
    seeds.push(text_seed("tier"));
    seeds.push(event_key.to_vec());
    seeds.push(text_seed(tier_id.as_str()));
    assert(seed_bytes(seeds) =~= tier_seeds_of(*event_key, tier_id@));
    seeds
}

/// The seeds of a profile.
pub fn user_seeds(owner: &Identity) -> (seeds: Vec<Vec<u8>>)
    ensures
        seed_bytes(seeds) == user_seeds_of(*owner),
{
    let mut seeds: Vec<Vec<u8>> = Vec::new();
    seeds.push(text_seed("user"));
    seeds.push(owner.to_vec());
    assert(seed_bytes(seeds) =~= user_seeds_of(*owner));
    seeds
}

/// The seeds of an agent.
pub fn agent_seeds(owner: &Identity, agent_id: &String) -> (seeds: Vec<Vec<u8>>)
    ensures
        seed_bytes(seeds) == agent_seeds_of(*owner, agent_id@),
{
    let mut seeds: Vec<Vec<u8>> = Vec::new();
    seeds.push(text_seed("agent"));
    seeds.push(owner.to_vec());
    seeds.push(text_seed(agent_id.as_str()));
    assert(seed_bytes(seeds) =~= agent_seeds_of(*owner, agent_id@));
    seeds
}

/// The seeds of an escrow.
pub fn escrow_seeds(agent_key: &Identity, owner: &Identity) -> (seeds: Vec<Vec<u8>>)
    ensures
        seed_bytes(seeds) == escrow_seeds_of(*agent_key, *owner),
{
    let mut seeds: Vec<Vec<u8>> = Vec::new();
    seeds.push(text_seed("escrow"));
    seeds.push(agent_key.to_vec());
    seeds.push(owner.to_vec());
    assert(seed_bytes(seeds) =~= escrow_seeds_of(*agent_key, *owner));
    seeds
}

/// The seeds of a ticket counter.
pub fn ticket_counter_seeds(user: &Identity, event_key: &Identity) -> (seeds: Vec<Vec<u8>>)
    ensures
        seed_bytes(seeds) == ticket_counter_seeds_of(*user, *event_key),
{
    let mut seeds: Vec<Vec<u8>> = Vec::new();
    seeds.push(text_seed("user_ticket_counter"));
    seeds.push(user.to_vec());
    seeds.push(event_key.to_vec());
    assert(seed_bytes(seeds) =~= ticket_counter_seeds_of(*user, *event_key));
    seeds
}

/// The seeds of a listing.
pub fn listing_seeds(ticket_mint: &Identity, listing_id: &String) -> (seeds: Vec<Vec<u8>>)
    ensures
        seed_bytes(seeds) == listing_seeds_of(*ticket_mint, listing_id@),
{
    let mut seeds: Vec<Vec<u8>> = Vec::new();
    seeds.push(text_seed("listing"));
    seeds.push(ticket_mint.to_vec());
    seeds.push(text_seed(listing_id.as_str()));
    assert(seed_bytes(seeds) =~= listing_seeds_of(*ticket_mint, listing_id@));
    seeds
}

/// The seeds of an offer.
pub fn offer_seeds(listing_key: &Identity, buyer: &Identity) -> (seeds: Vec<Vec<u8>>)
    ensures
        seed_bytes(seeds) == offer_seeds_of(*listing_key, *buyer),
{
    let mut seeds: Vec<Vec<u8>> = Vec::new();
    seeds.push(text_seed("offer"));
    seeds.push(listing_key.to_vec());
    seeds.push(buyer.to_vec());
    assert(seed_bytes(seeds) =~= offer_seeds_of(*listing_key, *buyer));
    seeds
}

/// The seeds with which an event signs for what it owns.
pub fn event_signer_seeds(event: &Event) -> (seeds: Vec<Vec<u8>>)
    ensures
        seed_bytes(seeds) == event_signer_seeds_of(*event),
{
    let mut seeds = event_seeds(&event.organizer, &event.event_id);
    let mut bump: Vec<u8> = Vec::new();
    bump.push(event.bump);
    seeds.push(bump);
    assert(seed_bytes(seeds) =~= event_signer_seeds_of(*event));
    seeds
}

} // verus!
