//! Creation of an event by its organizer.

use vstd::prelude::*;
use crate::keys::Pubkey;
use crate::state::Event;

verus! {

/// Creates the event called `name`, owned by the organizer `authority`.
/// The event starts out active.
pub fn handler(authority: &Pubkey, name: String, bump: u8) -> (event: Event)
    ensures
        event.authority == *authority,
        event.name == name,
        event.active,
        event.bump == bump,
{
    Event::new(*authority, name, bump)
}

} // verus!
