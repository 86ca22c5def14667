//! Creation of a quest within an event.

use vstd::prelude::*;
use crate::authority::{AuthorityRegistry, Operation};
use crate::error::AeternaError;
use crate::keys::Pubkey;
use crate::state::{Event, Quest};

verus! {

/// Adds the quest called `name` to the event with key `event_key`. Only
/// the event's organizer may add quests to it.
pub fn handler(
    registry: &AuthorityRegistry,
    caller: &Pubkey,
    event_key: &Pubkey,
    event: &Event,
    name: String,
    xp_reward: u64,
    bump: u8,
) -> (result: Result<Quest, AeternaError>)
    ensures
        result is Ok <==> *caller == event.authority,
        result is Err ==> result == Err::<Quest, AeternaError>(AeternaError::Unauthorized),
        result matches Ok(quest) ==> quest.event == *event_key && quest.name == name
            && quest.xp_reward == xp_reward && quest.bump == bump,
{
    let operation = Operation::EventScoped { authority: event.authority };
    match registry.authorize(caller, &operation) {
        Ok(()) => Ok(Quest::new(*event_key, name, xp_reward, bump)),
        Err(reason) => Err(reason),
    }
}

} // verus!
