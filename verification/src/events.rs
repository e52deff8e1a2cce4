//! Attack intents and the single-slot mailbox that carries them from the
//! side that decides an attack to the resolver that applies it.

use vstd::prelude::*;
use crate::phase::CombatState;

verus! {

/// Flavor of an attack. `MagicFire` is declared but not produced by the
/// current selection logic; it is reserved for later wiring.
#[derive(Clone, Copy, Debug, PartialEq, Eq, Structural)]
pub enum AttackType {
    Standard,
    MagicGeneric,
    MagicFire,
}

/// A requested attack, not yet resolved against the target's stats. The
/// target is named by its entity id; `next_state` is the phase the resolver
/// moves to when the target survives.
#[derive(Clone, Copy, Debug, PartialEq, Eq, Structural)]
pub struct FightEvent {
    pub target: u64,
    pub attack_type: AttackType,
    pub damage_amount: isize,
    pub next_state: CombatState,
}

/// Bounded single-slot mailbox for attack intents, cleared every tick. The
/// first intent written in a tick wins; any further write in the same tick
/// is rejected and dropped.
pub struct FightMailbox {
    slot: Option<FightEvent>,
}

impl FightMailbox {
    /// The intent currently held, if any.
    pub closed spec fn inbox(self) -> Option<FightEvent> {
        self.slot
    }

    /// An empty mailbox.
    pub fn new() -> (mailbox: FightMailbox)
        ensures
            mailbox.inbox() is None,
    {
        FightMailbox { slot: None }
    }

    /// Offer an intent. It is accepted only when the slot is empty; a second
    /// write in the same tick leaves the first intent in place.
    pub fn send(&mut self, event: FightEvent) -> (accepted: bool)
        ensures
            accepted == (old(self).inbox() is None),
            accepted ==> final(self).inbox() == Some(event),
            !accepted ==> final(self).inbox() == old(self).inbox(),
    {
        if self.slot.is_none() {
            self.slot = Some(event);
            true
        } else {
            false
        }
    }

    /// Remove and return the held intent, leaving the mailbox empty. An
    /// intent is consumed exactly once.
    pub fn take(&mut self) -> (event: Option<FightEvent>)
        ensures
            event == old(self).inbox(),
            final(self).inbox() is None,
    {
        let event = self.slot;
        self.slot = None;
        event
    }

    /// Drop whatever is held: the end-of-tick clear.
    pub fn clear(&mut self)
        ensures
            final(self).inbox() is None,
    {
        self.slot = None;
    }
}

} // verus!
