//! Relay consumer: applies the packets drained from the relay channel to
//! the simulation-owned state.
//!
//! The simulation thread owns an input store and a player slot mapping;
//! once per tick it drains all queued packets and feeds each one to
//! `process_message`. Everything here is single-threaded by design: the
//! channel is the only way the network side reaches this state.

use vstd::prelude::*;
use std::collections::HashMap;
use crate::controls::{PlayerInput, spec_apply_input, spec_player_input_new};
use crate::mapping::{PlayerMapping, PlayerNum};
use crate::protocol::{AnnotatedClientPacket, ClientPacket, Packet, UserId};

verus! {

broadcast use vstd::std_specs::hash::group_hash_axioms;

/// Per-user input state, keyed by connection identifier. An entry is
/// created when the connection is announced and destroyed when it goes
/// away.
pub struct PlayerInputs {
    inputs: HashMap<u64, PlayerInput>,
}

impl View for PlayerInputs {
    type V = Map<u64, PlayerInput>;

    closed spec fn view(&self) -> Map<u64, PlayerInput> {
        self.inputs@
    }
}

impl PlayerInputs {
    /// A store with no users.
    pub fn new() -> (r: PlayerInputs)
        ensures
            r@ == Map::<u64, PlayerInput>::empty(),
    {
        let r = PlayerInputs { inputs: HashMap::new() };
        proof {
            assert(r@ =~= Map::<u64, PlayerInput>::empty());
        }
        r
    }

    /// The stored input state of one user, if the user is known.
    pub fn get(&self, user_id: UserId) -> (r: Option<PlayerInput>)
        ensures
            match r {
                Some(pi) => self@.contains_key(user_id.0) && self@[user_id.0] == pi,
                None => !self@.contains_key(user_id.0),
            },
    {
        match self.inputs.get(&user_id.0) {
            Some(pi) => Some(*pi),
            None => None,
        }
    }

    /// True when the user has stored input state.
    pub fn contains(&self, user_id: UserId) -> (r: bool)
        ensures
            r == self@.contains_key(user_id.0),
    {
        self.inputs.contains_key(&user_id.0)
    }

    /// Stores (or replaces) the input state of one user.
    pub fn set(&mut self, user_id: UserId, pi: PlayerInput)
        ensures
            final(self)@ == old(self)@.insert(user_id.0, pi),
    {
        self.inputs.insert(user_id.0, pi);
    }

    /// Forgets one user's input state; reports whether any existed.
    pub fn remove(&mut self, user_id: UserId) -> (r: bool)
        ensures
            final(self)@ == old(self)@.remove(user_id.0),
            r == old(self)@.contains_key(user_id.0),
    {
        match self.inputs.remove(&user_id.0) {
            Some(_) => true,
            None => false,
        }
    }
}

/// What `process_message` did with one packet; the embedding program
/// reports these (a missing slot or an unknown user is logged, never a
/// crash).
#[derive(Clone, Copy, Debug, PartialEq, Eq)]
pub enum RelayOutcome {
    /// A new connection was mapped to this player slot and given fresh
    /// input state.
    Connected(PlayerNum),
    /// A new connection arrived with all player slots taken; it was
    /// rejected and no state was created.
    SlotsExhausted,
    /// A connection went away: the freed slot (if one was mapped) and
    /// whether input state existed to drop.
    Disconnected(Option<PlayerNum>, bool),
    /// An input update was applied to the user's stored state.
    InputApplied,
    /// An input update arrived for a user with no stored state; dropped.
    UnknownUser,
}

/// Applies one relayed packet to the simulation state.
///
/// `Connected` assigns the smallest free player slot and fresh input
/// state; `Disconnected` releases both; an input update rewrites the
/// stored state of exactly that user and nothing else.
pub fn process_message(
    inputs: &mut PlayerInputs,
    mapping: &mut PlayerMapping,
    msg: &AnnotatedClientPacket,
) -> (r: RelayOutcome)
    requires
        old(mapping).wf(),
    ensures
        final(mapping).wf(),
        match msg.packet {
            Packet::Connected => (match r {
                RelayOutcome::Connected(n) => {
                    &&& n >= 1
                    &&& !old(mapping)@.contains_key(n)
                    &&& forall|j: PlayerNum| 1 <= j < n ==> old(mapping)@.contains_key(j)
                    &&& final(mapping)@ == old(mapping)@.insert(n, msg.user_id)
                    &&& final(inputs)@ == old(inputs)@.insert(
                        msg.user_id.0,
                        spec_player_input_new(),
                    )
                },
                RelayOutcome::SlotsExhausted => {
                    &&& forall|j: PlayerNum| j >= 1 ==> old(mapping)@.contains_key(j)
                    &&& final(mapping)@ == old(mapping)@
                    &&& final(inputs)@ == old(inputs)@
                },
                _ => false,
            }),
            Packet::Disconnected => (match r {
                RelayOutcome::Disconnected(freed, had_input) => {
                    &&& (match freed {
                        Some(n) => old(mapping)@.contains_key(n) && old(mapping)@[n]
                            == msg.user_id && (forall|j: PlayerNum| 1 <= j < n
                            ==> !(old(mapping)@.contains_key(j) && old(mapping)@[j]
                                == msg.user_id)) && final(mapping)@ == old(mapping)@.remove(n),
                        None => final(mapping)@ == old(mapping)@ && (forall|j: PlayerNum|
                            !(old(mapping)@.contains_key(j) && old(mapping)@[j] == msg.user_id)),
                    })
                    &&& had_input == old(inputs)@.contains_key(msg.user_id.0)
                    &&& final(inputs)@ == old(inputs)@.remove(msg.user_id.0)
                },
                _ => false,
            }),
            Packet::Client(ClientPacket::Input(update)) => {
                &&& final(mapping)@ == old(mapping)@
                &&& (match r {
                    RelayOutcome::InputApplied => {
                        &&& old(inputs)@.contains_key(msg.user_id.0)
                        &&& final(inputs)@ == old(inputs)@.insert(
                            msg.user_id.0,
                            spec_apply_input(old(inputs)@[msg.user_id.0], update),
                        )
                    },
                    RelayOutcome::UnknownUser => {
                        &&& !old(inputs)@.contains_key(msg.user_id.0)
                        &&& final(inputs)@ == old(inputs)@
                    },
                    _ => false,
                })
            },
        },
{
    match msg.packet {
        Packet::Connected => {
            match mapping.connect_lowest_num(&msg.user_id) {
                Some(n) => {
                    inputs.set(msg.user_id, PlayerInput::new());
                    RelayOutcome::Connected(n)
                },
                None => RelayOutcome::SlotsExhausted,
            }
        },
        Packet::Disconnected => {
            let freed = mapping.remove(&msg.user_id);
            let had_input = inputs.remove(msg.user_id);
            RelayOutcome::Disconnected(freed, had_input)
        },
        Packet::Client(ClientPacket::Input(update)) => {
            match inputs.get(msg.user_id) {
                Some(pi) => {
                    let mut pi = pi;
                    match update {
                        crate::protocol::InputUpdate::Button(bt, pressed) => {
                            pi.update_button(bt, pressed);
                        },
                        crate::protocol::InputUpdate::Joystick(axis, value) => {
                            pi.update_joystick(axis, value);
                        },
                    }
                    inputs.set(msg.user_id, pi);
                    RelayOutcome::InputApplied
                },
                None => RelayOutcome::UnknownUser,
            }
        },
    }
}

} // verus!
