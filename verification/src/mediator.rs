//! The shared application state: the identities of the two parties, their
//! mediators, and the packet channel.
use crate::identity::{profile_key_types, IdentityInfo, IdentityInfoView};
use crate::packet_logger::PacketEvent;
use tokio::sync::broadcast::Sender;
use vstd::prelude::*;

verus! {

/// One of the two parties of the demo. It stands for the party's activated
/// messaging profile.
#[derive(Debug, Clone, Copy, PartialEq, Eq, Structural)]
pub enum Party {
    Alice,
    Bob,
}

/// The party that a lower-case alias names.
pub open spec fn party_named(lowered: Seq<char>) -> Option<Party> {
    if lowered == "alice"@ {
        Some(Party::Alice)
    } else if lowered == "bob"@ {
        Some(Party::Bob)
    } else {
        None
    }
}

impl Party {
    /// The party that a lower-case alias names: `alice` or `bob`.
    pub fn from_lowered(lowered: &str) -> (party: Option<Party>)
        ensures
            party == party_named(lowered@),
    {
        if crate::text::same_text(lowered, "alice") {
            Some(Party::Alice)
        } else if crate::text::same_text(lowered, "bob") {
            Some(Party::Bob)
        } else {
            None
        }
    }
}

/// Shared application state passed into every handler.
pub struct AppState {
    /// Public identity metadata for the frontend.
    pub alice_info: IdentityInfo,
    pub bob_info: IdentityInfo,
    /// The mediators of the two parties (needed for forwarding).
    pub alice_mediator_did: String,
    pub bob_mediator_did: String,
    /// Packet event broadcast channel.
    pub packet_tx: Sender<PacketEvent>,
}

/// What the application state holds.
pub struct AppStateView {
    pub alice_info: IdentityInfoView,
    pub bob_info: IdentityInfoView,
    pub alice_mediator_did: Seq<char>,
    pub bob_mediator_did: Seq<char>,
    /// The sending half of the packet channel, as it is.
    pub packet_tx: Sender<PacketEvent>,
}

impl AppStateView {
    /// The identifier of a party.
    pub open spec fn did(self, party: Party) -> Seq<char> {
        match party {
            Party::Alice => self.alice_info.did,
            Party::Bob => self.bob_info.did,
        }
    }

    /// The identifier of a party's mediator.
    pub open spec fn mediator_did(self, party: Party) -> Seq<char> {
        match party {
            Party::Alice => self.alice_mediator_did,
            Party::Bob => self.bob_mediator_did,
        }
    }
}

impl View for AppState {
    type V = AppStateView;

    open spec fn view(&self) -> AppStateView {
        AppStateView {
            alice_info: self.alice_info@,
            bob_info: self.bob_info@,
            alice_mediator_did: self.alice_mediator_did@,
            bob_mediator_did: self.bob_mediator_did@,
            packet_tx: self.packet_tx,
        }
    }
}

impl AppState {
    /// The identifier of a party.
    pub fn did(&self, party: Party) -> (did: &str)
        ensures
            did@ == self@.did(party),
    {
        match party {
            Party::Alice => self.alice_info.did.as_str(),
            Party::Bob => self.bob_info.did.as_str(),
        }
    }

    /// The identifier of a party's mediator.
    pub fn mediator_did(&self, party: Party) -> (did: &str)
        ensures
            did@ == self@.mediator_did(party),
    {
        match party {
            Party::Alice => self.alice_mediator_did.as_str(),
            Party::Bob => self.bob_mediator_did.as_str(),
        }
    }
}

/// The identity of a party with a mediator, under its display name.
pub open spec fn identity_of(name: Seq<char>, did: Seq<char>, mediator: Seq<char>) -> IdentityInfoView {
    IdentityInfoView {
        alias: name,
        did,
        mediator_did: Some(mediator),
        key_types: profile_key_types(),
    }
}

/// The mediator of a profile: the one it names, or the empty text.
pub open spec fn mediator_or_empty(mediator: Option<String>) -> Seq<char> {
    match mediator {
        Some(m) => m@,
        None => Seq::<char>::empty(),
    }
}

/// Builds the application state from the identifiers of the two activated
/// profiles, the mediators that the profiles name, and the packet channel.
pub fn initialise(
    alice_did: &str,
    alice_mediator: Option<String>,
    bob_did: &str,
    bob_mediator: Option<String>,
    packet_tx: Sender<PacketEvent>,
) -> (state: AppState)
    ensures
        state@.alice_info == identity_of("Alice"@, alice_did@, mediator_or_empty(alice_mediator)),
        state@.bob_info == identity_of("Bob"@, bob_did@, mediator_or_empty(bob_mediator)),
        state@.alice_mediator_did == mediator_or_empty(alice_mediator),
        state@.bob_mediator_did == mediator_or_empty(bob_mediator),
        state@.packet_tx == packet_tx,
{
    let alice_mediator_did = match alice_mediator {
        Some(m) => m,
        None => String::new(),
    };
    let bob_mediator_did = match bob_mediator {
        Some(m) => m,
        None => String::new(),
    };
    let alice_info = IdentityInfo::from_profile(
        "Alice",
        alice_did,
        Some(alice_mediator_did.as_str()),
    );
    let bob_info = IdentityInfo::from_profile("Bob", bob_did, Some(bob_mediator_did.as_str()));
    AppState { alice_info, bob_info, alice_mediator_did, bob_mediator_did, packet_tx }
}

/// How a mediator account treats its access list.
#[derive(Debug, Clone, Copy, PartialEq, Eq, Structural)]
pub enum AccessListMode {
    ExplicitAllow,
    ExplicitDeny,
}

/// Which party has to put the other on its access list before the two can
/// exchange messages.
#[derive(Debug, Clone, Copy, PartialEq, Eq, Structural)]
pub struct AccessListPlan {
    /// Alice adds Bob.
    pub alice_adds_bob: bool,
    /// Bob adds Alice.
    pub bob_adds_alice: bool,
}

/// Plans the access lists: a party whose account admits only the senders on
/// its list adds the other party.
pub fn plan_access_lists(
    alice_mode: AccessListMode,
    bob_mode: AccessListMode,
) -> (plan: AccessListPlan)
    ensures
        plan.alice_adds_bob == (alice_mode == AccessListMode::ExplicitAllow),
        plan.bob_adds_alice == (bob_mode == AccessListMode::ExplicitAllow),
{
    AccessListPlan {
        alice_adds_bob: matches!(alice_mode, AccessListMode::ExplicitAllow),
        bob_adds_alice: matches!(bob_mode, AccessListMode::ExplicitAllow),
    }
}

} // verus!
