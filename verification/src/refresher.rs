//! The schedule by which the store of signing keys is kept up to date.
//!
//! The refresher goes round its providers for ever. Of each it asks the
//! keys, and offers the store what came. Where a provider does not answer
//! it waits a short while and goes on to the next. After the last provider
//! it rests, and then starts over. It neither fetches nor sleeps itself:
//! it says what is to be done, and is told what came of it.

use vstd::prelude::*;
use crate::jwk::{Jwk, KeyId, KeyMap};
use crate::store::{merge, named_keys, JwkStore};

verus! {

/// The seconds to wait after a provider that did not answer.
pub const FETCH_BACKOFF_SECS: u64 = 30;

/// The seconds to rest between two rounds.
pub const REFRESH_INTERVAL_SECS: u64 = 3600;

/// An identity provider whose signing keys the service follows.
#[derive(Clone, Copy, Debug, PartialEq, Eq, Structural)]
pub enum Provider {
    Facebook,
    Google,
    Twitch,
    Kakao,
    Apple,
    Slack,
}

/// What the refresher asks to be done next.
#[derive(Clone, Copy, Debug, PartialEq, Eq, Structural)]
pub enum RefreshAction {
    /// Ask this provider for its keys.
    Fetch(Provider),
    /// Let this many seconds pass.
    Sleep(u64),
}

/// What came of the last thing the refresher asked for.
#[derive(Debug)]
pub enum RefreshEvent {
    /// The provider answered with these keys.
    Fetched(Vec<(KeyId, Jwk)>),
    /// The provider did not answer, or not with keys.
    FetchFailed,
    /// The time has passed.
    Slept,
}

/// What the refresher is waiting for.
#[derive(Clone, Copy, Debug, PartialEq, Eq, Structural)]
pub enum Phase {
    /// The keys of the provider it stands at.
    Fetching,
    /// The end of the wait after a provider that did not answer.
    BackingOff,
    /// The end of the rest between two rounds.
    Resting,
}

/// What a `Refresher` is in contracts: its providers in the order of a
/// round, the one it stands at, and what it waits for.
pub struct RefresherView {
    pub providers: Seq<Provider>,
    pub position: nat,
    pub phase: Phase,
}

impl RefresherView {
    /// The refresher at the start of a round.
    pub open spec fn round_start(providers: Seq<Provider>) -> RefresherView {
        if providers.len() > 0 {
            RefresherView { providers, position: 0, phase: Phase::Fetching }
        } else {
            RefresherView { providers, position: 0, phase: Phase::Resting }
        }
    }

    /// The refresher once it is done with the provider it stands at: at the
    /// next one, or at rest after the last.
    pub open spec fn provider_done(self) -> RefresherView {
        if self.position + 1 < self.providers.len() {
            RefresherView {
                providers: self.providers,
                position: self.position + 1,
                phase: Phase::Fetching,
            }
        } else {
            RefresherView {
                providers: self.providers,
                position: self.providers.len(),
                phase: Phase::Resting,
            }
        }
    }

    /// What the refresher asks for.
    pub open spec fn action(self) -> RefreshAction {
        match self.phase {
            Phase::Fetching => RefreshAction::Fetch(self.providers[self.position as int]),
            Phase::BackingOff => RefreshAction::Sleep(FETCH_BACKOFF_SECS),
            Phase::Resting => RefreshAction::Sleep(REFRESH_INTERVAL_SECS),
        }
    }

    /// The refresher after an event. One that is no answer to what it asks
    /// for leaves it as it is.
    pub open spec fn step(self, event: RefreshEvent) -> RefresherView {
        match (self.phase, event) {
            (Phase::Fetching, RefreshEvent::Fetched(_)) => self.provider_done(),
            (Phase::Fetching, RefreshEvent::FetchFailed) => RefresherView {
                providers: self.providers,
                position: self.position,
                phase: Phase::BackingOff,
            },
            (Phase::BackingOff, RefreshEvent::Slept) => self.provider_done(),
            (Phase::Resting, RefreshEvent::Slept) => RefresherView::round_start(self.providers),
            _ => self,
        }
    }

    /// The keys of the store after an event: those that a provider
    /// answered with are offered to it while its keys are awaited, and
    /// nothing else ever touches it.
    pub open spec fn keys_after(self, keys: KeyMap, event: RefreshEvent) -> KeyMap {
        match (self.phase, event) {
            (Phase::Fetching, RefreshEvent::Fetched(offered)) => merge(keys, named_keys(offered@)),
            _ => keys,
        }
    }
}

/// The refresher.
pub struct Refresher {
    providers: Vec<Provider>,
    position: usize,
    phase: Phase,
}

impl View for Refresher {
    type V = RefresherView;

    closed spec fn view(&self) -> RefresherView {
        RefresherView {
            providers: self.providers@,
            position: self.position as nat,
            phase: self.phase,
        }
    }
}

impl Refresher {
    #[verifier::type_invariant]
    spec fn stands_at_a_provider(self) -> bool {
        &&& self.position <= self.providers.len()
        &&& self.phase != Phase::Resting ==> self.position < self.providers.len()
    }

    /// The providers that the service follows, in the order of a round.
    pub fn default_providers() -> (providers: Vec<Provider>)
        ensures
            providers@ == seq![
                Provider::Facebook,
                Provider::Google,
                Provider::Twitch,
                Provider::Kakao,
                Provider::Apple,
                Provider::Slack,
            ],
    {
        let mut providers: Vec<Provider> = Vec::new();
        providers.push(Provider::Facebook);
        providers.push(Provider::Google);
        providers.push(Provider::Twitch);
        providers.push(Provider::Kakao);
        providers.push(Provider::Apple);
        providers.push(Provider::Slack);
        providers
    }

    /// A refresher at the start of its first round.
    pub fn new(providers: Vec<Provider>) -> (refresher: Refresher)
        ensures
            refresher@ == RefresherView::round_start(providers@),
    {
        if providers.len() > 0 {
            Refresher { providers, position: 0, phase: Phase::Fetching }
        } else {
            Refresher { providers, position: 0, phase: Phase::Resting }
        }
    }

    /// What is to be done next.
    pub fn action(&self) -> (action: RefreshAction)
        ensures
            action == self@.action(),
    {
        proof {
            use_type_invariant(self);
        }
        match self.phase {
            Phase::Fetching => RefreshAction::Fetch(self.providers[self.position]),
            Phase::BackingOff => RefreshAction::Sleep(FETCH_BACKOFF_SECS),
            Phase::Resting => RefreshAction::Sleep(REFRESH_INTERVAL_SECS),
        }
    }

    /// Moves on past the provider the refresher stands at.
    fn provider_done(self) -> (next: Refresher)
        requires
            self.position < self.providers.len(),
        ensures
            next@ == self@.provider_done(),
    {
        let count = self.providers.len();
        if self.position + 1 < count {
            Refresher {
                providers: self.providers,
                position: self.position + 1,
                phase: Phase::Fetching,
            }
        } else {
            Refresher { providers: self.providers, position: count, phase: Phase::Resting }
        }
    }

    /// Takes in what came of the last action: the keys that a provider
    /// answered with are offered to the store, and the refresher moves on.
    pub fn step(self, store: &mut JwkStore, event: RefreshEvent) -> (next: Refresher)
        ensures
            next@ == self@.step(event),
            final(store)@ == self@.keys_after(old(store)@, event),
            old(store)@.submap_of(final(store)@),
    {
        proof {
            use_type_invariant(&self);
        }
        match self.phase {
            Phase::Fetching => match event {
                RefreshEvent::Fetched(offered) => {
                    store.absorb(&offered);
                    self.provider_done()
                },
                RefreshEvent::FetchFailed => Refresher {
                    providers: self.providers,
                    position: self.position,
                    phase: Phase::BackingOff,
                },
                RefreshEvent::Slept => self,
            },
            Phase::BackingOff => match event {
                RefreshEvent::Slept => self.provider_done(),
                _ => self,
            },
            Phase::Resting => match event {
                RefreshEvent::Slept => Refresher::new(self.providers),
                _ => self,
            },
        }
    }
}

/// A provider that does not answer costs a wait and nothing else: after the
/// wait the refresher stands where it would stand had the provider
/// answered, so that no provider is asked twice in a round and none is
/// passed over. The store is as it was.
pub proof fn law_failure_costs_a_wait(
    refresher: RefresherView,
    keys: KeyMap,
    offered: Vec<(KeyId, Jwk)>,
)
    requires
        refresher.phase == Phase::Fetching,
    ensures
        refresher.step(RefreshEvent::FetchFailed).action() == RefreshAction::Sleep(
            FETCH_BACKOFF_SECS,
        ),
        refresher.step(RefreshEvent::FetchFailed).step(RefreshEvent::Slept) == refresher.step(
            RefreshEvent::Fetched(offered),
        ),
        refresher.keys_after(keys, RefreshEvent::FetchFailed) == keys,
        refresher.step(RefreshEvent::FetchFailed).keys_after(keys, RefreshEvent::Slept) == keys,
{
}

/// A round asks the providers in their order, each once, and ends in the
/// long rest: done with the provider at one position, the refresher asks
/// the one at the next, and after the last it rests until it is woken into
/// the next round.
pub proof fn law_round_in_order(refresher: RefresherView)
    requires
        refresher.phase == Phase::Fetching,
        refresher.position < refresher.providers.len(),
    ensures
        refresher.action() == RefreshAction::Fetch(refresher.providers[refresher.position as int]),
        refresher.position + 1 < refresher.providers.len() ==> refresher.provider_done().action()
            == RefreshAction::Fetch(refresher.providers[(refresher.position + 1) as int]),
        refresher.position + 1 == refresher.providers.len() ==> {
            &&& refresher.provider_done().action() == RefreshAction::Sleep(REFRESH_INTERVAL_SECS)
            &&& refresher.provider_done().step(RefreshEvent::Slept) == RefresherView::round_start(
                refresher.providers,
            )
            &&& RefresherView::round_start(refresher.providers).action() == RefreshAction::Fetch(
                refresher.providers[0],
            )
        },
{
}

} // verus!
