//! The conversations of all owners, each in a state of its own.

use crate::dialogue::{is_step, outcome_view, step, Event, MidFlow, Reply, State, StateView};
use crate::error::WalletError;
use crate::users::UsersData;
use vstd::hash_map::StringHashMap;
use vstd::prelude::*;

verus! {

/// The states of the conversations, by owner. An owner that was never heard
/// of, or whose conversation is over, stands at the start and takes no room.
pub struct Dialogues {
    policy: MidFlow,
    states: StringHashMap<State>,
}

impl Dialogues {
    /// What a command does while a reply is awaited.
    pub closed spec fn policy(&self) -> MidFlow {
        self.policy
    }

    /// Where the conversation with `owner` stands.
    pub closed spec fn state_of(&self, owner: Seq<char>) -> StateView {
        if self.states@.contains_key(owner) {
            self.states@[owner]@
        } else {
            StateView::Start
        }
    }

    /// No conversation has begun.
    pub fn new(policy: MidFlow) -> (dialogues: Self)
        ensures
            dialogues.policy() == policy,
            forall|owner: Seq<char>| #[trigger] dialogues.state_of(owner) == StateView::Start,
    {
        Dialogues { policy, states: StringHashMap::new() }
    }

    /// Where the conversation with `owner` stands.
    pub fn state(&self, owner: &str) -> (state: State)
        ensures
            state@ == self.state_of(owner@),
    {
        match self.states.get(owner) {
            Some(state) => state.clone(),
            None => State::Start,
        }
    }

    /// Puts the conversation with `owner` back to the start, whatever was
    /// awaited, and drops what was collected. No other owner is touched.
    pub fn reset(&mut self, owner: &str)
        ensures
            final(self).policy() == old(self).policy(),
            final(self).state_of(owner@) == StateView::Start,
            forall|other: Seq<char>|
                other != owner@ ==> #[trigger] final(self).state_of(other) == old(self).state_of(other),
    {
        self.states.remove(owner);
    }

    /// Serves one event of the conversation with `owner` and remembers where
    /// that conversation stands afterwards. No other owner is touched.
    pub fn handle(&mut self, users: &UsersData, owner: &String, event: Event) -> (outcome: Result<
        Reply,
        WalletError,
    >)
        ensures
            final(self).policy() == old(self).policy(),
            is_step(
                old(self).policy(),
                old(self).state_of(owner@),
                users@,
                owner@,
                event@,
                final(self).state_of(owner@),
                outcome_view(outcome),
            ),
            forall|other: Seq<char>|
                other != owner@ ==> #[trigger] final(self).state_of(other) == old(self).state_of(other),
    {
        let state = self.state(owner.as_str());
        let (next, outcome) = step(self.policy, state, users, owner, event);
        match next {
            State::Start => self.states.remove(owner.as_str()),
            _ => self.states.insert(owner.clone(), next),
        }
        outcome
    }
}

} // verus!
