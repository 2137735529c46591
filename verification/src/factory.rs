//! The Factory contract: deploys and indexes Pair instances, and administers
//! the protocol-fee receiver the pairs query.

use vstd::prelude::*;
use crate::actor::ActorId;

verus! {

/// Identity of uploaded contract code, from which pairs are instantiated.
#[derive(Clone, Copy, PartialEq, Eq, Structural, Debug)]
pub struct CodeId {
    pub value: u64,
}

/// Initializes the factory.
#[derive(Clone, Copy, PartialEq, Eq, Structural, Debug)]
pub struct Initialize {
    /// Receiver of the protocol fee; the zero identity disables the fee.
    pub fee_to: ActorId,
    /// The actor allowed to change `fee_to` and `fee_to_setter`.
    pub fee_to_setter: ActorId,
    /// Code of the Pair contract to instantiate.
    pub pair: CodeId,
}

/// What an inbound action asks the factory to do.
#[derive(Clone, Copy, PartialEq, Eq, Structural, Debug)]
pub enum Action {
    /// Creates a Pair for two distinct, nonzero token identities.
    CreatePair(ActorId, ActorId),
    /// Sets the fee receiver; the zero identity disables the fee.
    FeeTo(ActorId),
    /// Hands the administration right to another actor.
    FeeToSetter(ActorId),
    /// Asks for the current fee receiver.
    GetFeeTo,
}

/// The result of a successfully processed [`Action`].
#[derive(Clone, Copy, PartialEq, Eq, Debug)]
pub enum Event {
    PairCreated {
        /// The canonically ordered token pair.
        token_pair: (ActorId, ActorId),
        /// The deployed pair contract.
        pair_actor: ActorId,
        /// How many pairs the factory indexes, the new one included.
        pair_number: u32,
    },
    FeeToSetterSet(ActorId),
    FeeToSet(ActorId),
}

/// Error variants of a failed [`Action`].
#[derive(Clone, PartialEq, Eq, Debug)]
pub enum Error {
    /// A runtime-level failure (a reply could not be decoded or sent).
    ContractError(String),
    /// The caller is not the fee setter.
    AccessRestricted,
    /// The zero identity was found where it is forbidden.
    ZeroActorId,
    /// Both tokens of the requested pair are the same contract.
    IdenticalTokens,
    /// A pair over these tokens already exists.
    PairExist,
    /// The deployed pair failed to initialize.
    PairCreationFailed(crate::io::Error),
}

/// The factory state exposed to state queries.
pub struct State {
    pub pair: CodeId,
    pub fee_to: ActorId,
    pub fee_to_setter: ActorId,
    pub pairs: Vec<((ActorId, ActorId), ActorId)>,
}

/// The factory contract's state: the pair code, the fee administration and
/// the registry of deployed pairs, keyed by the canonically ordered tokens.
pub struct Factory {
    pub pair: CodeId,
    pub fee_to: ActorId,
    pub fee_to_setter: ActorId,
    pub pairs: Vec<((ActorId, ActorId), ActorId)>,
}

/// The registered pair contract for a token pair, if any.
pub open spec fn spec_registry_find(
    s: Seq<((ActorId, ActorId), ActorId)>,
    token_pair: (ActorId, ActorId),
) -> Option<ActorId>
    decreases s.len(),
{
    if s.len() == 0 {
        None
    } else if s[0].0 == token_pair {
        Some(s[0].1)
    } else {
        spec_registry_find(s.drop_first(), token_pair)
    }
}

/// Searches a registry for a token pair.
fn registry_find(s: &Vec<((ActorId, ActorId), ActorId)>, token_pair: (ActorId, ActorId)) -> (r:
    Option<ActorId>)
    ensures
        r == spec_registry_find(s@, token_pair),
{
    let n = s.len();
    let mut i: usize = 0;
    proof {
        assert(s@.subrange(0, n as int) =~= s@);
    }
    while i < n
        invariant
            i <= n,
            n == s@.len(),
            spec_registry_find(s@, token_pair) == spec_registry_find(
                s@.subrange(i as int, n as int),
                token_pair,
            ),
        decreases n - i,
    {
        let entry = s[i];
        proof {
            assert(s@.subrange(i as int, n as int)[0] == s@[i as int]);
            assert(s@.subrange(i as int, n as int).drop_first() =~= s@.subrange(
                i as int + 1,
                n as int,
            ));
        }
        if entry.0.0.value == token_pair.0.value && entry.0.1.value == token_pair.1.value {
            return Some(entry.1);
        }
        i = i + 1;
    }
    proof {
        assert(s@.subrange(n as int, n as int) =~= Seq::<((ActorId, ActorId), ActorId)>::empty());
    }
    None
}

impl Factory {
    /// A fresh factory with an empty registry.
    pub fn new(init: Initialize) -> (r: Self)
        ensures
            r.pair == init.pair,
            r.fee_to == init.fee_to,
            r.fee_to_setter == init.fee_to_setter,
            r.pairs@.len() == 0,
    {
        Factory {
            pair: init.pair,
            fee_to: init.fee_to,
            fee_to_setter: init.fee_to_setter,
            pairs: Vec::new(),
        }
    }

    /// Only the fee setter may administer the fee.
    pub fn check_fee_to_setter(&self, msg_source: ActorId) -> (r: Result<(), Error>)
        ensures
            r == if msg_source == self.fee_to_setter {
                Ok::<(), Error>(())
            } else {
                Err::<(), Error>(Error::AccessRestricted)
            },
    {
        if self.fee_to_setter.value != msg_source.value {
            Err(Error::AccessRestricted)
        } else {
            Ok(())
        }
    }

    /// Hands the administration right to `actor`, which must be nonzero.
    pub fn set_fee_to_setter(&mut self, msg_source: ActorId, actor: ActorId) -> (r: Result<
        Event,
        Error,
    >)
        ensures
            final(self).pair == old(self).pair,
            final(self).fee_to == old(self).fee_to,
            final(self).pairs == old(self).pairs,
            match r {
                Err(e) => final(self).fee_to_setter == old(self).fee_to_setter && if msg_source
                    != old(self).fee_to_setter {
                    e == Error::AccessRestricted
                } else {
                    e == Error::ZeroActorId && actor.value == 0
                },
                Ok(event) => {
                    &&& msg_source == old(self).fee_to_setter
                    &&& actor.value != 0
                    &&& final(self).fee_to_setter == actor
                    &&& event == Event::FeeToSetterSet(actor)
                },
            },
    {
        if let Err(e) = self.check_fee_to_setter(msg_source) {
            return Err(e);
        }
        if actor.is_zero() {
            return Err(Error::ZeroActorId);
        }
        self.fee_to_setter = actor;
        Ok(Event::FeeToSetterSet(actor))
    }

    /// Sets the fee receiver; the zero identity disables the fee.
    pub fn set_fee_receiver(&mut self, msg_source: ActorId, actor: ActorId) -> (r: Result<
        Event,
        Error,
    >)
        ensures
            final(self).pair == old(self).pair,
            final(self).fee_to_setter == old(self).fee_to_setter,
            final(self).pairs == old(self).pairs,
            match r {
                Err(e) => e == Error::AccessRestricted && msg_source != old(self).fee_to_setter
                    && final(self).fee_to == old(self).fee_to,
                Ok(event) => msg_source == old(self).fee_to_setter && final(self).fee_to == actor
                    && event == Event::FeeToSet(actor),
            },
    {
        if let Err(e) = self.check_fee_to_setter(msg_source) {
            return Err(e);
        }
        self.fee_to = actor;
        Ok(Event::FeeToSet(actor))
    }

    /// Answers a fee-receiver query.
    pub fn get_fee_to(&self) -> (r: Event)
        ensures
            r == Event::FeeToSet(self.fee_to),
    {
        Event::FeeToSet(self.fee_to)
    }

    /// The canonical order of a token pair: larger identity first (the
    /// deployed registry's convention), so the same two tokens always name
    /// the same pair whichever way a caller writes them.
    pub open spec fn spec_ordered(token_a: ActorId, token_b: ActorId) -> (ActorId, ActorId) {
        if token_b.value > token_a.value {
            (token_b, token_a)
        } else {
            (token_a, token_b)
        }
    }

    /// What creating a pair decides before the deployment: the canonically
    /// ordered tokens, or the error rejecting the request.
    pub open spec fn spec_create_pair_check(self, token_a: ActorId, token_b: ActorId) -> Result<
        (ActorId, ActorId),
        Error,
    > {
        if token_a == token_b {
            Err(Error::IdenticalTokens)
        } else if token_a.value == 0 || token_b.value == 0 {
            Err(Error::ZeroActorId)
        } else if spec_registry_find(self.pairs@, Self::spec_ordered(token_a, token_b)) is Some {
            Err(Error::PairExist)
        } else {
            Ok(Self::spec_ordered(token_a, token_b))
        }
    }

    /// Validates a create-pair request and resolves the canonical token
    /// pair; the runtime then deploys the pair contract with it.
    pub fn create_pair_start(&self, token_a: ActorId, token_b: ActorId) -> (r: Result<
        (ActorId, ActorId),
        Error,
    >)
        ensures
            r == self.spec_create_pair_check(token_a, token_b),
    {
        if token_a.value == token_b.value {
            return Err(Error::IdenticalTokens);
        }
        if token_a.value == 0 || token_b.value == 0 {
            return Err(Error::ZeroActorId);
        }
        let token_pair = if token_b.value > token_a.value {
            (token_b, token_a)
        } else {
            (token_a, token_b)
        };
        if registry_find(&self.pairs, token_pair).is_some() {
            return Err(Error::PairExist);
        }
        Ok(token_pair)
    }

    /// Registers a deployed pair, or passes its initialization failure on.
    pub fn create_pair_commit(
        &mut self,
        token_pair: (ActorId, ActorId),
        pair_actor: ActorId,
        init_result: Result<(), crate::io::Error>,
    ) -> (r: Result<Event, Error>)
        requires
            old(self).pairs@.len() < u32::MAX,
        ensures
            final(self).pair == old(self).pair,
            final(self).fee_to == old(self).fee_to,
            final(self).fee_to_setter == old(self).fee_to_setter,
            match r {
                Err(e) => final(self).pairs == old(self).pairs && (init_result matches Err(cause)
                    && e == Error::PairCreationFailed(cause)),
                Ok(event) => {
                    &&& init_result is Ok
                    &&& final(self).pairs@ == old(self).pairs@.push((token_pair, pair_actor))
                    &&& event == (Event::PairCreated {
                        token_pair,
                        pair_actor,
                        pair_number: (old(self).pairs@.len() + 1) as u32,
                    })
                },
            },
    {
        if let Err(cause) = init_result {
            return Err(Error::PairCreationFailed(cause));
        }
        self.pairs.push((token_pair, pair_actor));
        Ok(
            Event::PairCreated {
                token_pair,
                pair_actor,
                pair_number: self.pairs.len() as u32,
            },
        )
    }

    /// The state exposed to state queries.
    pub fn state(&self) -> (r: State)
        ensures
            r.pair == self.pair,
            r.fee_to == self.fee_to,
            r.fee_to_setter == self.fee_to_setter,
            r.pairs@ == self.pairs@,
    {
        let mut pairs: Vec<((ActorId, ActorId), ActorId)> = Vec::new();
        let n = self.pairs.len();
        let mut i: usize = 0;
        while i < n
            invariant
                i <= n,
                n == self.pairs@.len(),
                pairs@ == self.pairs@.subrange(0, i as int),
            decreases n - i,
        {
            pairs.push(self.pairs[i]);
            proof {
                assert(pairs@ =~= self.pairs@.subrange(0, i as int + 1));
            }
            i = i + 1;
        }
        proof {
            assert(pairs@ =~= self.pairs@);
        }
        State { pair: self.pair, fee_to: self.fee_to, fee_to_setter: self.fee_to_setter, pairs }
    }
}

/// The fee receiver recorded in a state snapshot.
pub fn fee_to(state: State) -> (r: ActorId)
    ensures
        r == state.fee_to,
{
    state.fee_to
}

/// The fee administrator recorded in a state snapshot.
pub fn fee_to_setter(state: State) -> (r: ActorId)
    ensures
        r == state.fee_to_setter,
{
    state.fee_to_setter
}

/// The pair contract registered for two tokens, in either order; the zero
/// identity when none is.
pub fn pair(state: State, token_pair: (ActorId, ActorId)) -> (r: ActorId)
    ensures
        r == (match spec_registry_find(
            state.pairs@,
            Factory::spec_ordered(token_pair.0, token_pair.1),
        ) {
            Some(actor) => actor,
            None => ActorId { value: 0 },
        }),
{
    let ordered = if token_pair.1.value > token_pair.0.value {
        (token_pair.1, token_pair.0)
    } else {
        token_pair
    };
    match registry_find(&state.pairs, ordered) {
        Some(actor) => actor,
        None => ActorId::zero(),
    }
}

/// How many pairs a state snapshot indexes.
pub fn all_pairs_length(state: State) -> (r: u32)
    requires
        state.pairs@.len() <= u32::MAX,
    ensures
        r == state.pairs@.len(),
{
    state.pairs.len() as u32
}

/// Every indexed pair of a state snapshot.
pub fn all_pairs(state: State) -> (r: Vec<((ActorId, ActorId), ActorId)>)
    ensures
        r@ == state.pairs@,
{
    state.pairs
}

} // verus!
