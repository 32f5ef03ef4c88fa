//! The dispatch core: the handler-unit capability interface, the closed set
//! of registered unit kinds, and the ordered registry that fans each event
//! out to every unit.

use crate::base::BaseCog;
use crate::events::Action;
use crate::events::ActionView;
use crate::events::MessageEvent;
use crate::events::MessageView;
use crate::events::act_view;
use crate::prefixes::PrefixesCog;
use vstd::prelude::*;

verus! {

/// The capability interface of a handler unit: a reaction to the readiness
/// signal and a reaction to an inbound message, each returned as a value for
/// the caller to perform. `message_decision` and `ready_decision` state the
/// unit's reaction; the executable methods are bound to them.
pub trait Cog: Sized {
    /// The unit's reaction to the readiness signal, as a value.
    spec fn ready_decision(&self) -> Option<ActionView>;

    /// The unit's reaction to an inbound message, as a value.
    spec fn message_decision(&self, m: MessageView) -> Option<ActionView>;

    /// Reacts to the readiness signal, fired once after initial connection.
    fn on_ready(&self) -> (r: Option<Action>)
        ensures
            act_view(r) == self.ready_decision(),
    ;

    /// Reacts to one inbound message.
    fn on_message(&self, m: &MessageEvent) -> (r: Option<Action>)
        ensures
            act_view(r) == self.message_decision(m@),
    ;
}

/// The registered handler-unit kinds, one variant per unit.
pub enum CogUnit {
    Base(BaseCog),
    Prefixes(PrefixesCog),
}

impl Cog for CogUnit {
    open spec fn ready_decision(&self) -> Option<ActionView> {
        match self {
            CogUnit::Base(b) => b.ready_decision(),
            CogUnit::Prefixes(p) => p.ready_decision(),
        }
    }

    open spec fn message_decision(&self, m: MessageView) -> Option<ActionView> {
        match self {
            CogUnit::Base(b) => b.message_decision(m),
            CogUnit::Prefixes(p) => p.message_decision(m),
        }
    }

    fn on_ready(&self) -> (r: Option<Action>) {
        match self {
            CogUnit::Base(b) => b.on_ready(),
            CogUnit::Prefixes(p) => p.on_ready(),
        }
    }

    fn on_message(&self, m: &MessageEvent) -> (r: Option<Action>) {
        match self {
            CogUnit::Base(b) => b.on_message(m),
            CogUnit::Prefixes(p) => p.on_message(m),
        }
    }
}

/// Ordered registry of handler units. Registration order is dispatch order;
/// the registry is built once at startup and read-only afterwards.
pub struct CogManager {
    prefix: String,
    cogs: Vec<CogUnit>,
}

impl CogManager {
    /// The registered units, in registration order.
    pub closed spec fn units(&self) -> Seq<CogUnit> {
        self.cogs@
    }

    /// The default command prefix the registry was built with.
    pub closed spec fn prefix_spec(&self) -> Seq<char> {
        self.prefix@
    }

    /// Creates an empty registry.
    pub fn new(prefix: String) -> (r: CogManager)
        ensures
            r.units() == Seq::<CogUnit>::empty(),
            r.prefix_spec() == prefix@,
    {
        CogManager { prefix, cogs: Vec::new() }
    }

    /// Appends a unit; to be called during startup only, before dispatch
    /// begins.
    pub fn register(&mut self, cog: CogUnit)
        ensures
            final(self).units() == old(self).units().push(cog),
            final(self).prefix_spec() == old(self).prefix_spec(),
    {
        self.cogs.push(cog);
    }

    /// The default command prefix.
    pub fn prefix(&self) -> (r: &str)
        ensures
            r@ == self.prefix_spec(),
    {
        self.prefix.as_str()
    }

    /// One dispatch pass for an inbound message: every registered unit is
    /// visited exactly once, in registration order, whatever any unit
    /// decides; entry `i` of the result is unit `i`'s decision, `None` where
    /// it does not react.
    pub fn dispatch_message(&self, m: &MessageEvent) -> (acts: Vec<Option<Action>>)
        ensures
            acts@.len() == self.units().len(),
            forall|i: int|
                0 <= i < acts@.len() ==> act_view(#[trigger] acts@[i])
                    == self.units()[i].message_decision(m@),
    {
        let mut acts: Vec<Option<Action>> = Vec::new();
        let mut i: usize = 0;
        while i < self.cogs.len()
            invariant
                i <= self.cogs@.len(),
                acts@.len() == i,
                forall|j: int|
                    0 <= j < i ==> act_view(#[trigger] acts@[j])
                        == self.cogs@[j].message_decision(m@),
            decreases self.cogs@.len() - i,
        {
            let a = self.cogs[i].on_message(m);
            acts.push(a);
            i += 1;
        }
        acts
    }

    /// One dispatch pass for the readiness signal, with the same ordering and
    /// exactly-once guarantee as `dispatch_message`.
    pub fn dispatch_ready(&self) -> (acts: Vec<Option<Action>>)
        ensures
            acts@.len() == self.units().len(),
            forall|i: int|
                0 <= i < acts@.len() ==> act_view(#[trigger] acts@[i])
                    == self.units()[i].ready_decision(),
    {
        let mut acts: Vec<Option<Action>> = Vec::new();
        let mut i: usize = 0;
        while i < self.cogs.len()
            invariant
                i <= self.cogs@.len(),
                acts@.len() == i,
                forall|j: int|
                    0 <= j < i ==> act_view(#[trigger] acts@[j]) == self.cogs@[j].ready_decision(),
            decreases self.cogs@.len() - i,
        {
            let a = self.cogs[i].on_ready();
            acts.push(a);
            i += 1;
        }
        acts
    }
}

/// A message authored by a bot or by the process itself never triggers any
/// unit's reaction, whichever registered unit kind it reaches.
pub proof fn lemma_bot_message_ignored(u: CogUnit, m: MessageView)
    requires
        m.author_is_bot,
    ensures
        u.message_decision(m) is None,
{
    match u {
        CogUnit::Base(b) => {
        },
        CogUnit::Prefixes(p) => {
        },
    }
}

} // verus!
