//! Effect identifiers and the context an effect runs in.
use vstd::prelude::*;
use crate::text::{dec, push_dec, push_str};

verus! {

/// Unique effect identifier.
#[derive(Debug, Clone, Copy, PartialEq, Eq, Hash, Structural)]
pub struct EffectId(pub u64);

/// The source of effect identifiers: hands them out in increasing order.
pub struct EffectIds {
    next: u64,
    issued: Ghost<Set<u64>>,
    count: Ghost<nat>,
}

impl EffectIds {
    /// Until the numbers wrap, the source has handed out exactly `1 .. next`, one
    /// number per identifier.
    #[verifier::type_invariant]
    spec fn counted(&self) -> bool {
        self.count@ < u64::MAX ==> {
            &&& self.next == self.count@ + 1
            &&& forall|a: u64| #[trigger] self.issued@.contains(a) <==> 1 <= a < self.next
        }
    }

    /// The number the next identifier gets.
    pub closed spec fn next_value(&self) -> u64 {
        self.next
    }

    /// The numbers handed out so far.
    pub closed spec fn issued(&self) -> Set<u64> {
        self.issued@
    }

    /// How many identifiers the source has handed out.
    pub closed spec fn issued_count(&self) -> nat {
        self.count@
    }

    /// A source starting at 1 that has handed out nothing.
    pub fn new() -> (s: Self)
        ensures
            s.next_value() == 1,
            s.issued() == Set::<u64>::empty(),
            s.issued_count() == 0,
    {
        EffectIds { next: 1, issued: Ghost(Set::empty()), count: Ghost(0) }
    }
}

impl EffectId {
    /// The next identifier from `ids` (numbers wrap after `u64::MAX`). While fewer
    /// than `u64::MAX` identifiers have been handed out, each is greater than every
    /// one the source handed out before, so no two are equal.
    pub fn new(ids: &mut EffectIds) -> (e: Self)
        ensures
            e.0 == old(ids).next_value(),
            final(ids).next_value() == old(ids).next_value().wrapping_add(1),
            final(ids).issued() == old(ids).issued().insert(e.0),
            final(ids).issued_count() == old(ids).issued_count() + 1,
            old(ids).issued_count() < u64::MAX ==> forall|a: u64| #[trigger] old(ids).issued().contains(a) ==> a < e.0,
    {
        proof {
            use_type_invariant(&*ids);
        }
        let id = ids.next;
        let next = ids.next.wrapping_add(1);
        let ghost issued = ids.issued@.insert(id);
        let ghost count = ids.count@ + 1;
        proof {
            if count < u64::MAX {
                assert(next == count + 1);
                assert forall|a: u64| #[trigger] issued.contains(a) <==> 1 <= a < next by {}
            }
        }
        *ids = EffectIds { next, issued: Ghost(issued), count: Ghost(count) };
        EffectId(id)
    }

    /// How the identifier is shown: `Effect#<n>`.
    pub fn text(&self) -> (s: String)
        ensures
            s@ == "Effect#"@ + dec(self.0 as nat),
    {
        let mut s = String::new();
        push_str(&mut s, "Effect#");
        push_dec(&mut s, self.0);
        s
    }
}

/// Context for executing an effect.
#[derive(Debug, Clone)]
pub struct EffectContext {
    pub effect_id: EffectId,
    pub actor_id: Option<String>,
    pub correlation_id: Option<String>,
}

} // verus!
