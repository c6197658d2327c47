//! Checklist of the sub-fetches that make up a network detail.

use vstd::prelude::*;

verus! {

/// Number of sub-fetches in the network detail protocol.
pub const STEP_COUNT: u8 = 7;

/// One flag per sub-fetch of a network detail, in protocol order: basic
/// information, subnets, internet gateways, NAT gateways, route tables,
/// elastic addresses, DNS attributes.
#[derive(Debug, Clone, Copy, PartialEq, Eq, Structural)]
pub struct LoadingProgress {
    pub vpc_info: bool,
    pub subnets: bool,
    pub igws: bool,
    pub nats: bool,
    pub route_tables: bool,
    pub eips: bool,
    pub dns_attrs: bool,
}

impl Default for LoadingProgress {
    fn default() -> (r: LoadingProgress)
        ensures
            r.at_rest(),
    {
        LoadingProgress {
            vpc_info: false,
            subnets: false,
            igws: false,
            nats: false,
            route_tables: false,
            eips: false,
            dns_attrs: false,
        }
    }
}

impl LoadingProgress {
    /// The flags as a sequence, indexed by protocol step.
    pub open spec fn flags(&self) -> Seq<bool> {
        seq![
            self.vpc_info,
            self.subnets,
            self.igws,
            self.nats,
            self.route_tables,
            self.eips,
            self.dns_attrs,
        ]
    }

    /// The checklist with no flag set.
    pub open spec fn cleared() -> LoadingProgress {
        LoadingProgress {
            vpc_info: false,
            subnets: false,
            igws: false,
            nats: false,
            route_tables: false,
            eips: false,
            dns_attrs: false,
        }
    }

    /// No flag is set.
    pub open spec fn at_rest(&self) -> bool {
        *self == Self::cleared()
    }

    /// The checklist with the flag of `step` set, for a step of the
    /// protocol.
    pub open spec fn marked(self, step: int) -> LoadingProgress {
        if step == 0 {
            LoadingProgress { vpc_info: true, ..self }
        } else if step == 1 {
            LoadingProgress { subnets: true, ..self }
        } else if step == 2 {
            LoadingProgress { igws: true, ..self }
        } else if step == 3 {
            LoadingProgress { nats: true, ..self }
        } else if step == 4 {
            LoadingProgress { route_tables: true, ..self }
        } else if step == 5 {
            LoadingProgress { eips: true, ..self }
        } else if step == 6 {
            LoadingProgress { dns_attrs: true, ..self }
        } else {
            self
        }
    }

    /// Marking a step sets the flag at the step's index and no other.
    pub proof fn lemma_marked_flags(self, step: int)
        requires
            0 <= step < 7,
        ensures
            self.marked(step).flags() == self.flags().update(step, true),
    {
        assert(self.marked(step).flags() =~= self.flags().update(step, true));
    }

    /// The cleared checklist has every flag down.
    pub proof fn lemma_cleared_flags()
        ensures
            Self::cleared().flags() == Seq::new(7, |i: int| false),
    {
        assert(Self::cleared().flags() =~= Seq::new(7, |i: int| false));
    }

    /// The flags of steps `0..done` are set and no others.
    pub open spec fn done_through(&self, done: int) -> bool {
        &&& self.vpc_info == (0 < done)
        &&& self.subnets == (1 < done)
        &&& self.igws == (2 < done)
        &&& self.nats == (3 < done)
        &&& self.route_tables == (4 < done)
        &&& self.eips == (5 < done)
        &&& self.dns_attrs == (6 < done)
    }

    /// The flags of a checklist that is done through `done`, as a sequence.
    pub proof fn lemma_done_through_flags(self, done: int)
        requires
            self.done_through(done),
        ensures
            self.flags() == Seq::new(7, |i: int| i < done),
    {
        assert(self.flags() =~= Seq::new(7, |i: int| i < done));
    }

    /// Clears every flag.
    pub fn reset(&mut self)
        ensures
            final(self).at_rest(),
    {
        self.vpc_info = false;
        self.subnets = false;
        self.igws = false;
        self.nats = false;
        self.route_tables = false;
        self.eips = false;
        self.dns_attrs = false;
    }

    /// Sets the flag of `step` and leaves the others as they are.
    pub fn mark(&mut self, step: u8)
        requires
            step < STEP_COUNT,
        ensures
            *final(self) == old(self).marked(step as int),
    {
        if step == 0 {
            self.vpc_info = true;
        } else if step == 1 {
            self.subnets = true;
        } else if step == 2 {
            self.igws = true;
        } else if step == 3 {
            self.nats = true;
        } else if step == 4 {
            self.route_tables = true;
        } else if step == 5 {
            self.eips = true;
        } else {
            self.dns_attrs = true;
        }
    }
}

} // verus!
