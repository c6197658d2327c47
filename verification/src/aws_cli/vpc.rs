//! Networks: their detail, and the parts in which it is fetched.

use vstd::prelude::*;
use crate::aws_cli::common::AwsResource;

verus! {

/// A NAT gateway of a network.
#[derive(Debug)]
pub struct NatDetail {
    pub name: String,
    pub id: String,
    pub state: String,
    pub connectivity_type: String,
    pub availability_mode: String,
    pub auto_scaling_ips: String,
    pub auto_provision_zones: String,
    pub public_ip: String,
    pub allocation_id: String,
    pub subnet_id: String,
    pub tags: Vec<(String, String)>,
}

/// A route table of a network.
#[derive(Debug)]
pub struct RouteTableDetail {
    pub name: String,
    pub id: String,
    pub routes: Vec<String>,
    pub associations: Vec<String>,
}

/// An elastic address of a network.
#[derive(Debug)]
pub struct EipDetail {
    pub name: String,
    pub public_ip: String,
    pub instance_id: String,
    pub private_ip: String,
}

/// Everything the document shows of one network.
#[derive(Debug)]
pub struct NetworkDetail {
    pub name: String,
    pub id: String,
    pub cidr: String,
    pub state: String,
    pub subnets: Vec<AwsResource>,
    pub igws: Vec<AwsResource>,
    pub nats: Vec<NatDetail>,
    pub route_tables: Vec<RouteTableDetail>,
    pub eips: Vec<EipDetail>,
    pub dns_support: bool,
    pub dns_hostnames: bool,
    pub tags: Vec<(String, String)>,
}

/// What one sub-fetch of a network detail brings. The variants stand in the
/// order of the protocol's steps.
#[derive(Debug)]
pub enum NetworkPart {
    Info { name: String, id: String, cidr: String, state: String, tags: Vec<(String, String)> },
    Subnets(Vec<AwsResource>),
    Igws(Vec<AwsResource>),
    Nats(Vec<NatDetail>),
    RouteTables(Vec<RouteTableDetail>),
    Eips(Vec<EipDetail>),
    DnsAttrs { support: bool, hostnames: bool },
}

impl NetworkPart {
    /// The protocol step that brings this part.
    pub open spec fn step(self) -> int {
        match self {
            NetworkPart::Info { .. } => 0,
            NetworkPart::Subnets(_) => 1,
            NetworkPart::Igws(_) => 2,
            NetworkPart::Nats(_) => 3,
            NetworkPart::RouteTables(_) => 4,
            NetworkPart::Eips(_) => 5,
            NetworkPart::DnsAttrs { .. } => 6,
        }
    }

    /// The protocol step that brings this part.
    pub fn step_number(&self) -> (r: u8)
        ensures
            r == self.step(),
    {
        match self {
            NetworkPart::Info { .. } => 0,
            NetworkPart::Subnets(_) => 1,
            NetworkPart::Igws(_) => 2,
            NetworkPart::Nats(_) => 3,
            NetworkPart::RouteTables(_) => 4,
            NetworkPart::Eips(_) => 5,
            NetworkPart::DnsAttrs { .. } => 6,
        }
    }
}

impl NetworkDetail {
    /// A detail of which nothing is known yet.
    pub open spec fn blank(self) -> bool {
        &&& self.name@ == Seq::<char>::empty()
        &&& self.id@ == Seq::<char>::empty()
        &&& self.cidr@ == Seq::<char>::empty()
        &&& self.state@ == Seq::<char>::empty()
        &&& self.subnets@ == Seq::<AwsResource>::empty()
        &&& self.igws@ == Seq::<AwsResource>::empty()
        &&& self.nats@ == Seq::<NatDetail>::empty()
        &&& self.route_tables@ == Seq::<RouteTableDetail>::empty()
        &&& self.eips@ == Seq::<EipDetail>::empty()
        &&& !self.dns_support
        &&& !self.dns_hostnames
        &&& self.tags@ == Seq::<(String, String)>::empty()
    }

    /// This detail with `part` merged in: the part replaces what the detail
    /// held for its step and leaves the rest.
    pub open spec fn with_part(self, part: NetworkPart) -> NetworkDetail {
        match part {
            NetworkPart::Info { name, id, cidr, state, tags } => NetworkDetail {
                name,
                id,
                cidr,
                state,
                tags,
                ..self
            },
            NetworkPart::Subnets(subnets) => NetworkDetail { subnets, ..self },
            NetworkPart::Igws(igws) => NetworkDetail { igws, ..self },
            NetworkPart::Nats(nats) => NetworkDetail { nats, ..self },
            NetworkPart::RouteTables(route_tables) => NetworkDetail { route_tables, ..self },
            NetworkPart::Eips(eips) => NetworkDetail { eips, ..self },
            NetworkPart::DnsAttrs { support, hostnames } => NetworkDetail {
                dns_support: support,
                dns_hostnames: hostnames,
                ..self
            },
        }
    }

    /// A detail of which nothing is known yet.
    pub fn empty() -> (r: NetworkDetail)
        ensures
            r.blank(),
    {
        NetworkDetail {
            name: String::new(),
            id: String::new(),
            cidr: String::new(),
            state: String::new(),
            subnets: Vec::new(),
            igws: Vec::new(),
            nats: Vec::new(),
            route_tables: Vec::new(),
            eips: Vec::new(),
            dns_support: false,
            dns_hostnames: false,
            tags: Vec::new(),
        }
    }

    /// Merges what one sub-fetch brought into the detail.
    pub fn merge(self, part: NetworkPart) -> (r: NetworkDetail)
        ensures
            r == self.with_part(part),
    {
        let mut merged = self;
        match part {
            NetworkPart::Info { name, id, cidr, state, tags } => {
                merged.name = name;
                merged.id = id;
                merged.cidr = cidr;
                merged.state = state;
                merged.tags = tags;
            },
            NetworkPart::Subnets(subnets) => {
                merged.subnets = subnets;
            },
            NetworkPart::Igws(igws) => {
                merged.igws = igws;
            },
            NetworkPart::Nats(nats) => {
                merged.nats = nats;
            },
            NetworkPart::RouteTables(route_tables) => {
                merged.route_tables = route_tables;
            },
            NetworkPart::Eips(eips) => {
                merged.eips = eips;
            },
            NetworkPart::DnsAttrs { support, hostnames } => {
                merged.dns_support = support;
                merged.dns_hostnames = hostnames;
            },
        }
        merged
    }
}

} // verus!
