//! Load balancers: their detail.

use vstd::prelude::*;

verus! {

/// A port on which a load balancer listens.
#[derive(Debug)]
pub struct ListenerInfo {
    pub port: i32,
    pub protocol: String,
    pub default_action: String,
}

/// A target registered with a target group.
#[derive(Debug)]
pub struct TargetInfo {
    pub id: String,
    pub port: i32,
    pub health: String,
}

/// A target group behind a load balancer.
#[derive(Debug)]
pub struct TargetGroupInfo {
    pub name: String,
    pub arn: String,
    pub protocol: String,
    pub port: i32,
    pub target_type: String,
    pub health_check_protocol: String,
    pub health_check_path: String,
    pub healthy_threshold: i32,
    pub unhealthy_threshold: i32,
    pub targets: Vec<TargetInfo>,
}

/// Everything the document shows of one load balancer.
#[derive(Debug)]
pub struct LoadBalancerDetail {
    pub name: String,
    pub arn: String,
    pub dns_name: String,
    pub lb_type: String,
    pub scheme: String,
    pub vpc_id: String,
    pub ip_address_type: String,
    pub state: String,
    pub availability_zones: Vec<String>,
    pub security_groups: Vec<String>,
    pub listeners: Vec<ListenerInfo>,
    pub target_groups: Vec<TargetGroupInfo>,
}

} // verus!
