//! Compute instances: their detail.

use vstd::prelude::*;
use crate::aws_cli::iam::IamRoleDetail;

verus! {

/// A volume attached to an instance.
#[derive(Debug)]
pub struct VolumeDetail {
    pub device_name: String,
    pub volume_id: String,
    pub size_gb: i32,
    pub volume_type: String,
    pub encrypted: bool,
    pub delete_on_termination: bool,
}

/// Everything the document shows of one compute instance.
#[derive(Debug)]
pub struct Ec2Detail {
    pub name: String,
    pub instance_id: String,
    pub instance_type: String,
    pub ami: String,
    pub platform: String,
    pub architecture: String,
    pub key_pair: String,
    pub vpc: String,
    pub subnet: String,
    pub az: String,
    pub public_ip: String,
    pub private_ip: String,
    pub security_groups: Vec<String>,
    pub state: String,
    pub ebs_optimized: bool,
    pub monitoring: String,
    pub iam_role: Option<String>,
    pub iam_role_detail: Option<IamRoleDetail>,
    pub launch_time: String,
    pub tags: Vec<(String, String)>,
    pub volumes: Vec<VolumeDetail>,
    pub user_data: Option<String>,
}

} // verus!
