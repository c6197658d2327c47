//! Resource catalog: the shapes of listed resources and of their details.

pub mod asg;
pub mod common;
pub mod credentials;
pub mod ec2;
pub mod ecr;
pub mod iam;
pub mod load_balancer;
pub mod security_group;
pub mod vpc;

pub use asg::{AsgDetail, ScalingPolicy};
pub use common::{
    check_aws_login, extract_json_value, extract_tags, get_region_args, parse_name_tag,
    parse_resources_from_json, set_region, AwsResource, CommandOutcome, RegionSetting, Tag,
};
pub use ec2::{Ec2Detail, VolumeDetail};
pub use ecr::EcrDetail;
pub use load_balancer::{ListenerInfo, LoadBalancerDetail, TargetGroupInfo, TargetInfo};
pub use security_group::{SecurityGroupDetail, SecurityRule};
pub use vpc::{EipDetail, NatDetail, NetworkDetail, NetworkPart, RouteTableDetail};
