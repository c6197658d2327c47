use emd::app::{
    detail_task, list_task, region_at, screen_for, service_key, service_kind, App, Completion,
    CursorAction, LoadingTask, Region, SaveNotice, Screen, StepAction, TaskResult,
    ValidationError, REGION_COUNT, SERVICE_COUNT,
};
use emd::aws_cli::iam::{AttachedPolicy, IamRoleDetail, InlinePolicy};
use emd::aws_cli::{
    AsgDetail, AwsResource, Ec2Detail, EcrDetail, EipDetail, LoadBalancerDetail, NatDetail,
    NetworkDetail, NetworkPart, RegionSetting, RouteTableDetail, ScalingPolicy,
    SecurityGroupDetail, SecurityRule, TargetGroupInfo,
};
use emd::blueprint::{Blueprint, BlueprintResource, BlueprintStore, ResourceType};
use emd::i18n::Language;
use emd::progress::LoadingProgress;
use emd::settings::AppSettings;

fn new_app() -> App {
    App::new(BlueprintStore::new(), AppSettings::default())
}

fn sample_ec2_detail() -> Ec2Detail {
    Ec2Detail {
        name: "web-a".to_string(),
        instance_id: "i-0123456789abcdef0".to_string(),
        instance_type: "t3.micro".to_string(),
        ami: "ubuntu-22.04".to_string(),
        platform: "Linux".to_string(),
        architecture: "x86_64".to_string(),
        key_pair: "main-key".to_string(),
        vpc: "vpc-main".to_string(),
        subnet: "subnet-a".to_string(),
        az: "ap-northeast-2a".to_string(),
        public_ip: "1.1.1.1".to_string(),
        private_ip: "10.0.0.10".to_string(),
        security_groups: vec!["sg-web".to_string()],
        state: "running".to_string(),
        ebs_optimized: true,
        monitoring: "Enabled".to_string(),
        iam_role: Some("role-web".to_string()),
        iam_role_detail: Some(IamRoleDetail {
            name: "role-web".to_string(),
            arn: "arn:aws:iam::123456789012:role/role-web".to_string(),
            assume_role_policy: "{}".to_string(),
            attached_policies: vec![AttachedPolicy {
                name: "ReadOnlyAccess".to_string(),
                arn: "arn:aws:iam::aws:policy/ReadOnlyAccess".to_string(),
            }],
            inline_policies: vec![InlinePolicy {
                name: "inline-policy".to_string(),
                document: "{}".to_string(),
            }],
        }),
        launch_time: "2026-02-13".to_string(),
        tags: vec![("Name".to_string(), "web-a".to_string())],
        volumes: vec![],
        user_data: None,
    }
}

fn sample_network_detail() -> NetworkDetail {
    NetworkDetail {
        name: "main-vpc".to_string(),
        id: "vpc-1111aaaa".to_string(),
        cidr: "10.0.0.0/16".to_string(),
        state: "available".to_string(),
        subnets: vec![],
        igws: vec![],
        nats: vec![NatDetail {
            name: "nat-a".to_string(),
            id: "nat-1234".to_string(),
            state: "available".to_string(),
            connectivity_type: "public".to_string(),
            availability_mode: "regional".to_string(),
            auto_scaling_ips: "enabled".to_string(),
            auto_provision_zones: "enabled".to_string(),
            public_ip: "1.1.1.1".to_string(),
            allocation_id: "eipalloc-1234".to_string(),
            subnet_id: "subnet-a".to_string(),
            tags: vec![],
        }],
        route_tables: vec![RouteTableDetail {
            name: "rt-main".to_string(),
            id: "rtb-1234".to_string(),
            routes: vec![],
            associations: vec![],
        }],
        eips: vec![EipDetail {
            name: "eip-a".to_string(),
            public_ip: "1.1.1.1".to_string(),
            instance_id: String::new(),
            private_ip: String::new(),
        }],
        dns_support: true,
        dns_hostnames: true,
        tags: vec![("Name".to_string(), "main-vpc".to_string())],
    }
}

fn sample_sg_detail() -> SecurityGroupDetail {
    SecurityGroupDetail {
        name: "sg-web".to_string(),
        id: "sg-1234".to_string(),
        description: "web sg".to_string(),
        vpc_id: "vpc-1111aaaa".to_string(),
        inbound_rules: vec![SecurityRule {
            protocol: "TCP".to_string(),
            port_range: "80".to_string(),
            source_dest: "0.0.0.0/0".to_string(),
            description: "-".to_string(),
        }],
        outbound_rules: vec![],
    }
}

fn sample_lb_detail() -> LoadBalancerDetail {
    LoadBalancerDetail {
        name: "alb-main".to_string(),
        arn: "arn:aws:elasticloadbalancing:ap-northeast-2:123456789012:loadbalancer/app/alb-main/1234".to_string(),
        dns_name: "alb-main.example.com".to_string(),
        lb_type: "application".to_string(),
        scheme: "internet-facing".to_string(),
        vpc_id: "vpc-1111aaaa".to_string(),
        ip_address_type: "ipv4".to_string(),
        state: "active".to_string(),
        availability_zones: vec!["ap-northeast-2a".to_string()],
        security_groups: vec!["sg-1234".to_string()],
        listeners: vec![],
        target_groups: vec![TargetGroupInfo {
            name: "tg-main".to_string(),
            arn: "arn:aws:elasticloadbalancing:ap-northeast-2:123456789012:targetgroup/tg-main/1234".to_string(),
            protocol: "HTTP".to_string(),
            port: 80,
            target_type: "instance".to_string(),
            health_check_protocol: "HTTP".to_string(),
            health_check_path: "/health".to_string(),
            healthy_threshold: 2,
            unhealthy_threshold: 3,
            targets: vec![],
        }],
    }
}

fn sample_ecr_detail() -> EcrDetail {
    EcrDetail {
        name: "repo-a".to_string(),
        uri: "123456789012.dkr.ecr.ap-northeast-2.amazonaws.com/repo-a".to_string(),
        tag_mutability: "MUTABLE".to_string(),
        encryption_type: "AES256".to_string(),
        kms_key: None,
        created_at: "2026-02-13".to_string(),
        image_count: 2,
    }
}

fn sample_asg_detail() -> AsgDetail {
    AsgDetail {
        name: "asg-main".to_string(),
        arn: "arn:aws:autoscaling:ap-northeast-2:123456789012:autoScalingGroup:abcd:autoScalingGroupName/asg-main".to_string(),
        launch_template_name: Some("lt-main".to_string()),
        launch_template_id: Some("lt-1234".to_string()),
        launch_config_name: None,
        min_size: 1,
        max_size: 3,
        desired_capacity: 2,
        default_cooldown: 300,
        availability_zones: vec!["ap-northeast-2a".to_string()],
        target_group_arns: vec![],
        health_check_type: "EC2".to_string(),
        health_check_grace_period: 120,
        instances: vec![],
        created_time: "2026-02-13".to_string(),
        scaling_policies: vec![ScalingPolicy {
            name: "scale-out".to_string(),
            policy_type: "SimpleScaling".to_string(),
            adjustment_type: Some("ChangeInCapacity".to_string()),
            scaling_adjustment: Some(1),
            cooldown: Some(60),
        }],
        tags: vec![],
    }
}

fn ec2(id: &str, name: &str) -> BlueprintResource {
    BlueprintResource {
        resource_type: ResourceType::Ec2,
        region: "ap-northeast-2".to_string(),
        resource_id: id.to_string(),
        resource_name: name.to_string(),
    }
}

fn ids(blueprint: &Blueprint) -> Vec<String> {
    blueprint.resources.iter().map(|r| r.resource_id.clone()).collect()
}

fn flags(p: &LoadingProgress) -> [bool; 7] {
    [p.vpc_info, p.subnets, p.igws, p.nats, p.route_tables, p.eips, p.dns_attrs]
}

fn part(step: u8) -> NetworkPart {
    match step {
        0 => NetworkPart::Info {
            name: "main".to_string(),
            id: "vpc-1".to_string(),
            cidr: "10.0.0.0/16".to_string(),
            state: "available".to_string(),
            tags: vec![("Name".to_string(), "main".to_string())],
        },
        1 => NetworkPart::Subnets(vec![AwsResource {
            name: "subnet-a".to_string(),
            id: "subnet-1".to_string(),
            state: "available".to_string(),
            az: "ap-northeast-2a".to_string(),
            cidr: "10.0.1.0/24".to_string(),
        }]),
        2 => NetworkPart::Igws(vec![]),
        3 => NetworkPart::Nats(vec![]),
        4 => NetworkPart::RouteTables(vec![RouteTableDetail {
            name: "rt".to_string(),
            id: "rtb-1".to_string(),
            routes: vec!["0.0.0.0/0 -> igw".to_string()],
            associations: vec![],
        }]),
        5 => NetworkPart::Eips(vec![]),
        _ => NetworkPart::DnsAttrs { support: true, hostnames: false },
    }
}

#[test]
fn loading_progress_reset_works() {
    let mut p = LoadingProgress {
        vpc_info: true,
        subnets: true,
        igws: true,
        nats: true,
        route_tables: true,
        eips: true,
        dns_attrs: true,
    };
    p.reset();
    assert!(!p.vpc_info);
    assert!(!p.subnets);
    assert!(!p.igws);
    assert!(!p.nats);
    assert!(!p.route_tables);
    assert!(!p.eips);
    assert!(!p.dns_attrs);
}

#[test]
fn region_name_uses_language() {
    let r = Region {
        code: "us-east-1",
        name_ko: "버지니아",
        name_en: "N. Virginia",
    };
    assert_eq!(r.name(Language::Korean), "버지니아");
    assert_eq!(r.name(Language::English), "N. Virginia");
}

#[test]
fn get_current_resource_type_and_info_priority() {
    let mut app = new_app();

    app.ec2_detail = Some(sample_ec2_detail());
    assert_eq!(app.get_current_resource_type(), Some(ResourceType::Ec2));
    assert_eq!(
        app.get_current_resource_info(),
        Some(("i-0123456789abcdef0".to_string(), "web-a".to_string()))
    );

    app.ec2_detail = None;
    app.network_detail = Some(sample_network_detail());
    assert_eq!(app.get_current_resource_type(), Some(ResourceType::Network));

    app.network_detail = None;
    app.sg_detail = Some(sample_sg_detail());
    assert_eq!(
        app.get_current_resource_type(),
        Some(ResourceType::SecurityGroup)
    );

    app.sg_detail = None;
    app.lb_detail = Some(sample_lb_detail());
    assert_eq!(
        app.get_current_resource_type(),
        Some(ResourceType::LoadBalancer)
    );

    app.lb_detail = None;
    app.ecr_detail = Some(sample_ecr_detail());
    assert_eq!(app.get_current_resource_type(), Some(ResourceType::Ecr));

    app.ecr_detail = None;
    app.asg_detail = Some(sample_asg_detail());
    assert_eq!(app.get_current_resource_type(), Some(ResourceType::Asg));
}

#[test]
fn get_current_region_returns_selected_code() {
    let mut app = new_app();
    app.selected_region = REGION_COUNT.saturating_sub(1);
    assert_eq!(app.get_current_region(), region_at(REGION_COUNT - 1).code);
}

#[test]
fn move_resource_up_down_respects_bounds() {
    let mut app = new_app();
    let mut blueprint = Blueprint::new("bp".to_string());
    blueprint.add_resource(BlueprintResource {
        resource_type: ResourceType::Ec2,
        region: "ap-northeast-2".to_string(),
        resource_id: "i-1".to_string(),
        resource_name: "web-1".to_string(),
    });
    blueprint.add_resource(BlueprintResource {
        resource_type: ResourceType::Ec2,
        region: "ap-northeast-2".to_string(),
        resource_id: "i-2".to_string(),
        resource_name: "web-2".to_string(),
    });

    app.current_blueprint = Some(blueprint.clone());
    app.blueprint_store.add_blueprint(blueprint);
    app.selected_blueprint_index = 0;

    assert!(!app.move_resource_up(0));
    assert!(app.move_resource_down(0));
    assert!(!app.move_resource_down(99));
}

#[test]
fn toggle_language_updates_settings_and_i18n() {
    let mut app = new_app();
    let before = app.settings.language;
    app.toggle_language();
    assert_ne!(app.settings.language, before);
    assert_eq!(app.i18n.lang, app.settings.language);
}

#[test]
fn add_and_remove_resource_on_current_blueprint() {
    let mut app = new_app();
    let blueprint = Blueprint::new("bp".to_string());
    app.blueprint_store.add_blueprint(blueprint.clone());
    app.current_blueprint = Some(blueprint);
    app.selected_blueprint_index = 0;

    app.add_resource_to_current_blueprint(BlueprintResource {
        resource_type: ResourceType::Ecr,
        region: "ap-northeast-2".to_string(),
        resource_id: "repo-a".to_string(),
        resource_name: "repo-a".to_string(),
    });
    assert_eq!(
        app.current_blueprint
            .as_ref()
            .map(|bp| bp.resources.len())
            .unwrap_or_default(),
        1
    );

    app.remove_resource_from_current_blueprint(0);
    assert_eq!(
        app.current_blueprint
            .as_ref()
            .map(|bp| bp.resources.len())
            .unwrap_or_default(),
        0
    );
}

#[test]
fn a_session_starts_at_the_login_screen() {
    let app = new_app();
    assert_eq!(app.screen, Screen::Login);
    assert!(app.running);
    assert!(!app.loading);
    assert_eq!(app.loading_task, LoadingTask::Idle);
    assert_eq!(flags(&app.loading_progress), [false; 7]);
    assert_eq!(app.i18n.lang, Language::English);
    assert!(app.blueprint_store.blueprints.is_empty());
    assert!(app.current_blueprint.is_none());
    assert_eq!(app.message, "");
    assert!(!app.pending_save);
    let korean = App::new(BlueprintStore::new(), AppSettings { language: Language::Korean });
    assert_eq!(korean.i18n.lang, Language::Korean);
}

#[test]
fn regions_and_services_are_on_offer() {
    assert_eq!(REGION_COUNT, 12);
    assert_eq!(region_at(0).code, "ap-northeast-2");
    assert_eq!(region_at(0).name_en, "Seoul");
    assert_eq!(region_at(0).name_ko, "서울");
    assert_eq!(region_at(6).code, "us-east-1");
    assert_eq!(region_at(11).code, "eu-central-1");
    assert_eq!(region_at(11).name(Language::English), "Frankfurt");
    assert_eq!(SERVICE_COUNT, 6);
    let keys: Vec<&str> = (0..SERVICE_COUNT).map(service_key).collect();
    assert_eq!(keys, ["EC2", "Network", "Security Group", "Load Balancer", "ECR", "ASG"]);
    assert_eq!(ResourceType::SecurityGroup.display(), "Security Group");
}

#[test]
fn login_outcome_is_taken() {
    let mut app = new_app();
    app.check_login(Err("no credentials".to_string()));
    assert_eq!(app.screen, Screen::Login);
    assert_eq!(app.login_error, Some("no credentials".to_string()));
    assert_eq!(app.login_info, None);
    app.check_login(Ok("123 (arn)".to_string()));
    assert_eq!(app.screen, Screen::BlueprintSelect);
    assert_eq!(app.login_info, Some("123 (arn)".to_string()));
}

#[test]
fn select_region_sets_the_provider_region() {
    let mut app = new_app();
    let mut setting = RegionSetting::new();
    app.selected_region = 9;
    app.select_region(&mut setting);
    assert_eq!(app.screen, Screen::ServiceSelect);
    assert_eq!(setting.region, Some("us-west-2".to_string()));
    assert_eq!(app.get_current_region(), "us-west-2");
}

#[test]
fn save_file_announces_the_file() {
    let mut app = new_app();
    app.preview_filename = "out.md".to_string();
    assert!(!app.save_file(false));
    assert_eq!(app.message, "");
    assert!(app.save_file(true));
    assert_eq!(app.message, "Save complete: out.md");
}

#[test]
fn save_settings_reports_the_outcome() {
    let mut app = new_app();
    app.save_settings(true);
    assert_eq!(app.message, "Settings saved");
    app.save_settings(false);
    assert_eq!(app.message, "Save failed");
}

#[test]
fn priority_holds_when_several_details_are_populated() {
    let mut app = new_app();
    assert_eq!(app.get_current_resource_type(), None);
    assert_eq!(app.get_current_resource_info(), None);
    app.asg_detail = Some(sample_asg_detail());
    app.ecr_detail = Some(sample_ecr_detail());
    assert_eq!(app.get_current_resource_type(), Some(ResourceType::Ecr));
    assert_eq!(
        app.get_current_resource_info(),
        Some(("repo-a".to_string(), "repo-a".to_string()))
    );
    app.lb_detail = Some(sample_lb_detail());
    assert_eq!(app.get_current_resource_type(), Some(ResourceType::LoadBalancer));
    assert_eq!(
        app.get_current_resource_info().map(|(_, name)| name),
        Some("alb-main".to_string())
    );
    app.sg_detail = Some(sample_sg_detail());
    assert_eq!(app.get_current_resource_type(), Some(ResourceType::SecurityGroup));
    assert_eq!(
        app.get_current_resource_info(),
        Some(("sg-1234".to_string(), "sg-web".to_string()))
    );
    app.network_detail = Some(sample_network_detail());
    assert_eq!(app.get_current_resource_type(), Some(ResourceType::Network));
    assert_eq!(
        app.get_current_resource_info(),
        Some(("vpc-1111aaaa".to_string(), "main-vpc".to_string()))
    );
    app.ec2_detail = Some(sample_ec2_detail());
    assert_eq!(app.get_current_resource_type(), Some(ResourceType::Ec2));
    app.ec2_detail = None;
    app.network_detail = None;
    app.sg_detail = None;
    app.lb_detail = None;
    app.ecr_detail = None;
    assert_eq!(
        app.get_current_resource_info(),
        Some(("asg-main".to_string(), "asg-main".to_string()))
    );
}

#[test]
fn entering_twice_leaves_nothing_in_flight() {
    let mut app = new_app();
    assert!(app.begin_task(LoadingTask::LoadVpcDetail("vpc-1".to_string(), 0)));
    assert_eq!(app.advance_multistep(0, part(0)), StepAction::Fetch(1));
    app.enter(Screen::VpcSelect);
    app.enter(Screen::Preview);
    assert_eq!(app.screen, Screen::Preview);
    assert!(!app.loading);
    assert_eq!(app.loading_task, LoadingTask::Idle);
    assert_eq!(flags(&app.loading_progress), [false; 7]);
    assert!(app.network_draft.is_none());
}

#[test]
fn a_result_after_a_screen_change_is_dropped() {
    let mut app = new_app();
    assert!(app.begin_task(LoadingTask::LoadEc2Detail("i-1".to_string())));
    app.enter(Screen::ServiceSelect);
    assert_eq!(app.complete_task(TaskResult::Ec2(sample_ec2_detail())), Completion::Ignored);
    assert!(app.ec2_detail.is_none());
    assert_eq!(app.complete_task(TaskResult::Failed), Completion::Ignored);
    assert_eq!(app.message, "");
}

#[test]
fn a_second_task_is_refused_while_one_is_in_flight() {
    let mut app = new_app();
    assert!(app.begin_task(LoadingTask::LoadEc2));
    assert!(app.loading);
    assert!(!app.begin_task(LoadingTask::LoadEcr));
    assert!(!app.begin_task(LoadingTask::LoadVpcDetail("vpc-1".to_string(), 0)));
    assert_eq!(app.loading_task, LoadingTask::LoadEc2);
    assert!(app.loading);
}

#[test]
fn tasks_that_cannot_start_are_refused() {
    let mut app = new_app();
    assert!(!app.begin_task(LoadingTask::Idle));
    assert!(!app.begin_task(LoadingTask::LoadVpcDetail("vpc-1".to_string(), 3)));
    assert!(!app.begin_task(LoadingTask::LoadBlueprintResources(0)));
    app.current_blueprint = Some(Blueprint::new("empty".to_string()));
    assert!(!app.begin_task(LoadingTask::LoadBlueprintResources(0)));
    assert!(!app.loading);
    assert_eq!(app.loading_task, LoadingTask::Idle);
}

#[test]
fn each_step_raises_its_own_flag() {
    let mut app = new_app();
    app.ec2_detail = Some(sample_ec2_detail());
    assert!(app.begin_task(LoadingTask::LoadVpcDetail("vpc-1".to_string(), 0)));
    let mut expected = [false; 7];
    for step in 0..7u8 {
        assert_eq!(flags(&app.loading_progress), expected);
        assert!(app.loading);
        let action = app.advance_multistep(step, part(step));
        expected[step as usize] = true;
        assert_eq!(flags(&app.loading_progress), expected);
        if step < 6 {
            assert_eq!(action, StepAction::Fetch(step + 1));
            assert!(app.loading);
            assert_eq!(app.loading_task, LoadingTask::LoadVpcDetail("vpc-1".to_string(), step + 1));
            assert!(app.network_detail.is_none());
        } else {
            assert_eq!(action, StepAction::Done);
            assert!(!app.loading);
            assert_eq!(app.loading_task, LoadingTask::Idle);
        }
    }
    let detail = app.network_detail.as_ref().expect("network detail");
    assert_eq!(detail.id, "vpc-1");
    assert_eq!(detail.name, "main");
    assert_eq!(detail.cidr, "10.0.0.0/16");
    assert_eq!(detail.subnets.len(), 1);
    assert_eq!(detail.route_tables[0].routes, vec!["0.0.0.0/0 -> igw".to_string()]);
    assert!(detail.dns_support);
    assert!(!detail.dns_hostnames);
    assert!(app.ec2_detail.is_none());
    assert!(app.network_draft.is_none());
    assert_eq!(app.get_current_resource_type(), Some(ResourceType::Network));
}

#[test]
fn steps_out_of_turn_change_nothing() {
    let mut app = new_app();
    assert_eq!(app.advance_multistep(0, part(0)), StepAction::Rejected);
    assert!(app.begin_task(LoadingTask::LoadVpcDetail("vpc-1".to_string(), 0)));
    assert_eq!(app.advance_multistep(1, part(1)), StepAction::Rejected);
    assert_eq!(app.advance_multistep(0, part(1)), StepAction::Rejected);
    assert_eq!(app.advance_multistep(7, part(6)), StepAction::Rejected);
    assert_eq!(flags(&app.loading_progress), [false; 7]);
    assert_eq!(app.loading_task, LoadingTask::LoadVpcDetail("vpc-1".to_string(), 0));
    assert_eq!(app.advance_multistep(0, part(0)), StepAction::Fetch(1));
    assert_eq!(app.advance_multistep(0, part(0)), StepAction::Rejected);
}

#[test]
fn a_failed_step_publishes_no_network_detail() {
    let mut app = new_app();
    assert!(app.begin_task(LoadingTask::LoadVpcDetail("vpc-1".to_string(), 0)));
    assert_eq!(app.advance_multistep(0, part(0)), StepAction::Fetch(1));
    assert_eq!(app.advance_multistep(1, part(1)), StepAction::Fetch(2));
    assert_eq!(app.advance_multistep(2, part(2)), StepAction::Fetch(3));
    assert_eq!(app.complete_task(TaskResult::Failed), Completion::Failed);
    assert!(app.network_detail.is_none());
    assert!(app.network_draft.is_none());
    assert_eq!(
        flags(&app.loading_progress),
        [true, true, true, false, false, false, false]
    );
    assert!(app.message.contains("vpc-1"));
    assert_eq!(
        app.message,
        "Network detail unavailable for vpc-1. Please check AWS login status."
    );
    assert!(!app.loading);
    assert_eq!(app.loading_task, LoadingTask::Idle);
    assert_eq!(app.advance_multistep(3, part(3)), StepAction::Rejected);
}

#[test]
fn a_failed_fetch_keeps_what_was_shown() {
    let mut app = new_app();
    assert!(app.begin_task(LoadingTask::LoadEc2));
    let rows = vec![AwsResource {
        name: "web".to_string(),
        id: "i-1".to_string(),
        state: "running".to_string(),
        az: String::new(),
        cidr: String::new(),
    }];
    assert_eq!(app.complete_task(TaskResult::Resources(rows)), Completion::Applied);
    assert_eq!(app.instances.len(), 1);
    assert!(!app.loading);
    assert!(app.begin_task(LoadingTask::RefreshEc2));
    assert_eq!(app.complete_task(TaskResult::Failed), Completion::Failed);
    assert_eq!(app.instances.len(), 1);
    assert_eq!(app.instances[0].id, "i-1");
    assert_eq!(app.message, "Query failed");
    assert!(!app.loading);
    assert_eq!(app.loading_task, LoadingTask::Idle);
}

#[test]
fn listings_go_to_the_list_of_their_kind() {
    let row = |id: &str| AwsResource {
        name: String::new(),
        id: id.to_string(),
        state: String::new(),
        az: String::new(),
        cidr: String::new(),
    };
    let mut app = new_app();
    assert!(app.begin_task(LoadingTask::LoadVpc));
    assert_eq!(app.complete_task(TaskResult::Resources(vec![row("vpc-1")])), Completion::Applied);
    assert!(app.begin_task(LoadingTask::RefreshSecurityGroup));
    assert_eq!(app.complete_task(TaskResult::Resources(vec![row("sg-1")])), Completion::Applied);
    assert!(app.begin_task(LoadingTask::LoadLoadBalancer));
    assert_eq!(app.complete_task(TaskResult::Resources(vec![row("lb-1")])), Completion::Applied);
    assert!(app.begin_task(LoadingTask::LoadEcr));
    assert_eq!(app.complete_task(TaskResult::Resources(vec![row("repo")])), Completion::Applied);
    assert!(app.begin_task(LoadingTask::RefreshAsg));
    assert_eq!(app.complete_task(TaskResult::Resources(vec![row("asg")])), Completion::Applied);
    assert!(app.instances.is_empty());
    assert_eq!(app.vpcs[0].id, "vpc-1");
    assert_eq!(app.security_groups[0].id, "sg-1");
    assert_eq!(app.load_balancers[0].id, "lb-1");
    assert_eq!(app.ecr_repositories[0].id, "repo");
    assert_eq!(app.auto_scaling_groups[0].id, "asg");
}

#[test]
fn a_detail_takes_the_place_of_the_one_shown() {
    let mut app = new_app();
    app.network_detail = Some(sample_network_detail());
    assert!(app.begin_task(LoadingTask::LoadAsgDetail("asg-main".to_string())));
    assert_eq!(app.complete_task(TaskResult::Asg(sample_asg_detail())), Completion::Applied);
    assert!(app.network_detail.is_none());
    assert_eq!(app.get_current_resource_type(), Some(ResourceType::Asg));
    assert!(app.begin_task(LoadingTask::LoadEc2Detail("i-1".to_string())));
    assert_eq!(app.complete_task(TaskResult::Ec2(sample_ec2_detail())), Completion::Applied);
    assert!(app.asg_detail.is_none());
    assert!(app.begin_task(LoadingTask::LoadSecurityGroupDetail("sg".to_string())));
    assert_eq!(
        app.complete_task(TaskResult::SecurityGroup(sample_sg_detail())),
        Completion::Applied
    );
    assert!(app.begin_task(LoadingTask::LoadLoadBalancerDetail("lb".to_string())));
    assert_eq!(
        app.complete_task(TaskResult::LoadBalancer(sample_lb_detail())),
        Completion::Applied
    );
    assert!(app.begin_task(LoadingTask::LoadEcrDetail("repo".to_string())));
    assert_eq!(app.complete_task(TaskResult::Ecr(sample_ecr_detail())), Completion::Applied);
    assert!(app.ec2_detail.is_none() && app.sg_detail.is_none() && app.lb_detail.is_none());
    assert_eq!(app.get_current_resource_type(), Some(ResourceType::Ecr));
}

#[test]
fn a_result_of_another_kind_is_dropped() {
    let mut app = new_app();
    assert!(app.begin_task(LoadingTask::LoadEcr));
    assert_eq!(app.complete_task(TaskResult::Ec2(sample_ec2_detail())), Completion::Ignored);
    assert_eq!(
        app.complete_task(TaskResult::Preview("text".to_string())),
        Completion::Ignored
    );
    assert!(app.loading);
    assert_eq!(app.loading_task, LoadingTask::LoadEcr);
    assert!(app.ec2_detail.is_none());
    assert_eq!(app.preview_content, "");
    app.enter(Screen::Preview);
    assert!(app.begin_task(LoadingTask::RefreshPreview));
    assert_eq!(app.complete_task(TaskResult::Resources(vec![])), Completion::Ignored);
    assert_eq!(
        app.complete_task(TaskResult::Preview("text".to_string())),
        Completion::Applied
    );
    assert_eq!(app.preview_content, "text");
}

#[test]
fn blank_names_make_no_blueprint() {
    let mut app = new_app();
    assert_eq!(app.create_blueprint(String::new()), Err(ValidationError::EmptyName));
    assert_eq!(app.create_blueprint("  \t ".to_string()), Err(ValidationError::EmptyName));
    assert!(app.blueprint_store.blueprints.is_empty());
    assert!(!app.pending_save);
    assert_eq!(app.create_blueprint(" prod ".to_string()), Ok(()));
    assert_eq!(app.blueprint_store.blueprints.len(), 1);
    assert_eq!(app.blueprint_store.blueprints[0].name, " prod ");
    assert_eq!(app.selected_blueprint_index, 0);
    assert!(app.pending_save);
    assert_eq!(app.create_blueprint("dev".to_string()), Ok(()));
    assert_eq!(app.selected_blueprint_index, 1);
    app.save_blueprints(true);
    assert_eq!(app.message, "Blueprint saved");
    assert!(!app.pending_save);
}

#[test]
fn deleting_keeps_the_selection_within_bounds() {
    let mut app = new_app();
    for name in ["a", "b", "c"] {
        assert_eq!(app.create_blueprint(name.to_string()), Ok(()));
    }
    assert_eq!(app.selected_blueprint_index, 2);
    assert!(app.delete_blueprint(2));
    assert_eq!(app.selected_blueprint_index, 1);
    assert_eq!(app.pending_notice, Some(SaveNotice::Deleted));
    app.save_blueprints(true);
    assert_eq!(app.message, "Blueprint saved");
    assert!(!app.pending_save);
    app.announce_change();
    assert_eq!(app.message, "Blueprint deleted");
    assert_eq!(app.pending_notice, None);
    app.announce_change();
    assert_eq!(app.message, "Blueprint deleted");
    assert!(!app.delete_blueprint(2));
    assert!(!app.delete_blueprint(99));
    assert_eq!(app.blueprint_store.blueprints.len(), 2);
    app.selected_blueprint_index = 0;
    assert!(app.delete_blueprint(1));
    assert_eq!(app.selected_blueprint_index, 0);
    assert!(app.delete_blueprint(0));
    assert_eq!(app.selected_blueprint_index, 0);
    assert!(app.blueprint_store.blueprints.is_empty());
}

#[test]
fn deleting_before_the_selection_shifts_the_entries() {
    let mut app = new_app();
    for name in ["a", "b", "c"] {
        assert_eq!(app.create_blueprint(name.to_string()), Ok(()));
    }
    app.selected_blueprint_index = 1;
    assert!(app.delete_blueprint(0));
    assert_eq!(app.selected_blueprint_index, 1);
    let names: Vec<&str> =
        app.blueprint_store.blueprints.iter().map(|b| b.name.as_str()).collect();
    assert_eq!(names, ["b", "c"]);
}

#[test]
fn moves_at_the_ends_are_refused() {
    let mut app = new_app();
    assert!(!app.move_resource_up(0));
    assert!(!app.move_resource_down(0));
    let mut blueprint = Blueprint::new("bp".to_string());
    app.current_blueprint = Some(blueprint.clone());
    assert!(!app.move_resource_up(0));
    assert!(!app.move_resource_down(0));
    for id in ["i-1", "i-2", "i-3"] {
        blueprint.add_resource(ec2(id, ""));
    }
    app.current_blueprint = Some(blueprint.clone());
    app.blueprint_store.add_blueprint(blueprint);
    assert!(!app.move_resource_up(0));
    assert!(!app.move_resource_down(2));
    assert!(!app.move_resource_up(3));
    assert!(!app.move_resource_down(3));
    assert!(!app.pending_save);
    assert_eq!(ids(app.current_blueprint.as_ref().unwrap()), ["i-1", "i-2", "i-3"]);
    assert!(app.move_resource_up(2));
    assert_eq!(ids(app.current_blueprint.as_ref().unwrap()), ["i-1", "i-3", "i-2"]);
    assert_eq!(ids(&app.blueprint_store.blueprints[0]), ["i-1", "i-3", "i-2"]);
    assert!(app.pending_save);
}

#[test]
fn a_failed_save_rolls_nothing_back() {
    let mut app = new_app();
    assert_eq!(app.create_blueprint("prod".to_string()), Ok(()));
    app.save_blueprints(true);
    app.current_blueprint = app.blueprint_store.get_blueprint(0).cloned();
    assert!(app.add_resource_to_current_blueprint(ec2("i-1", "web-1")));
    app.save_blueprints(false);
    assert_eq!(app.message, "Save failed");
    assert!(app.pending_save);
    assert_eq!(ids(&app.blueprint_store.blueprints[0]), ["i-1"]);
    assert_eq!(ids(app.current_blueprint.as_ref().unwrap()), ["i-1"]);
    app.save_blueprints(true);
    assert_eq!(app.message, "Blueprint saved");
    assert!(!app.pending_save);
    app.announce_change();
    assert_eq!(app.message, "Blueprint saved");
    assert!(app.add_resource_to_current_blueprint(ec2("i-2", "web-2")));
    app.save_blueprints(true);
    assert_eq!(app.message, "Blueprint saved");
    app.announce_change();
    assert_eq!(app.message, "Resource added");
    assert!(app.remove_resource_from_current_blueprint(0));
    app.save_blueprints(true);
    app.announce_change();
    assert_eq!(app.message, "Resource deleted");
    assert!(!app.remove_resource_from_current_blueprint(5));
    assert!(!app.pending_save);
}

#[test]
fn without_an_open_blueprint_nothing_is_added() {
    let mut app = new_app();
    assert!(!app.add_resource_to_current_blueprint(ec2("i-1", "")));
    assert!(!app.remove_resource_from_current_blueprint(0));
    assert!(!app.pending_save);
}

#[test]
fn blueprint_is_composed_reordered_and_rendered() {
    let mut app = new_app();
    assert_eq!(app.create_blueprint("prod".to_string()), Ok(()));
    app.current_blueprint = app.blueprint_store.get_blueprint(0).cloned();
    assert!(app.add_resource_to_current_blueprint(ec2("i-1", "web-1")));
    assert!(app.add_resource_to_current_blueprint(ec2("i-2", "web-2")));
    assert!(app.move_resource_down(0));
    assert_eq!(ids(app.current_blueprint.as_ref().unwrap()), ["i-2", "i-1"]);
    assert_eq!(ids(&app.blueprint_store.blueprints[0]), ["i-2", "i-1"]);
    assert!(app.remove_resource_from_current_blueprint(1));
    assert_eq!(ids(app.current_blueprint.as_ref().unwrap()), ["i-2"]);
    assert_eq!(ids(&app.blueprint_store.blueprints[0]), ["i-2"]);

    assert!(app.begin_task(LoadingTask::LoadBlueprintResources(0)));
    let action = app.advance_blueprint(Some("## EC2 Instance (web-2)\n".to_string()));
    assert_eq!(action, CursorAction::Done);
    assert_eq!(app.screen, Screen::BlueprintPreview);
    assert!(!app.loading);
    assert_eq!(app.preview_filename, "prod.md");
    assert_eq!(app.message, "");
    assert_eq!(
        app.preview_content,
        "# prod\n\n<a id=\"resource-1\"></a>\n\n## EC2 Instance (web-2)\n\n"
    );
    assert_eq!(app.preview_content.matches("<a id=").count(), 1);
    assert!(!app.preview_content.contains("web-1"));
}

#[test]
fn a_blueprint_load_goes_on_past_a_failed_resource() {
    let mut app = new_app();
    let mut blueprint = Blueprint::new("stack".to_string());
    blueprint.add_resource(ec2("i-1", "web-1"));
    blueprint.add_resource(BlueprintResource {
        resource_type: ResourceType::Ecr,
        region: "ap-northeast-2".to_string(),
        resource_id: "repo-a".to_string(),
        resource_name: String::new(),
    });
    blueprint.add_resource(ec2("i-3", "web-3"));
    app.current_blueprint = Some(blueprint);
    assert_eq!(app.advance_blueprint(None), CursorAction::Rejected);
    assert!(app.begin_task(LoadingTask::LoadBlueprintResources(0)));
    assert_eq!(app.advance_blueprint(Some("one\n".to_string())), CursorAction::Fetch(1));
    assert_eq!(app.loading_task, LoadingTask::LoadBlueprintResources(1));
    assert_eq!(app.blueprint_resource_index, 1);
    assert_eq!(app.complete_task(TaskResult::Failed), Completion::Ignored);
    assert_eq!(app.advance_blueprint(None), CursorAction::Fetch(2));
    assert!(app.loading);
    assert_eq!(app.advance_blueprint(Some("three\n".to_string())), CursorAction::Done);
    assert!(!app.loading);
    assert_eq!(app.message, "Query failed: repo-a");
    assert_eq!(
        app.preview_content,
        "# stack\n\n## ðŸ“‘ Table of Contents\n\n- [EC2: web-1](#resource-1)\n- [EC2: web-3](#resource-3)\n\n<a id=\"resource-1\"></a>\n\none\n\n\n<a id=\"resource-3\"></a>\n\nthree\n\n"
    );
    assert_eq!(app.advance_blueprint(None), CursorAction::Rejected);
}

#[test]
fn services_lead_to_their_screens_and_tasks() {
    let kinds: Vec<ResourceType> = (0..SERVICE_COUNT).map(service_kind).collect();
    assert_eq!(
        kinds,
        [
            ResourceType::Ec2,
            ResourceType::Network,
            ResourceType::SecurityGroup,
            ResourceType::LoadBalancer,
            ResourceType::Ecr,
            ResourceType::Asg,
        ]
    );
    for (index, kind) in kinds.iter().enumerate() {
        assert_eq!(kind.display(), service_key(index));
    }
    assert_eq!(screen_for(ResourceType::Network), Screen::VpcSelect);
    assert_eq!(screen_for(ResourceType::Asg), Screen::AsgSelect);
    assert_eq!(list_task(ResourceType::Ecr, false), LoadingTask::LoadEcr);
    assert_eq!(list_task(ResourceType::Ecr, true), LoadingTask::RefreshEcr);
    assert_eq!(list_task(ResourceType::SecurityGroup, true), LoadingTask::RefreshSecurityGroup);
    assert_eq!(
        detail_task(ResourceType::Network, "vpc-1".to_string()),
        LoadingTask::LoadVpcDetail("vpc-1".to_string(), 0)
    );
    assert_eq!(
        detail_task(ResourceType::LoadBalancer, "lb".to_string()),
        LoadingTask::LoadLoadBalancerDetail("lb".to_string())
    );
    let mut app = new_app();
    assert!(app.begin_task(list_task(ResourceType::LoadBalancer, false)));
    let row = AwsResource {
        name: String::new(),
        id: "lb-1".to_string(),
        state: String::new(),
        az: String::new(),
        cidr: String::new(),
    };
    assert_eq!(app.complete_task(TaskResult::Resources(vec![row])), Completion::Applied);
    assert_eq!(app.listing(ResourceType::LoadBalancer).len(), 1);
    assert!(app.listing(ResourceType::Ec2).is_empty());
}

#[test]
fn a_failed_save_is_what_the_operator_reads() {
    let mut app = new_app();
    assert_eq!(app.create_blueprint("a".to_string()), Ok(()));
    assert_eq!(app.create_blueprint("b".to_string()), Ok(()));
    app.save_blueprints(true);
    assert!(app.delete_blueprint(0));
    app.save_blueprints(false);
    app.announce_change();
    assert_eq!(app.message, "Save failed");
    assert!(app.pending_save);
    assert_eq!(app.blueprint_store.blueprints.len(), 1);
    assert_eq!(app.blueprint_store.blueprints[0].name, "b");
}

#[test]
fn the_store_is_handed_over_whole_when_a_save_is_due() {
    let mut app = new_app();
    assert!(app.save_request().is_none());
    assert_eq!(app.create_blueprint("prod".to_string()), Ok(()));
    app.current_blueprint = app.blueprint_store.get_blueprint(0).cloned();
    assert!(app.add_resource_to_current_blueprint(ec2("i-1", "web-1")));
    assert!(app.add_resource_to_current_blueprint(ec2("i-2", "web-2")));
    assert_eq!(app.create_blueprint("dev".to_string()), Ok(()));
    let request = app.save_request().expect("a save is due");
    let names: Vec<&str> = request.blueprints.iter().map(|b| b.name.as_str()).collect();
    assert_eq!(names, ["prod", "dev"]);
    assert_eq!(ids(&request.blueprints[0]), ["i-1", "i-2"]);
    assert!(request.blueprints[1].resources.is_empty());
    app.save_blueprints(true);
    assert!(app.save_request().is_none());
    assert_eq!(app.blueprint_store.blueprints.len(), 2);
}

#[test]
fn choosing_a_region_gives_up_the_task_in_flight() {
    let mut app = new_app();
    app.check_login(Ok("123 (arn)".to_string()));
    assert!(app.begin_task(LoadingTask::LoadVpcDetail("vpc-1".to_string(), 0)));
    assert_eq!(app.advance_multistep(0, part(0)), StepAction::Fetch(1));
    assert_eq!(app.advance_multistep(1, part(1)), StepAction::Fetch(2));
    let mut setting = RegionSetting::new();
    app.selected_region = 1;
    app.select_region(&mut setting);
    assert_eq!(app.screen, Screen::ServiceSelect);
    assert!(!app.loading);
    assert_eq!(app.loading_task, LoadingTask::Idle);
    assert_eq!(flags(&app.loading_progress), [false; 7]);
    assert!(app.network_draft.is_none());
    assert_eq!(setting.region, Some("ap-northeast-1".to_string()));
    assert_eq!(app.advance_multistep(2, part(2)), StepAction::Rejected);
    assert!(app.begin_task(LoadingTask::LoadEc2));
    app.selected_region = 0;
    app.select_region(&mut setting);
    assert_eq!(app.complete_task(TaskResult::Resources(vec![])), Completion::Ignored);
}

#[test]
fn a_login_gives_up_the_task_in_flight() {
    let mut app = new_app();
    assert!(app.begin_task(LoadingTask::LoadEcr));
    app.loading_progress.mark(2);
    app.check_login(Err("no".to_string()));
    assert!(app.loading);
    assert_eq!(app.loading_task, LoadingTask::LoadEcr);
    app.check_login(Ok("me".to_string()));
    assert_eq!(app.screen, Screen::BlueprintSelect);
    assert!(!app.loading);
    assert_eq!(app.loading_task, LoadingTask::Idle);
    assert_eq!(flags(&app.loading_progress), [false; 7]);
    assert_eq!(app.login_error, Some("no".to_string()));
    assert_eq!(app.login_info, Some("me".to_string()));
    assert_eq!(app.complete_task(TaskResult::Resources(vec![])), Completion::Ignored);
}

#[test]
fn the_end_of_a_blueprint_load_clears_the_checklist() {
    let mut app = new_app();
    let mut blueprint = Blueprint::new("one".to_string());
    blueprint.add_resource(ec2("i-1", "web-1"));
    app.current_blueprint = Some(blueprint);
    app.loading_progress.mark(0);
    app.loading_progress.mark(4);
    assert!(app.begin_task(LoadingTask::LoadBlueprintResources(0)));
    assert_eq!(flags(&app.loading_progress), [true, false, false, false, true, false, false]);
    assert_eq!(app.advance_blueprint(None), CursorAction::Done);
    assert_eq!(app.screen, Screen::BlueprintPreview);
    assert_eq!(flags(&app.loading_progress), [false; 7]);
    assert!(!app.loading);
    assert_eq!(app.message, "Query failed: web-1");
    assert_eq!(app.preview_content, "# one\n");
}

#[test]
fn deleting_the_selected_blueprint_closes_it() {
    let mut app = new_app();
    for name in ["a", "b", "c"] {
        assert_eq!(app.create_blueprint(name.to_string()), Ok(()));
    }
    app.selected_blueprint_index = 1;
    app.current_blueprint = app.blueprint_store.get_blueprint(1).cloned();
    assert!(app.delete_blueprint(2));
    assert_eq!(app.current_blueprint.as_ref().map(|b| b.name.as_str()), Some("b"));
    assert!(app.delete_blueprint(1));
    assert!(app.current_blueprint.is_none());
    assert_eq!(app.selected_blueprint_index, 0);
    assert!(!app.add_resource_to_current_blueprint(ec2("i-1", "")));
    assert_eq!(ids(&app.blueprint_store.blueprints[0]), Vec::<String>::new());
}

#[test]
fn an_open_blueprint_without_its_counterpart_is_left_alone() {
    let mut app = new_app();
    for name in ["a", "b", "c"] {
        assert_eq!(app.create_blueprint(name.to_string()), Ok(()));
    }
    app.save_blueprints(true);
    app.selected_blueprint_index = 1;
    app.current_blueprint = app.blueprint_store.get_blueprint(1).cloned();
    assert!(app.add_resource_to_current_blueprint(ec2("i-1", "")));
    assert!(app.add_resource_to_current_blueprint(ec2("i-2", "")));
    app.save_blueprints(true);
    app.announce_change();
    // With the blueprint before it gone, another blueprint stands under the selection.
    assert!(app.delete_blueprint(0));
    app.save_blueprints(true);
    app.announce_change();
    assert_eq!(app.selected_blueprint_index, 1);
    assert_eq!(app.blueprint_store.blueprints[1].name, "c");
    assert!(!app.add_resource_to_current_blueprint(ec2("i-3", "")));
    assert_eq!(app.message, "Blueprint not found");
    assert!(!app.remove_resource_from_current_blueprint(0));
    assert!(!app.move_resource_up(1));
    assert!(!app.move_resource_down(0));
    assert!(!app.pending_save);
    assert!(app.blueprint_store.blueprints[1].resources.is_empty());
    assert_eq!(ids(&app.blueprint_store.blueprints[0]), ["i-1", "i-2"]);
    assert_eq!(ids(app.current_blueprint.as_ref().unwrap()), ["i-1", "i-2"]);
    // Requests that the blueprint itself refuses stay silent.
    app.message = String::new();
    assert!(!app.move_resource_up(0));
    assert!(!app.move_resource_down(1));
    assert!(!app.remove_resource_from_current_blueprint(2));
    assert_eq!(app.message, "");
    // A selection beyond the store has no counterpart either.
    app.selected_blueprint_index = 7;
    assert!(!app.add_resource_to_current_blueprint(ec2("i-3", "")));
    assert_eq!(app.message, "Blueprint not found");
    // Back under its own name, the blueprint can be changed again.
    app.selected_blueprint_index = 0;
    assert!(app.move_resource_down(0));
    assert_eq!(ids(&app.blueprint_store.blueprints[0]), ["i-2", "i-1"]);
}
