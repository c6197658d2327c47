use emd::i18n::{I18n, Language};

fn assert_all_labels_non_empty(i: &I18n) {
    assert!(!i.exit().is_empty(), "exit should not be empty");
    assert!(!i.settings().is_empty(), "settings should not be empty");
    assert!(!i.main_tab().is_empty(), "main_tab should not be empty");
    assert!(!i.back().is_empty(), "back should not be empty");
    assert!(!i.select().is_empty(), "select should not be empty");
    assert!(!i.move_cursor().is_empty(), "move_cursor should not be empty");
    assert!(!i.refresh().is_empty(), "refresh should not be empty");
    assert!(!i.save().is_empty(), "save should not be empty");
    assert!(!i.delete().is_empty(), "delete should not be empty");
    assert!(!i.add().is_empty(), "add should not be empty");
    assert!(!i.cancel().is_empty(), "cancel should not be empty");
    assert!(!i.confirm().is_empty(), "confirm should not be empty");
    assert!(!i.scroll().is_empty(), "scroll should not be empty");
    assert!(!i.page().is_empty(), "page should not be empty");
    assert!(!i.generate().is_empty(), "generate should not be empty");
    assert!(!i.reorder().is_empty(), "reorder should not be empty");
    assert!(!i.single_mode().is_empty(), "single_mode should not be empty");
    assert!(!i.add_to_blueprint().is_empty(), "add_to_blueprint should not be empty");
    assert!(!i.markdown_generate().is_empty(), "markdown_generate should not be empty");
    assert!(!i.login().is_empty(), "login should not be empty");
    assert!(!i.region().is_empty(), "region should not be empty");
    assert!(!i.service().is_empty(), "service should not be empty");
    assert!(!i.blueprint().is_empty(), "blueprint should not be empty");
    assert!(!i.preview().is_empty(), "preview should not be empty");
    assert!(!i.loading().is_empty(), "loading should not be empty");
    assert!(!i.loading_msg().is_empty(), "loading_msg should not be empty");
    assert!(!i.aws_cli_waiting().is_empty(), "aws_cli_waiting should not be empty");
    assert!(!i.refresh_complete().is_empty(), "refresh_complete should not be empty");
    assert!(!i.save_complete().is_empty(), "save_complete should not be empty");
    assert!(!i.resource_added().is_empty(), "resource_added should not be empty");
    assert!(!i.resource_deleted().is_empty(), "resource_deleted should not be empty");
    assert!(!i.blueprint_saved().is_empty(), "blueprint_saved should not be empty");
    assert!(!i.blueprint_deleted().is_empty(), "blueprint_deleted should not be empty");
    assert!(!i.no_resources().is_empty(), "no_resources should not be empty");
    assert!(!i.no_instances().is_empty(), "no_instances should not be empty");
    assert!(!i.no_vpcs().is_empty(), "no_vpcs should not be empty");
    assert!(!i.no_security_groups().is_empty(), "no_security_groups should not be empty");
    assert!(!i.no_load_balancers().is_empty(), "no_load_balancers should not be empty");
    assert!(!i.no_ecr_repos().is_empty(), "no_ecr_repos should not be empty");
    assert!(!i.aws_login_verified().is_empty(), "aws_login_verified should not be empty");
    assert!(!i.aws_login_required().is_empty(), "aws_login_required should not be empty");
    assert!(!i.aws_login_checking().is_empty(), "aws_login_checking should not be empty");
    assert!(!i.aws_configure_hint().is_empty(), "aws_configure_hint should not be empty");
    assert!(!i.processing().is_empty(), "processing should not be empty");
    assert!(!i.refreshing_ec2_list().is_empty(), "refreshing_ec2_list should not be empty");
    assert!(!i.refreshing_vpc_list().is_empty(), "refreshing_vpc_list should not be empty");
    assert!(!i.refreshing_sg_list().is_empty(), "refreshing_sg_list should not be empty");
    assert!(!i.refreshing_preview().is_empty(), "refreshing_preview should not be empty");
    assert!(!i.loading_ec2_list().is_empty(), "loading_ec2_list should not be empty");
    assert!(!i.loading_vpc_list().is_empty(), "loading_vpc_list should not be empty");
    assert!(!i.loading_sg_list().is_empty(), "loading_sg_list should not be empty");
    assert!(!i.loading_ec2_detail().is_empty(), "loading_ec2_detail should not be empty");
    assert!(!i.loading_vpc_detail().is_empty(), "loading_vpc_detail should not be empty");
    assert!(!i.loading_sg_detail().is_empty(), "loading_sg_detail should not be empty");
    assert!(!i.refreshing_lb_list().is_empty(), "refreshing_lb_list should not be empty");
    assert!(!i.loading_lb_list().is_empty(), "loading_lb_list should not be empty");
    assert!(!i.loading_lb_detail().is_empty(), "loading_lb_detail should not be empty");
    assert!(!i.refreshing_ecr_list().is_empty(), "refreshing_ecr_list should not be empty");
    assert!(!i.loading_ecr_list().is_empty(), "loading_ecr_list should not be empty");
    assert!(!i.loading_ecr_detail().is_empty(), "loading_ecr_detail should not be empty");
    assert!(!i.loading_asg_list().is_empty(), "loading_asg_list should not be empty");
    assert!(!i.loading_asg_detail().is_empty(), "loading_asg_detail should not be empty");
    assert!(!i.no_asgs().is_empty(), "no_asgs should not be empty");
    assert!(!i.auto_scaling_group().is_empty(), "auto_scaling_group should not be empty");
    assert!(!i.loading_blueprint_resources().is_empty(), "loading_blueprint_resources should not be empty");
    assert!(!i.vpc_basic_info().is_empty(), "vpc_basic_info should not be empty");
    assert!(!i.subnets().is_empty(), "subnets should not be empty");
    assert!(!i.internet_gateway().is_empty(), "internet_gateway should not be empty");
    assert!(!i.nat_gateway().is_empty(), "nat_gateway should not be empty");
    assert!(!i.route_tables().is_empty(), "route_tables should not be empty");
    assert!(!i.elastic_ip().is_empty(), "elastic_ip should not be empty");
    assert!(!i.dns_settings().is_empty(), "dns_settings should not be empty");
    assert!(!i.completing().is_empty(), "completing should not be empty");
    assert!(!i.new_blueprint().is_empty(), "new_blueprint should not be empty");
    assert!(!i.blueprint_load_failed().is_empty(), "blueprint_load_failed should not be empty");
    assert!(!i.enter_blueprint_name().is_empty(), "enter_blueprint_name should not be empty");
    assert!(!i.press_a_to_add().is_empty(), "press_a_to_add should not be empty");
    assert!(!i.resources().is_empty(), "resources should not be empty");
    assert!(!i.language().is_empty(), "language should not be empty");
    assert!(!i.language_setting().is_empty(), "language_setting should not be empty");
    assert!(!i.settings_saved().is_empty(), "settings_saved should not be empty");
    assert!(!i.change().is_empty(), "change should not be empty");
    assert!(!i.item().is_empty(), "item should not be empty");
    assert!(!i.value().is_empty(), "value should not be empty");
    assert!(!i.md_name().is_empty(), "md_name should not be empty");
    assert!(!i.md_state().is_empty(), "md_state should not be empty");
    assert!(!i.tag().is_empty(), "tag should not be empty");
    assert!(!i.toc().is_empty(), "toc should not be empty");
    assert!(!i.query_failed().is_empty(), "query_failed should not be empty");
    assert!(!i.md_dns_support().is_empty(), "md_dns_support should not be empty");
    assert!(!i.md_dns_hostnames().is_empty(), "md_dns_hostnames should not be empty");
    assert!(!i.md_subnets().is_empty(), "md_subnets should not be empty");
    assert!(!i.md_internet_gateway().is_empty(), "md_internet_gateway should not be empty");
    assert!(!i.md_attached_vpc().is_empty(), "md_attached_vpc should not be empty");
    assert!(!i.md_nat_gateway().is_empty(), "md_nat_gateway should not be empty");
    assert!(!i.md_availability_mode().is_empty(), "md_availability_mode should not be empty");
    assert!(!i.md_zonal().is_empty(), "md_zonal should not be empty");
    assert!(!i.md_regional().is_empty(), "md_regional should not be empty");
    assert!(!i.md_ip_auto_scaling().is_empty(), "md_ip_auto_scaling should not be empty");
    assert!(!i.md_zone_auto_provisioning().is_empty(), "md_zone_auto_provisioning should not be empty");
    assert!(!i.md_enabled().is_empty(), "md_enabled should not be empty");
    assert!(!i.md_disabled().is_empty(), "md_disabled should not be empty");
    assert!(!i.md_subnet().is_empty(), "md_subnet should not be empty");
    assert!(!i.md_connectivity_type().is_empty(), "md_connectivity_type should not be empty");
    assert!(!i.md_public().is_empty(), "md_public should not be empty");
    assert!(!i.md_private().is_empty(), "md_private should not be empty");
    assert!(!i.md_elastic_ip_allocation_id().is_empty(), "md_elastic_ip_allocation_id should not be empty");
    assert!(!i.md_route_tables().is_empty(), "md_route_tables should not be empty");
    assert!(!i.md_destination().is_empty(), "md_destination should not be empty");
    assert!(!i.md_target().is_empty(), "md_target should not be empty");
    assert!(!i.md_associated_subnets().is_empty(), "md_associated_subnets should not be empty");
    assert!(!i.md_association().is_empty(), "md_association should not be empty");
    assert!(!i.md_network_diagram().is_empty(), "md_network_diagram should not be empty");
    assert!(!i.md_description().is_empty(), "md_description should not be empty");
    assert!(!i.md_inbound_rules().is_empty(), "md_inbound_rules should not be empty");
    assert!(!i.md_outbound_rules().is_empty(), "md_outbound_rules should not be empty");
    assert!(!i.md_protocol().is_empty(), "md_protocol should not be empty");
    assert!(!i.md_port_range().is_empty(), "md_port_range should not be empty");
    assert!(!i.md_source().is_empty(), "md_source should not be empty");
    assert!(!i.md_dns_name().is_empty(), "md_dns_name should not be empty");
    assert!(!i.md_type().is_empty(), "md_type should not be empty");
    assert!(!i.md_ip_address_type().is_empty(), "md_ip_address_type should not be empty");
    assert!(!i.md_port().is_empty(), "md_port should not be empty");
    assert!(!i.md_default_action().is_empty(), "md_default_action should not be empty");
    assert!(!i.md_basic_info().is_empty(), "md_basic_info should not be empty");
    assert!(!i.md_ec2_instance().is_empty(), "md_ec2_instance should not be empty");
    assert!(!i.md_instance_type().is_empty(), "md_instance_type should not be empty");
    assert!(!i.md_platform().is_empty(), "md_platform should not be empty");
    assert!(!i.md_architecture().is_empty(), "md_architecture should not be empty");
    assert!(!i.md_key_pair().is_empty(), "md_key_pair should not be empty");
    assert!(!i.md_availability_zone().is_empty(), "md_availability_zone should not be empty");
    assert!(!i.md_availability_zones().is_empty(), "md_availability_zones should not be empty");
    assert!(!i.md_private_ip().is_empty(), "md_private_ip should not be empty");
    assert!(!i.md_public_ip().is_empty(), "md_public_ip should not be empty");
    assert!(!i.md_security_groups().is_empty(), "md_security_groups should not be empty");
    assert!(!i.md_ebs_optimized().is_empty(), "md_ebs_optimized should not be empty");
    assert!(!i.md_monitoring().is_empty(), "md_monitoring should not be empty");
    assert!(!i.md_iam_role().is_empty(), "md_iam_role should not be empty");
    assert!(!i.md_iam_role_detail().is_empty(), "md_iam_role_detail should not be empty");
    assert!(!i.md_attached_policies().is_empty(), "md_attached_policies should not be empty");
    assert!(!i.md_inline_policies().is_empty(), "md_inline_policies should not be empty");
    assert!(!i.md_trust_policy().is_empty(), "md_trust_policy should not be empty");
    assert!(!i.md_policy_name().is_empty(), "md_policy_name should not be empty");
    assert!(!i.md_launch_time().is_empty(), "md_launch_time should not be empty");
    assert!(!i.md_storage().is_empty(), "md_storage should not be empty");
    assert!(!i.md_device().is_empty(), "md_device should not be empty");
    assert!(!i.md_size().is_empty(), "md_size should not be empty");
    assert!(!i.md_encrypted().is_empty(), "md_encrypted should not be empty");
    assert!(!i.md_delete_on_termination().is_empty(), "md_delete_on_termination should not be empty");
    assert!(!i.md_user_data().is_empty(), "md_user_data should not be empty");
    assert!(!i.md_ecr_repository().is_empty(), "md_ecr_repository should not be empty");
    assert!(!i.md_tag_mutability().is_empty(), "md_tag_mutability should not be empty");
    assert!(!i.md_encryption().is_empty(), "md_encryption should not be empty");
    assert!(!i.md_image_count().is_empty(), "md_image_count should not be empty");
    assert!(!i.md_created_at().is_empty(), "md_created_at should not be empty");
    assert!(!i.md_scheme().is_empty(), "md_scheme should not be empty");
    assert!(!i.md_target_type().is_empty(), "md_target_type should not be empty");
    assert!(!i.md_health_check().is_empty(), "md_health_check should not be empty");
    assert!(!i.md_threshold().is_empty(), "md_threshold should not be empty");
    assert!(!i.md_healthy().is_empty(), "md_healthy should not be empty");
    assert!(!i.md_unhealthy().is_empty(), "md_unhealthy should not be empty");
    assert!(!i.md_targets().is_empty(), "md_targets should not be empty");
}

#[test]
fn language_toggle_and_display_are_consistent() {
    assert_eq!(Language::Korean.display(), "í•œêµ­ì–´");
    assert_eq!(Language::Korean.toggle(), Language::English);
    assert_eq!(Language::English.display(), "English");
    assert_eq!(Language::English.toggle(), Language::Korean);
}

#[test]
fn i18n_labels_are_available_for_both_languages() {
    let ko = I18n::new(Language::Korean);
    let en = I18n::new(Language::English);

    assert_all_labels_non_empty(&ko);
    assert_all_labels_non_empty(&en);

    assert!(ko.current_loading("ìž‘ì—…").contains("ìž‘ì—…"));
    assert!(en.current_loading("task").contains("task"));
}

#[test]
fn default_language_is_english() {
    assert_eq!(Language::default(), Language::English);
}

#[test]
fn labels_follow_the_language() {
    let ko = I18n::new(Language::Korean);
    let en = I18n::new(Language::English);
    assert_eq!(en.exit(), "Exit");
    assert_eq!(ko.exit(), "ì¢…ë£Œ");
    assert_eq!(en.ec2(), "EC2");
    assert_eq!(ko.ec2(), "EC2");
    assert_eq!(en.blueprint_saved(), "Blueprint saved");
}

#[test]
fn seconds_carry_the_unit_of_the_language() {
    let ko = I18n::new(Language::Korean);
    let en = I18n::new(Language::English);
    assert_eq!(en.asg_seconds(300), "300s");
    assert_eq!(ko.asg_seconds(300), "300ì´ˆ");
    assert_eq!(en.asg_seconds(-5), "-5s");
    assert_eq!(en.asg_seconds(0), "0s");
    assert_eq!(en.asg_seconds(i32::MIN), "-2147483648s");
}

#[test]
fn instance_heading_carries_the_count() {
    let ko = I18n::new(Language::Korean);
    let en = I18n::new(Language::English);
    assert_eq!(en.asg_instances_with_count(12), "Instances (12)");
    assert_eq!(ko.asg_instances_with_count(3), "ì¸ìŠ¤í„´ìŠ¤ (3 ê°œ)");
}

#[test]
fn current_loading_names_the_task() {
    let ko = I18n::new(Language::Korean);
    let en = I18n::new(Language::English);
    assert_eq!(en.current_loading("subnets"), "Current: Loading subnets...");
    assert_eq!(ko.current_loading("subnets"), "í˜„ìž¬: subnets ì¡°íšŒ ì¤‘...");
}

#[test]
fn network_detail_unavailable_names_the_network() {
    let ko = I18n::new(Language::Korean);
    let en = I18n::new(Language::English);
    assert_eq!(
        en.network_detail_unavailable("vpc-1"),
        "Network detail unavailable for vpc-1. Please check AWS login status."
    );
    assert_eq!(
        ko.network_detail_unavailable("vpc-1"),
        "vpc-1 ë„¤íŠ¸ì›Œí¬ ìƒì„¸ ì •ë³´ë¥¼ ë¶ˆëŸ¬ì˜¬ ìˆ˜ ì—†ìŠµë‹ˆë‹¤. ë¡œê·¸ì¸ ìƒíƒœë¥¼ í™•ì¸í•˜ì„¸ìš”."
    );
}
