use emd::aws_cli::common::{
    check_aws_login, extract_json_value, extract_tags, first_line_of, get_region_args,
    parse_name_tag, parse_resources_from_json, sdk_region, set_region, AwsResource,
    CommandOutcome,
    RegionSetting,
};

fn resource(name: &str, id: &str) -> AwsResource {
    AwsResource {
        name: name.to_string(),
        id: id.to_string(),
        state: String::new(),
        az: String::new(),
        cidr: String::new(),
    }
}

#[test]
fn display_shows_name_and_id() {
    assert_eq!(resource("web-1", "i-1").display(), "web-1 (i-1)");
    assert_eq!(resource("", "i-1").display(), "i-1");
}

#[test]
fn resource_clone_is_equal() {
    let r = AwsResource {
        name: "n".to_string(),
        id: "i".to_string(),
        state: "s".to_string(),
        az: "a".to_string(),
        cidr: "c".to_string(),
    };
    let c = r.clone();
    assert_eq!((c.name, c.id, c.state, c.az, c.cidr), (r.name, r.id, r.state, r.az, r.cidr));
}

#[test]
fn region_args_follow_the_setting() {
    let mut setting = RegionSetting::new();
    assert!(get_region_args(&setting).is_empty());
    set_region(&mut setting, "us-east-1");
    assert_eq!(get_region_args(&setting), vec!["--region".to_string(), "us-east-1".to_string()]);
    set_region(&mut setting, "eu-west-1");
    assert_eq!(get_region_args(&setting), vec!["--region".to_string(), "eu-west-1".to_string()]);
}

#[test]
fn json_value_is_the_first_quoted_value_of_the_key() {
    let json = "{\n  \"Account\": \"123456789012\",\n  \"Arn\": \"arn:aws:iam::1:user/a\"\n}";
    assert_eq!(extract_json_value(json, "Account"), Some("123456789012".to_string()));
    assert_eq!(extract_json_value(json, "Arn"), Some("arn:aws:iam::1:user/a".to_string()));
    assert_eq!(extract_json_value(json, "UserId"), None);
    assert_eq!(extract_json_value("\"K\": \"first\" \"K\": \"second\"", "K"), Some("first".to_string()));
}

#[test]
fn json_value_needs_the_exact_spacing_and_a_closing_quote() {
    assert_eq!(extract_json_value("{\"K\":\"v\"}", "K"), None);
    assert_eq!(extract_json_value("\"K\": \"open", "K"), None);
    assert_eq!(extract_json_value("\"K\": \"", "K"), None);
    assert_eq!(extract_json_value("\"K\": \"\"", "K"), Some(String::new()));
    assert_eq!(extract_json_value("", "K"), None);
    assert_eq!(extract_json_value("\"키\": \"값 🙂\"", "키"), Some("값 🙂".to_string()));
}

#[test]
fn name_tag_after_the_key() {
    let json = "\"Tags\": [ { \"Key\": \"Name\", \"Value\": \"web\" } ]";
    assert_eq!(parse_name_tag(json), "web");
}

#[test]
fn name_tag_before_the_key() {
    let json = "{ \"Value\": \"db\", \"Key\": \"Name\" }";
    assert_eq!(parse_name_tag(json), "db");
}

#[test]
fn name_tag_is_empty_without_a_name() {
    assert_eq!(parse_name_tag(""), "");
    assert_eq!(parse_name_tag("{ \"Key\": \"Env\", \"Value\": \"prod\" }"), "");
    assert_eq!(parse_name_tag("{ \"Key\": \"Name\" }"), "");
    assert_eq!(parse_name_tag("{ \"Key\": \"Name\", \"Value\": \"open"), "");
}

#[test]
fn name_tag_takes_the_value_that_follows_the_key() {
    let json = "{ \"Key\": \"Env\", \"Value\": \"prod\" }, { \"Key\": \"Name\", \"Value\": \"api\" }";
    assert_eq!(parse_name_tag(json), "api");
}

#[test]
fn tags_are_collected_once_per_key() {
    let json = "[ { \"Key\": \"Name\", \"Value\": \"web\" }, { \"Key\": \"Env\", \"Value\": \"prod\" }, { \"Key\": \"Name\", \"Value\": \"again\" } ]";
    assert_eq!(
        extract_tags(json),
        vec![
            ("Name".to_string(), "web".to_string()),
            ("Env".to_string(), "prod".to_string()),
        ]
    );
}

#[test]
fn tags_without_a_value_are_left_out() {
    assert!(extract_tags("").is_empty());
    assert!(extract_tags("{ \"Key\": \"Lonely\" }").is_empty());
    assert!(extract_tags("{ \"Key\": \"open").is_empty());
    assert_eq!(
        extract_tags("{ \"Key\": \"A\" }, { \"Key\": \"B\", \"Value\": \"b\" }"),
        vec![("A".to_string(), "b".to_string()), ("B".to_string(), "b".to_string())]
    );
}

#[test]
fn resources_are_listed_with_their_names() {
    let json = "{ \"InstanceId\": \"i-111\", \"Tags\": [ { \"Key\": \"Name\", \"Value\": \"web\" } ] }, { \"InstanceId\": \"i-222\", \"Tags\": [] }";
    let rows = parse_resources_from_json(json, "i-");
    assert_eq!(rows.len(), 2);
    assert_eq!(rows[0].id, "i-111");
    assert_eq!(rows[0].name, "web");
    assert_eq!(rows[0].state, "");
    assert_eq!(rows[1].id, "i-222");
    assert_eq!(rows[1].name, "");
}

#[test]
fn candidates_with_a_space_are_no_identifiers() {
    let rows = parse_resources_from_json("\"note\": \"vpc-1 is old\", \"VpcId\": \"vpc-2\"", "vpc-");
    assert_eq!(rows.len(), 1);
    assert_eq!(rows[0].id, "vpc-2");
    assert!(parse_resources_from_json("", "vpc-").is_empty());
    assert!(parse_resources_from_json("vpc-1 without a quote", "vpc-").is_empty());
}

#[test]
fn a_scan_that_cannot_advance_ends() {
    let rows = parse_resources_from_json("\"a\" \"b\"", "\"");
    assert!(rows.is_empty());
    let rows = parse_resources_from_json("ab\"cd\"", "");
    assert_eq!(rows.len(), 2);
    assert_eq!(rows[0].id, "ab");
    assert_eq!(rows[1].id, "");
}

#[test]
fn first_line_ends_at_the_line_feed() {
    assert_eq!(first_line_of(""), "");
    assert_eq!(first_line_of("one"), "one");
    assert_eq!(first_line_of("one\ntwo"), "one");
    assert_eq!(first_line_of("one\r\ntwo"), "one");
    assert_eq!(first_line_of("one\r"), "one\r");
    assert_eq!(first_line_of("\nrest"), "");
    assert_eq!(first_line_of("a\rb\nc"), "a\rb");
}

#[test]
fn login_line_holds_account_and_arn() {
    let outcome = CommandOutcome::Exited {
        success: true,
        stdout: "{\n    \"UserId\": \"U\",\n    \"Account\": \"123456789012\",\n    \"Arn\": \"arn:aws:iam::123456789012:user/me\"\n}\n".to_string(),
        stderr: String::new(),
    };
    assert_eq!(
        check_aws_login(&outcome),
        Ok("123456789012 (arn:aws:iam::123456789012:user/me)".to_string())
    );
    let bare = CommandOutcome::Exited {
        success: true,
        stdout: "{}".to_string(),
        stderr: String::new(),
    };
    assert_eq!(check_aws_login(&bare), Ok(" ()".to_string()));
}

#[test]
fn failed_login_gives_the_first_line_of_the_complaint() {
    let outcome = CommandOutcome::Exited {
        success: false,
        stdout: String::new(),
        stderr: "Unable to locate credentials.\nYou can configure them.".to_string(),
    };
    assert_eq!(
        check_aws_login(&outcome),
        Err("AWS 로그인 필요: Unable to locate credentials.".to_string())
    );
    let silent = CommandOutcome::Exited {
        success: false,
        stdout: String::new(),
        stderr: String::new(),
    };
    assert_eq!(check_aws_login(&silent), Err("AWS 로그인 필요: ".to_string()));
}

#[test]
fn a_command_that_did_not_start_is_reported() {
    let outcome = CommandOutcome::NotStarted("No such file or directory".to_string());
    assert_eq!(
        check_aws_login(&outcome),
        Err("AWS CLI 실행 실패: No such file or directory".to_string())
    );
}

#[test]
fn the_sdk_region_falls_back_to_singapore() {
    let mut setting = RegionSetting::new();
    assert_eq!(sdk_region(&setting), "ap-southeast-1");
    set_region(&mut setting, "us-west-2");
    assert_eq!(sdk_region(&setting), "us-west-2");
}
