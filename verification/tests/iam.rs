use emd::aws_cli::iam::{
    assemble_role_detail, build_iam_role_detail_from_output, build_inline_policies_from_names,
    extract_assume_role_policy, get_iam_role_detail, parse_inline_policy_document_response,
    text_or_empty, AttachedPolicy, InlinePolicy,
};

#[test]
fn extract_assume_role_policy_returns_pretty_json() {
    let payload = r#"
            {
              "Role": {
                "AssumeRolePolicyDocument": {
                  "Version": "2012-10-17",
                  "Statement": []
                }
              }
            }
        "#;
    let policy = extract_assume_role_policy(payload);
    assert!(policy.contains("\"Version\""));
    assert!(policy.contains("2012-10-17"));
}

#[test]
fn extract_assume_role_policy_returns_empty_on_invalid_payload() {
    assert_eq!(extract_assume_role_policy("not-json"), "");
    assert_eq!(extract_assume_role_policy(r#"{"Role":{}}"#), "");
}

#[test]
fn parse_inline_policy_document_response_returns_json_string() {
    let payload = r#"
            {
              "PolicyDocument": {
                "Version": "2012-10-17",
                "Statement": []
              }
            }
        "#;
    let doc = parse_inline_policy_document_response(payload).expect("parse inline doc");
    assert!(doc.contains("\"Version\""));
    assert!(doc.contains("2012-10-17"));
}

#[test]
fn build_iam_role_detail_from_output_requires_name_and_arn() {
    let payload = r#"
            {
              "Role": {
                "RoleName": "role-a",
                "Arn": "arn:aws:iam::123456789012:role/role-a",
                "AssumeRolePolicyDocument": {"Version":"2012-10-17"}
              }
            }
        "#;
    let detail = build_iam_role_detail_from_output(payload, vec![], vec![]).expect("detail");
    assert_eq!(detail.name, "role-a");
    assert_eq!(detail.arn, "arn:aws:iam::123456789012:role/role-a");
    assert!(detail.assume_role_policy.contains("Version"));

    let invalid = build_iam_role_detail_from_output(r#"{"Role":{}}"#, vec![], vec![]);
    assert!(invalid.is_none());
}

#[test]
fn build_inline_policies_from_names_skips_missing_documents() {
    let names = vec![
        "inline-a".to_string(),
        "inline-b".to_string(),
        "inline-c".to_string(),
    ];
    let policies = build_inline_policies_from_names(names, |name| match name {
        "inline-a" => Some("{\"Statement\":[]}".to_string()),
        "inline-c" => Some("{\"Statement\":[{\"Effect\":\"Allow\"}]}".to_string()),
        _ => None,
    });
    assert_eq!(policies.len(), 2);
    assert_eq!(policies[0].name, "inline-a");
    assert_eq!(policies[1].name, "inline-c");
}

#[test]
fn inline_policies_keep_their_documents() {
    let names = vec!["a".to_string(), "b".to_string()];
    let policies = build_inline_policies_from_names(names, |name| {
        if name == "b" {
            Some("doc-b".to_string())
        } else {
            None
        }
    });
    assert_eq!(policies.len(), 1);
    assert_eq!(policies[0].name, "b");
    assert_eq!(policies[0].document, "doc-b");
    let none = build_inline_policies_from_names(vec![], |_| Some(String::new()));
    assert!(none.is_empty());
}

#[test]
fn assume_role_policy_is_pretty_printed_exactly() {
    let policy = extract_assume_role_policy(
        r#"{"Role":{"AssumeRolePolicyDocument":{"Version":"2012-10-17","Statement":[]}}}"#,
    );
    assert_eq!(policy, "{\n  \"Statement\": [],\n  \"Version\": \"2012-10-17\"\n}");
}

#[test]
fn assume_role_policy_needs_an_object_at_each_level() {
    assert_eq!(extract_assume_role_policy(r#"{"Role":[1,2]}"#), "");
    assert_eq!(extract_assume_role_policy(r#"[]"#), "");
    assert_eq!(extract_assume_role_policy(r#"{"Role":{"AssumeRolePolicyDocument":7}}"#), "7");
    assert_eq!(extract_assume_role_policy(r#"{"Role":{}} trailing"#), "");
}

#[test]
fn inline_policy_document_is_missing_without_the_member() {
    assert!(parse_inline_policy_document_response("not-json").is_none());
    assert!(parse_inline_policy_document_response(r#"{"Other":1}"#).is_none());
    assert_eq!(
        parse_inline_policy_document_response(r#"{"PolicyDocument":"x"}"#),
        Some("\"x\"".to_string())
    );
}

#[test]
fn role_detail_needs_both_name_and_arn() {
    assert!(assemble_role_detail(String::new(), "arn".to_string(), String::new(), vec![], vec![])
        .is_none());
    assert!(assemble_role_detail("n".to_string(), String::new(), String::new(), vec![], vec![])
        .is_none());
    let detail = assemble_role_detail(
        "n".to_string(),
        "arn".to_string(),
        "p".to_string(),
        vec![AttachedPolicy { name: "ReadOnlyAccess".to_string(), arn: "arn:x".to_string() }],
        vec![InlinePolicy { name: "i".to_string(), document: "{}".to_string() }],
    )
    .expect("detail");
    assert_eq!(detail.name, "n");
    assert_eq!(detail.arn, "arn");
    assert_eq!(detail.assume_role_policy, "p");
    assert_eq!(detail.attached_policies.len(), 1);
    assert_eq!(detail.attached_policies[0].name, "ReadOnlyAccess");
    assert_eq!(detail.inline_policies.len(), 1);
    assert_eq!(detail.inline_policies[0].document, "{}");
}

#[test]
fn role_detail_without_an_answer_is_missing() {
    assert!(get_iam_role_detail(None, vec![], vec![]).is_none());
    let payload = "{\n  \"Role\": {\n    \"RoleName\": \"r\",\n    \"Arn\": \"a\"\n  }\n}";
    let detail = get_iam_role_detail(Some(payload), vec![], vec![]).expect("detail");
    assert_eq!(detail.name, "r");
    assert_eq!(detail.arn, "a");
    assert_eq!(detail.assume_role_policy, "");
}

#[test]
fn text_or_empty_unwraps() {
    assert_eq!(text_or_empty(Some("x".to_string())), "x");
    assert_eq!(text_or_empty(None), "");
}

#[test]
fn policies_clone_equal() {
    let attached = AttachedPolicy { name: "a".to_string(), arn: "b".to_string() };
    let copy = attached.clone();
    assert_eq!(copy.name, "a");
    assert_eq!(copy.arn, "b");
    let inline = InlinePolicy { name: "c".to_string(), document: "d".to_string() };
    let copy = inline.clone();
    assert_eq!(copy.name, "c");
    assert_eq!(copy.document, "d");
}
