use emd::aws_cli::ecr::{format_created_at, mutability_label, EcrDetail};
use emd::i18n::Language;

fn sample_detail() -> EcrDetail {
    EcrDetail {
        name: "repo-a".to_string(),
        uri: "123456789012.dkr.ecr.ap-northeast-2.amazonaws.com/repo-a".to_string(),
        tag_mutability: "IMMUTABLE".to_string(),
        encryption_type: "AES256".to_string(),
        kms_key: None,
        created_at: "2026-02-13".to_string(),
        image_count: 3,
    }
}

#[test]
fn scenario_ecr_mutability_immutable_label() {
    assert_eq!(mutability_label("IMMUTABLE"), "Immutable");
}

#[test]
fn scenario_ecr_mutability_mutable_label() {
    assert_eq!(mutability_label("MUTABLE"), "Mutable");
}

#[test]
fn scenario_ecr_created_at_format() {
    let seconds = 1_706_284_800.0_f64 as i64;
    assert_eq!(format_created_at(Some(seconds)), "2024-01-26");
}

#[test]
fn scenario_ecr_created_at_fallback() {
    assert_eq!(format_created_at(None), "-");
}

#[test]
fn scenario_ecr_markdown_kms_key_render() {
    let mut detail = sample_detail();
    detail.encryption_type = "KMS".to_string();
    detail.kms_key = Some("arn:aws:kms:ap-northeast-2:123456789012:key/abcd".to_string());

    let markdown = detail.to_markdown(Language::Korean);
    assert!(markdown.contains("AWS KMS (arn:aws:kms:ap-northeast-2:123456789012:key/abcd)"));
}

#[test]
fn scenario_ecr_markdown_aes_render() {
    let detail = sample_detail();
    let markdown = detail.to_markdown(Language::English);
    assert!(markdown.contains("AES-256"));
}

#[test]
fn created_at_follows_the_calendar() {
    assert_eq!(format_created_at(Some(0)), "1970-01-01");
    assert_eq!(format_created_at(Some(86_399)), "1970-01-01");
    assert_eq!(format_created_at(Some(86_400)), "1970-01-02");
    assert_eq!(format_created_at(Some(-1)), "1969-12-31");
    assert_eq!(format_created_at(Some(951_782_400)), "2000-02-29");
}

#[test]
fn created_at_beyond_the_calendar_is_a_dash() {
    assert_eq!(format_created_at(Some(i64::MAX)), "-");
    assert_eq!(format_created_at(Some(i64::MIN)), "-");
}

#[test]
fn mutability_label_is_mutable_for_anything_else() {
    assert_eq!(mutability_label(""), "Mutable");
    assert_eq!(mutability_label("immutable"), "Mutable");
}

#[test]
fn ecr_markdown_is_exact_in_english() {
    let detail = sample_detail();
    let expected = "## ECR Repository (repo-a)\n\n\
| Item | Value |\n\
|:---|:---|\n\
| Name | repo-a |\n\
| URI | 123456789012.dkr.ecr.ap-northeast-2.amazonaws.com/repo-a |\n\
| Tag Mutability | IMMUTABLE |\n\
| Encryption | AES-256 |\n\
| Image Count | 3 |\n\
| Created At | 2026-02-13 |\n";
    assert_eq!(detail.to_markdown(Language::English), expected);
}

#[test]
fn ecr_markdown_kms_without_key() {
    let mut detail = sample_detail();
    detail.encryption_type = "KMS".to_string();
    let markdown = detail.to_markdown(Language::English);
    assert!(markdown.contains("| Encryption | AWS KMS |"));
}
