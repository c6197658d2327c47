//! Image repositories: their detail and its document section.

use vstd::prelude::*;
use vstd::string::*;
use crate::i18n::{I18n, Language};
use crate::text::{decimal, joined, or_dash, push_decimal, row2, row2_text, same_text, Lines};

verus! {

/// Everything the document shows of one image repository.
#[derive(Debug)]
pub struct EcrDetail {
    pub name: String,
    pub uri: String,
    pub tag_mutability: String,
    pub encryption_type: String,
    pub kms_key: Option<String>,
    pub created_at: String,
    pub image_count: i32,
}

/// How the tag mutability of a repository is shown.
pub fn mutability_label(tag_mutability: &str) -> (r: &'static str)
    ensures
        r@ == if tag_mutability@ == "IMMUTABLE"@ {
            "Immutable"@
        } else {
            "Mutable"@
        },
{
    if same_text(tag_mutability, "IMMUTABLE") {
        "Immutable"
    } else {
        "Mutable"
    }
}

/// The calendar date in UTC, as year, month and day joined by hyphens, of
/// the moment `secs` seconds after the start of 1970; `None` where the
/// calendar does not reach that far.
pub uninterp spec fn utc_date_text(secs: i64) -> Option<Seq<char>>;

/// `chrono::DateTime::from_timestamp` with no nanoseconds, and on the moment
/// it gives `DateTime::format` with the pattern `%Y-%m-%d`: the result is
/// the date named above, and there is none exactly where `from_timestamp`
/// finds the seconds out of range.
#[verifier::external_body]
fn utc_date(secs: i64) -> (r: Option<String>)
    ensures
        r matches Some(text) ==> utc_date_text(secs) == Some(text@),
        r is None ==> utc_date_text(secs) is None,
{
    match chrono::DateTime::from_timestamp(secs, 0) {
        Some(moment) => Some(moment.format("%Y-%m-%d").to_string()),
        None => None,
    }
}

/// The date on which a repository was created, or a dash.
pub open spec fn created_at_label(created_at: Option<i64>) -> Seq<char> {
    match created_at {
        Some(secs) => match utc_date_text(secs) {
            Some(date) => date,
            None => "-"@,
        },
        None => "-"@,
    }
}

/// Shows the creation time of a repository, given in seconds since the
/// start of 1970, as a date; a dash where the time is unknown or beyond
/// the calendar.
pub fn format_created_at(created_at: Option<i64>) -> (r: String)
    ensures
        r@ == created_at_label(created_at),
{
    match created_at {
        Some(secs) => or_dash(&utc_date(secs)),
        None => String::from_str("-"),
    }
}

impl EcrDetail {
    /// How the repository's encryption is shown: the key behind key-managed
    /// encryption where it is known, the cipher otherwise.
    pub open spec fn encryption_label(&self) -> Seq<char> {
        if self.encryption_type@ == "KMS"@ {
            match self.kms_key {
                Some(key) => "AWS KMS ("@ + key@ + ")"@,
                None => "AWS KMS"@,
            }
        } else {
            "AES-256"@
        }
    }

    /// The lines of the repository's section.
    pub open spec fn markdown_lines(&self, lang: Language) -> Seq<Seq<char>> {
        seq![
            "## "@ + lang.pick("ECR ë ˆí¬ì§€í† ë¦¬"@, "ECR Repository"@) + " ("@ + self.name@ + ")\n"@,
            row2(lang.pick("í•­ëª©"@, "Item"@), lang.pick("ê°’"@, "Value"@)),
            "|:---|:---|"@,
            row2(lang.pick("ì´ë¦„"@, "Name"@), self.name@),
            row2("URI"@, self.uri@),
            row2(lang.pick("íƒœê·¸ ë³€ê²½ ê°€ëŠ¥"@, "Tag Mutability"@), self.tag_mutability@),
            row2(lang.pick("ì•”í˜¸í™”"@, "Encryption"@), self.encryption_label()),
            row2(lang.pick("ì´ë¯¸ì§€ ìˆ˜"@, "Image Count"@), decimal(self.image_count as int)),
            row2(lang.pick("ìƒì„±ì¼"@, "Created At"@), self.created_at@),
        ]
    }

    /// The repository's section of the document in the given language.
    pub open spec fn markdown(&self, lang: Language) -> Seq<char> {
        joined(self.markdown_lines(lang), "\n"@) + "\n"@
    }

    fn encryption_text(&self) -> (r: String)
        ensures
            r@ == self.encryption_label(),
    {
        if same_text(self.encryption_type.as_str(), "KMS") {
            match &self.kms_key {
                Some(key) => {
                    let mut out = String::from_str("AWS KMS (");
                    out.append(key.as_str());
                    out.append(")");
                    out
                },
                None => String::from_str("AWS KMS"),
            }
        } else {
            String::from_str("AES-256")
        }
    }

    /// Renders the repository's section of the document in the given
    /// language.
    pub fn to_markdown(&self, lang: Language) -> (r: String)
        ensures
            r@ == self.markdown(lang),
    {
        let i18n = I18n::new(lang);
        let mut lines = Lines::new();
        let mut title = String::from_str("## ");
        title.append(i18n.md_ecr_repository());
        title.append(" (");
        title.append(self.name.as_str());
        title.append(")\n");
        lines.push(title);
        lines.push(row2_text(i18n.item(), i18n.value()));
        lines.push_str("|:---|:---|");
        lines.push(row2_text(i18n.md_name(), self.name.as_str()));
        lines.push(row2_text("URI", self.uri.as_str()));
        lines.push(row2_text(i18n.md_tag_mutability(), self.tag_mutability.as_str()));
        lines.push(row2_text(i18n.md_encryption(), self.encryption_text().as_str()));
        let mut count = String::new();
        push_decimal(&mut count, self.image_count as i64);
        assert(count@ =~= decimal(self.image_count as int));
        lines.push(row2_text(i18n.md_image_count(), count.as_str()));
        lines.push(row2_text(i18n.md_created_at(), self.created_at.as_str()));
        assert(lines@ =~= self.markdown_lines(lang));
        let mut out = lines.join("\n");
        out.append("\n");
        out
    }
}

} // verus!
