//! Interface labels and messages in the two supported languages.

use vstd::prelude::*;
use vstd::string::*;
use crate::text::{decimal, numeral, push_decimal, push_numeral};

verus! {

/// The language of the interface.
#[derive(Debug, Clone, Copy, PartialEq, Eq, Structural)]
pub enum Language {
    Korean,
    English,
}

impl Default for Language {
    fn default() -> (r: Language)
        ensures
            r == Language::English,
    {
        Language::English
    }
}

impl Language {
    /// One of two texts, by language.
    pub open spec fn pick(self, korean: Seq<char>, english: Seq<char>) -> Seq<char> {
        match self {
            Language::Korean => korean,
            Language::English => english,
        }
    }

    /// The other language.
    pub open spec fn other(self) -> Language {
        match self {
            Language::Korean => Language::English,
            Language::English => Language::Korean,
        }
    }

    /// The language's own name.
    pub fn display(&self) -> (r: &'static str)
        ensures
            r@ == self.pick("í•œêµ­ì–´"@, "English"@),
    {
        match self {
            Language::Korean => "í•œêµ­ì–´",
            Language::English => "English",
        }
    }

    /// Switches between the two languages.
    pub fn toggle(&self) -> (r: Language)
        ensures
            r == self.other(),
    {
        match self {
            Language::Korean => Language::English,
            Language::English => Language::Korean,
        }
    }
}

/// The message that the detail of the network `vpc_id` could not be
/// fetched.
pub open spec fn network_unavailable_text(lang: Language, vpc_id: Seq<char>) -> Seq<char> {
    lang.pick(
        vpc_id + " ë„¤íŠ¸ì›Œí¬ ìƒì„¸ ì •ë³´ë¥¼ ë¶ˆëŸ¬ì˜¬ ìˆ˜ ì—†ìŠµë‹ˆë‹¤. ë¡œê·¸ì¸ ìƒíƒœë¥¼ í™•ì¸í•˜ì„¸ìš”."@,
        "Network detail unavailable for "@ + vpc_id + ". Please check AWS login status."@,
    )
}

/// Looks up labels for one language.
pub struct I18n {
    pub lang: Language,
}

impl I18n {
    pub fn new(lang: Language) -> (r: I18n)
        ensures
            r.lang == lang,
    {
        I18n { lang }
    }

    // Common UI

    pub fn exit(&self) -> (r: &'static str)
        ensures
            r@ == self.lang.pick("ì¢…ë£Œ"@, "Exit"@),
    {
        match self.lang {
            Language::Korean => "ì¢…ë£Œ",
            Language::English => "Exit",
        }
    }

    pub fn settings(&self) -> (r: &'static str)
        ensures
            r@ == self.lang.pick("ì„¤ì •"@, "Settings"@),
    {
        match self.lang {
            Language::Korean => "ì„¤ì •",
            Language::English => "Settings",
        }
    }

    pub fn main_tab(&self) -> (r: &'static str)
        ensures
            r@ == self.lang.pick("ë©”ì¸"@, "Main"@),
    {
        match self.lang {
            Language::Korean => "ë©”ì¸",
            Language::English => "Main",
        }
    }

    pub fn back(&self) -> (r: &'static str)
        ensures
            r@ == self.lang.pick("ë’¤ë¡œ"@, "Back"@),
    {
        match self.lang {
            Language::Korean => "ë’¤ë¡œ",
            Language::English => "Back",
        }
    }

    pub fn select(&self) -> (r: &'static str)
        ensures
            r@ == self.lang.pick("ì„ íƒ"@, "Select"@),
    {
        match self.lang {
            Language::Korean => "ì„ íƒ",
            Language::English => "Select",
        }
    }

    pub fn move_cursor(&self) -> (r: &'static str)
        ensures
            r@ == self.lang.pick("ì´ë™"@, "Move"@),
    {
        match self.lang {
            Language::Korean => "ì´ë™",
            Language::English => "Move",
        }
    }

    pub fn refresh(&self) -> (r: &'static str)
        ensures
            r@ == self.lang.pick("ìƒˆë¡œê³ ì¹¨"@, "Refresh"@),
    {
        match self.lang {
            Language::Korean => "ìƒˆë¡œê³ ì¹¨",
            Language::English => "Refresh",
        }
    }

    pub fn save(&self) -> (r: &'static str)
        ensures
            r@ == self.lang.pick("ì €ìž¥"@, "Save"@),
    {
        match self.lang {
            Language::Korean => "ì €ìž¥",
            Language::English => "Save",
        }
    }

    pub fn delete(&self) -> (r: &'static str)
        ensures
            r@ == self.lang.pick("ì‚­ì œ"@, "Delete"@),
    {
        match self.lang {
            Language::Korean => "ì‚­ì œ",
            Language::English => "Delete",
        }
    }

    pub fn add(&self) -> (r: &'static str)
        ensures
            r@ == self.lang.pick("ì¶”ê°€"@, "Add"@),
    {
        match self.lang {
            Language::Korean => "ì¶”ê°€",
            Language::English => "Add",
        }
    }

    pub fn cancel(&self) -> (r: &'static str)
        ensures
            r@ == self.lang.pick("ì·¨ì†Œ"@, "Cancel"@),
    {
        match self.lang {
            Language::Korean => "ì·¨ì†Œ",
            Language::English => "Cancel",
        }
    }

    pub fn confirm(&self) -> (r: &'static str)
        ensures
            r@ == self.lang.pick("í™•ì¸"@, "Confirm"@),
    {
        match self.lang {
            Language::Korean => "í™•ì¸",
            Language::English => "Confirm",
        }
    }

    pub fn scroll(&self) -> (r: &'static str)
        ensures
            r@ == self.lang.pick("ìŠ¤í¬ë¡¤"@, "Scroll"@),
    {
        match self.lang {
            Language::Korean => "ìŠ¤í¬ë¡¤",
            Language::English => "Scroll",
        }
    }

    pub fn page(&self) -> (r: &'static str)
        ensures
            r@ == self.lang.pick("íŽ˜ì´ì§€"@, "Page"@),
    {
        match self.lang {
            Language::Korean => "íŽ˜ì´ì§€",
            Language::English => "Page",
        }
    }

    pub fn generate(&self) -> (r: &'static str)
        ensures
            r@ == self.lang.pick("ìƒì„±"@, "Generate"@),
    {
        match self.lang {
            Language::Korean => "ìƒì„±",
            Language::English => "Generate",
        }
    }

    pub fn reorder(&self) -> (r: &'static str)
        ensures
            r@ == self.lang.pick("ìˆœì„œë³€ê²½"@, "Reorder"@),
    {
        match self.lang {
            Language::Korean => "ìˆœì„œë³€ê²½",
            Language::English => "Reorder",
        }
    }

    pub fn single_mode(&self) -> (r: &'static str)
        ensures
            r@ == self.lang.pick("ë‹¨ì¼ ëª¨ë“œ"@, "Single Mode"@),
    {
        match self.lang {
            Language::Korean => "ë‹¨ì¼ ëª¨ë“œ",
            Language::English => "Single Mode",
        }
    }

    pub fn add_to_blueprint(&self) -> (r: &'static str)
        ensures
            r@ == self.lang.pick("ë¸”ë£¨í”„ë¦°í„°ì— ì¶”ê°€"@, "Add to Blueprint"@),
    {
        match self.lang {
            Language::Korean => "ë¸”ë£¨í”„ë¦°í„°ì— ì¶”ê°€",
            Language::English => "Add to Blueprint",
        }
    }

    pub fn markdown_generate(&self) -> (r: &'static str)
        ensures
            r@ == self.lang.pick("ë§ˆí¬ë‹¤ìš´ ìƒì„±"@, "Generate Markdown"@),
    {
        match self.lang {
            Language::Korean => "ë§ˆí¬ë‹¤ìš´ ìƒì„±",
            Language::English => "Generate Markdown",
        }
    }

    // Screen titles

    pub fn login(&self) -> (r: &'static str)
        ensures
            r@ == self.lang.pick("ë¡œê·¸ì¸"@, "Login"@),
    {
        match self.lang {
            Language::Korean => "ë¡œê·¸ì¸",
            Language::English => "Login",
        }
    }

    pub fn region(&self) -> (r: &'static str)
        ensures
            r@ == self.lang.pick("ë¦¬ì „"@, "Region"@),
    {
        match self.lang {
            Language::Korean => "ë¦¬ì „",
            Language::English => "Region",
        }
    }

    pub fn service(&self) -> (r: &'static str)
        ensures
            r@ == self.lang.pick("ì„œë¹„ìŠ¤"@, "Service"@),
    {
        match self.lang {
            Language::Korean => "ì„œë¹„ìŠ¤",
            Language::English => "Service",
        }
    }

    pub fn ec2(&self) -> (r: &'static str)
        ensures
            r@ == "EC2"@,
    {
        "EC2"
    }

    pub fn network(&self) -> (r: &'static str)
        ensures
            r@ == self.lang.pick("Network"@, "Network"@),
    {
        match self.lang {
            Language::Korean => "Network",
            Language::English => "Network",
        }
    }

    pub fn security_group(&self) -> (r: &'static str)
        ensures
            r@ == self.lang.pick("Security Group"@, "Security Group"@),
    {
        match self.lang {
            Language::Korean => "Security Group",
            Language::English => "Security Group",
        }
    }

    pub fn load_balancer(&self) -> (r: &'static str)
        ensures
            r@ == self.lang.pick("Load Balancer"@, "Load Balancer"@),
    {
        match self.lang {
            Language::Korean => "Load Balancer",
            Language::English => "Load Balancer",
        }
    }

    pub fn blueprint(&self) -> (r: &'static str)
        ensures
            r@ == self.lang.pick("ë¸”ë£¨í”„ë¦°í„°"@, "Blueprint"@),
    {
        match self.lang {
            Language::Korean => "ë¸”ë£¨í”„ë¦°í„°",
            Language::English => "Blueprint",
        }
    }

    pub fn preview(&self) -> (r: &'static str)
        ensures
            r@ == self.lang.pick("ë¯¸ë¦¬ë³´ê¸°"@, "Preview"@),
    {
        match self.lang {
            Language::Korean => "ë¯¸ë¦¬ë³´ê¸°",
            Language::English => "Preview",
        }
    }

    pub fn loading(&self) -> (r: &'static str)
        ensures
            r@ == self.lang.pick("ë¡œë”©"@, "Loading"@),
    {
        match self.lang {
            Language::Korean => "ë¡œë”©",
            Language::English => "Loading",
        }
    }

    // Messages

    pub fn loading_msg(&self) -> (r: &'static str)
        ensures
            r@ == self.lang.pick("ë¡œë”© ì¤‘..."@, "Loading..."@),
    {
        match self.lang {
            Language::Korean => "ë¡œë”© ì¤‘...",
            Language::English => "Loading...",
        }
    }

    pub fn aws_cli_waiting(&self) -> (r: &'static str)
        ensures
            r@ == self.lang.pick("AWS CLI ì‘ë‹µ ëŒ€ê¸° ì¤‘ìž…ë‹ˆë‹¤."@, "Waiting for AWS CLI response."@),
    {
        match self.lang {
            Language::Korean => "AWS CLI ì‘ë‹µ ëŒ€ê¸° ì¤‘ìž…ë‹ˆë‹¤.",
            Language::English => "Waiting for AWS CLI response.",
        }
    }

    pub fn refresh_complete(&self) -> (r: &'static str)
        ensures
            r@ == self.lang.pick("ìƒˆë¡œê³ ì¹¨ ì™„ë£Œ"@, "Refresh complete"@),
    {
        match self.lang {
            Language::Korean => "ìƒˆë¡œê³ ì¹¨ ì™„ë£Œ",
            Language::English => "Refresh complete",
        }
    }

    pub fn save_complete(&self) -> (r: &'static str)
        ensures
            r@ == self.lang.pick("ì €ìž¥ ì™„ë£Œ"@, "Save complete"@),
    {
        match self.lang {
            Language::Korean => "ì €ìž¥ ì™„ë£Œ",
            Language::English => "Save complete",
        }
    }

    pub fn resource_added(&self) -> (r: &'static str)
        ensures
            r@ == self.lang.pick("ë¦¬ì†ŒìŠ¤ ì¶”ê°€ ì™„ë£Œ"@, "Resource added"@),
    {
        match self.lang {
            Language::Korean => "ë¦¬ì†ŒìŠ¤ ì¶”ê°€ ì™„ë£Œ",
            Language::English => "Resource added",
        }
    }

    pub fn resource_deleted(&self) -> (r: &'static str)
        ensures
            r@ == self.lang.pick("ë¦¬ì†ŒìŠ¤ ì‚­ì œ ì™„ë£Œ"@, "Resource deleted"@),
    {
        match self.lang {
            Language::Korean => "ë¦¬ì†ŒìŠ¤ ì‚­ì œ ì™„ë£Œ",
            Language::English => "Resource deleted",
        }
    }

    pub fn blueprint_saved(&self) -> (r: &'static str)
        ensures
            r@ == self.lang.pick("ë¸”ë£¨í”„ë¦°í„° ì €ìž¥ ì™„ë£Œ"@, "Blueprint saved"@),
    {
        match self.lang {
            Language::Korean => "ë¸”ë£¨í”„ë¦°í„° ì €ìž¥ ì™„ë£Œ",
            Language::English => "Blueprint saved",
        }
    }

    pub fn blueprint_deleted(&self) -> (r: &'static str)
        ensures
            r@ == self.lang.pick("ë¸”ë£¨í”„ë¦°í„° ì‚­ì œ ì™„ë£Œ"@, "Blueprint deleted"@),
    {
        match self.lang {
            Language::Korean => "ë¸”ë£¨í”„ë¦°í„° ì‚­ì œ ì™„ë£Œ",
            Language::English => "Blueprint deleted",
        }
    }

    pub fn no_resources(&self) -> (r: &'static str)
        ensures
            r@ == self.lang.pick("ë¦¬ì†ŒìŠ¤ê°€ ì—†ìŠµë‹ˆë‹¤"@, "No resources"@),
    {
        match self.lang {
            Language::Korean => "ë¦¬ì†ŒìŠ¤ê°€ ì—†ìŠµë‹ˆë‹¤",
            Language::English => "No resources",
        }
    }

    pub fn no_instances(&self) -> (r: &'static str)
        ensures
            r@ == self.lang.pick("ì¸ìŠ¤í„´ìŠ¤ê°€ ì—†ìŠµë‹ˆë‹¤."@, "No instances found."@),
    {
        match self.lang {
            Language::Korean => "ì¸ìŠ¤í„´ìŠ¤ê°€ ì—†ìŠµë‹ˆë‹¤.",
            Language::English => "No instances found.",
        }
    }

    pub fn no_vpcs(&self) -> (r: &'static str)
        ensures
            r@ == self.lang.pick("Networkê°€ ì—†ìŠµë‹ˆë‹¤."@, "No networks found."@),
    {
        match self.lang {
            Language::Korean => "Networkê°€ ì—†ìŠµë‹ˆë‹¤.",
            Language::English => "No networks found.",
        }
    }

    pub fn no_security_groups(&self) -> (r: &'static str)
        ensures
            r@ == self.lang.pick("Security Groupì´ ì—†ìŠµë‹ˆë‹¤."@, "No security groups found."@),
    {
        match self.lang {
            Language::Korean => "Security Groupì´ ì—†ìŠµë‹ˆë‹¤.",
            Language::English => "No security groups found.",
        }
    }

    pub fn no_load_balancers(&self) -> (r: &'static str)
        ensures
            r@ == self.lang.pick("Load Balancerê°€ ì—†ìŠµë‹ˆë‹¤."@, "No load balancers found."@),
    {
        match self.lang {
            Language::Korean => "Load Balancerê°€ ì—†ìŠµë‹ˆë‹¤.",
            Language::English => "No load balancers found.",
        }
    }

    pub fn no_ecr_repos(&self) -> (r: &'static str)
        ensures
            r@ == self.lang.pick("ECR ë ˆí¬ì§€í† ë¦¬ê°€ ì—†ìŠµë‹ˆë‹¤."@, "No ECR repositories found."@),
    {
        match self.lang {
            Language::Korean => "ECR ë ˆí¬ì§€í† ë¦¬ê°€ ì—†ìŠµë‹ˆë‹¤.",
            Language::English => "No ECR repositories found.",
        }
    }

    // Login messages

    pub fn aws_login_verified(&self) -> (r: &'static str)
        ensures
            r@ == self.lang.pick("âœ“ AWS ë¡œê·¸ì¸ í™•ì¸ë¨"@, "âœ“ AWS login verified"@),
    {
        match self.lang {
            Language::Korean => "âœ“ AWS ë¡œê·¸ì¸ í™•ì¸ë¨",
            Language::English => "âœ“ AWS login verified",
        }
    }

    pub fn aws_login_required(&self) -> (r: &'static str)
        ensures
            r@ == self.lang.pick("âœ— AWS ë¡œê·¸ì¸ í•„ìš”"@, "âœ— AWS login required"@),
    {
        match self.lang {
            Language::Korean => "âœ— AWS ë¡œê·¸ì¸ í•„ìš”",
            Language::English => "âœ— AWS login required",
        }
    }

    pub fn aws_login_checking(&self) -> (r: &'static str)
        ensures
            r@ == self.lang.pick("AWS CLI ë¡œê·¸ì¸ í™•ì¸ ì¤‘..."@, "Checking AWS CLI login..."@),
    {
        match self.lang {
            Language::Korean => "AWS CLI ë¡œê·¸ì¸ í™•ì¸ ì¤‘...",
            Language::English => "Checking AWS CLI login...",
        }
    }

    pub fn aws_configure_hint(&self) -> (r: &'static str)
        ensures
            r@ == self.lang.pick("aws configure ë˜ëŠ” aws sso loginì„ ì‹¤í–‰í•˜ì„¸ìš”."@, "Run 'aws configure' or 'aws sso login'."@),
    {
        match self.lang {
            Language::Korean => "aws configure ë˜ëŠ” aws sso loginì„ ì‹¤í–‰í•˜ì„¸ìš”.",
            Language::English => "Run 'aws configure' or 'aws sso login'.",
        }
    }

    pub fn aws_login_retry_hint(&self) -> (r: &'static str)
        ensures
            r@ == self.lang.pick("ìžê²© ì¦ëª…ì„ í™•ì¸í•˜ê³  ë‹¤ì‹œ ì‹œë„í•˜ì„¸ìš”."@, "Check your credentials and try again."@),
    {
        match self.lang {
            Language::Korean => "ìžê²© ì¦ëª…ì„ í™•ì¸í•˜ê³  ë‹¤ì‹œ ì‹œë„í•˜ì„¸ìš”.",
            Language::English => "Check your credentials and try again.",
        }
    }

    pub fn profile_select_prompt(&self) -> (r: &'static str)
        ensures
            r@ == self.lang.pick("í”„ë¡œíŒŒì¼ì„ ì„ íƒí•˜ì„¸ìš”:"@, "Select AWS profile:"@),
    {
        match self.lang {
            Language::Korean => "í”„ë¡œíŒŒì¼ì„ ì„ íƒí•˜ì„¸ìš”:",
            Language::English => "Select AWS profile:",
        }
    }

    pub fn profile_not_found(&self) -> (r: &'static str)
        ensures
            r@ == self.lang.pick("ì‚¬ìš© ê°€ëŠ¥í•œ AWS í”„ë¡œíŒŒì¼ì´ ì—†ìŠµë‹ˆë‹¤."@, "No AWS profiles are available."@),
    {
        match self.lang {
            Language::Korean => "ì‚¬ìš© ê°€ëŠ¥í•œ AWS í”„ë¡œíŒŒì¼ì´ ì—†ìŠµë‹ˆë‹¤.",
            Language::English => "No AWS profiles are available.",
        }
    }

    pub fn profile_refresh_hint(&self) -> (r: &'static str)
        ensures
            r@ == self.lang.pick("aws configure ë˜ëŠ” aws sso login ì‹¤í–‰ í›„ r ë¡œ ìƒˆë¡œê³ ì¹¨í•˜ì„¸ìš”."@, "Run aws configure or aws sso login, then press r to refresh."@),
    {
        match self.lang {
            Language::Korean => "aws configure ë˜ëŠ” aws sso login ì‹¤í–‰ í›„ r ë¡œ ìƒˆë¡œê³ ì¹¨í•˜ì„¸ìš”.",
            Language::English => "Run aws configure or aws sso login, then press r to refresh.",
        }
    }

    pub fn auth_provider_missing(&self) -> (r: &'static str)
        ensures
            r@ == self.lang.pick("AWS ë¡œê·¸ì¸ í•„ìš”: ìžê²© ì¦ëª… ê³µê¸‰ìžë¥¼ ì°¾ì„ ìˆ˜ ì—†ìŠµë‹ˆë‹¤."@, "AWS login required: credential provider not found."@),
    {
        match self.lang {
            Language::Korean => "AWS ë¡œê·¸ì¸ í•„ìš”: ìžê²© ì¦ëª… ê³µê¸‰ìžë¥¼ ì°¾ì„ ìˆ˜ ì—†ìŠµë‹ˆë‹¤.",
            Language::English => "AWS login required: credential provider not found.",
        }
    }

    pub fn auth_credentials_load_failed(&self) -> (r: &'static str)
        ensures
            r@ == self.lang.pick("AWS ë¡œê·¸ì¸ í•„ìš”: ìžê²© ì¦ëª… ë¡œë“œì— ì‹¤íŒ¨í–ˆìŠµë‹ˆë‹¤."@, "AWS login required: failed to load credentials."@),
    {
        match self.lang {
            Language::Korean => "AWS ë¡œê·¸ì¸ í•„ìš”: ìžê²© ì¦ëª… ë¡œë“œì— ì‹¤íŒ¨í–ˆìŠµë‹ˆë‹¤.",
            Language::English => "AWS login required: failed to load credentials.",
        }
    }

    pub fn auth_caller_identity_failed(&self) -> (r: &'static str)
        ensures
            r@ == self.lang.pick("AWS ë¡œê·¸ì¸ í•„ìš”: í˜¸ì¶œìž ì •ë³´ ì¡°íšŒì— ì‹¤íŒ¨í–ˆìŠµë‹ˆë‹¤."@, "AWS login required: failed to fetch caller identity."@),
    {
        match self.lang {
            Language::Korean => "AWS ë¡œê·¸ì¸ í•„ìš”: í˜¸ì¶œìž ì •ë³´ ì¡°íšŒì— ì‹¤íŒ¨í–ˆìŠµë‹ˆë‹¤.",
            Language::English => "AWS login required: failed to fetch caller identity.",
        }
    }

    pub fn auth_network_error(&self) -> (r: &'static str)
        ensures
            r@ == self.lang.pick("AWS ìžê²© ì¦ëª… í™•ì¸ ì‹¤íŒ¨: ë„¤íŠ¸ì›Œí¬ ì—°ê²°ì„ í™•ì¸í•˜ì„¸ìš”."@, "AWS credential check failed: please verify network connectivity."@),
    {
        match self.lang {
            Language::Korean => "AWS ìžê²© ì¦ëª… í™•ì¸ ì‹¤íŒ¨: ë„¤íŠ¸ì›Œí¬ ì—°ê²°ì„ í™•ì¸í•˜ì„¸ìš”.",
            Language::English => "AWS credential check failed: please verify network connectivity.",
        }
    }

    pub fn auth_unknown_error(&self) -> (r: &'static str)
        ensures
            r@ == self.lang.pick("AWS ìžê²© ì¦ëª… í™•ì¸ ì‹¤íŒ¨: ì•Œ ìˆ˜ ì—†ëŠ” ì˜¤ë¥˜ê°€ ë°œìƒí–ˆìŠµë‹ˆë‹¤."@, "AWS credential check failed: unknown error occurred."@),
    {
        match self.lang {
            Language::Korean => "AWS ìžê²© ì¦ëª… í™•ì¸ ì‹¤íŒ¨: ì•Œ ìˆ˜ ì—†ëŠ” ì˜¤ë¥˜ê°€ ë°œìƒí–ˆìŠµë‹ˆë‹¤.",
            Language::English => "AWS credential check failed: unknown error occurred.",
        }
    }

    // Loading tasks

    pub fn processing(&self) -> (r: &'static str)
        ensures
            r@ == self.lang.pick("ì²˜ë¦¬ ì¤‘"@, "Processing"@),
    {
        match self.lang {
            Language::Korean => "ì²˜ë¦¬ ì¤‘",
            Language::English => "Processing",
        }
    }

    pub fn refreshing_ec2_list(&self) -> (r: &'static str)
        ensures
            r@ == self.lang.pick("EC2 ëª©ë¡ ìƒˆë¡œê³ ì¹¨ ì¤‘"@, "Refreshing EC2 list"@),
    {
        match self.lang {
            Language::Korean => "EC2 ëª©ë¡ ìƒˆë¡œê³ ì¹¨ ì¤‘",
            Language::English => "Refreshing EC2 list",
        }
    }

    pub fn refreshing_vpc_list(&self) -> (r: &'static str)
        ensures
            r@ == self.lang.pick("Network ëª©ë¡ ìƒˆë¡œê³ ì¹¨ ì¤‘"@, "Refreshing Network list"@),
    {
        match self.lang {
            Language::Korean => "Network ëª©ë¡ ìƒˆë¡œê³ ì¹¨ ì¤‘",
            Language::English => "Refreshing Network list",
        }
    }

    pub fn refreshing_sg_list(&self) -> (r: &'static str)
        ensures
            r@ == self.lang.pick("Security Group ëª©ë¡ ìƒˆë¡œê³ ì¹¨ ì¤‘"@, "Refreshing Security Group list"@),
    {
        match self.lang {
            Language::Korean => "Security Group ëª©ë¡ ìƒˆë¡œê³ ì¹¨ ì¤‘",
            Language::English => "Refreshing Security Group list",
        }
    }

    pub fn refreshing_preview(&self) -> (r: &'static str)
        ensures
            r@ == self.lang.pick("ë¯¸ë¦¬ë³´ê¸° ìƒˆë¡œê³ ì¹¨ ì¤‘"@, "Refreshing preview"@),
    {
        match self.lang {
            Language::Korean => "ë¯¸ë¦¬ë³´ê¸° ìƒˆë¡œê³ ì¹¨ ì¤‘",
            Language::English => "Refreshing preview",
        }
    }

    pub fn loading_ec2_list(&self) -> (r: &'static str)
        ensures
            r@ == self.lang.pick("EC2 ì¸ìŠ¤í„´ìŠ¤ ëª©ë¡ ì¡°íšŒ ì¤‘"@, "Loading EC2 instances"@),
    {
        match self.lang {
            Language::Korean => "EC2 ì¸ìŠ¤í„´ìŠ¤ ëª©ë¡ ì¡°íšŒ ì¤‘",
            Language::English => "Loading EC2 instances",
        }
    }

    pub fn loading_vpc_list(&self) -> (r: &'static str)
        ensures
            r@ == self.lang.pick("Network(VPC) ëª©ë¡ ì¡°íšŒ ì¤‘"@, "Loading Networks (VPC)"@),
    {
        match self.lang {
            Language::Korean => "Network(VPC) ëª©ë¡ ì¡°íšŒ ì¤‘",
            Language::English => "Loading Networks (VPC)",
        }
    }

    pub fn loading_sg_list(&self) -> (r: &'static str)
        ensures
            r@ == self.lang.pick("Security Group ëª©ë¡ ì¡°íšŒ ì¤‘"@, "Loading Security Groups"@),
    {
        match self.lang {
            Language::Korean => "Security Group ëª©ë¡ ì¡°íšŒ ì¤‘",
            Language::English => "Loading Security Groups",
        }
    }

    pub fn loading_ec2_detail(&self) -> (r: &'static str)
        ensures
            r@ == self.lang.pick("EC2 ìƒì„¸ ì •ë³´ ì¡°íšŒ ì¤‘"@, "Loading EC2 details"@),
    {
        match self.lang {
            Language::Korean => "EC2 ìƒì„¸ ì •ë³´ ì¡°íšŒ ì¤‘",
            Language::English => "Loading EC2 details",
        }
    }

    pub fn loading_vpc_detail(&self) -> (r: &'static str)
        ensures
            r@ == self.lang.pick("Network ìƒì„¸ ì •ë³´ ì¡°íšŒ ì¤‘"@, "Loading Network details"@),
    {
        match self.lang {
            Language::Korean => "Network ìƒì„¸ ì •ë³´ ì¡°íšŒ ì¤‘",
            Language::English => "Loading Network details",
        }
    }

    pub fn loading_sg_detail(&self) -> (r: &'static str)
        ensures
            r@ == self.lang.pick("Security Group ìƒì„¸ ì •ë³´ ì¡°íšŒ ì¤‘"@, "Loading Security Group details"@),
    {
        match self.lang {
            Language::Korean => "Security Group ìƒì„¸ ì •ë³´ ì¡°íšŒ ì¤‘",
            Language::English => "Loading Security Group details",
        }
    }

    pub fn refreshing_lb_list(&self) -> (r: &'static str)
        ensures
            r@ == self.lang.pick("Load Balancer ëª©ë¡ ìƒˆë¡œê³ ì¹¨ ì¤‘"@, "Refreshing Load Balancer list"@),
    {
        match self.lang {
            Language::Korean => "Load Balancer ëª©ë¡ ìƒˆë¡œê³ ì¹¨ ì¤‘",
            Language::English => "Refreshing Load Balancer list",
        }
    }

    pub fn loading_lb_list(&self) -> (r: &'static str)
        ensures
            r@ == self.lang.pick("Load Balancer ëª©ë¡ ì¡°íšŒ ì¤‘"@, "Loading Load Balancers"@),
    {
        match self.lang {
            Language::Korean => "Load Balancer ëª©ë¡ ì¡°íšŒ ì¤‘",
            Language::English => "Loading Load Balancers",
        }
    }

    pub fn loading_lb_detail(&self) -> (r: &'static str)
        ensures
            r@ == self.lang.pick("Load Balancer ìƒì„¸ ì •ë³´ ì¡°íšŒ ì¤‘"@, "Loading Load Balancer details"@),
    {
        match self.lang {
            Language::Korean => "Load Balancer ìƒì„¸ ì •ë³´ ì¡°íšŒ ì¤‘",
            Language::English => "Loading Load Balancer details",
        }
    }

    pub fn refreshing_ecr_list(&self) -> (r: &'static str)
        ensures
            r@ == self.lang.pick("ECR ëª©ë¡ ìƒˆë¡œê³ ì¹¨ ì¤‘"@, "Refreshing ECR list"@),
    {
        match self.lang {
            Language::Korean => "ECR ëª©ë¡ ìƒˆë¡œê³ ì¹¨ ì¤‘",
            Language::English => "Refreshing ECR list",
        }
    }

    pub fn loading_ecr_list(&self) -> (r: &'static str)
        ensures
            r@ == self.lang.pick("ECR ë ˆí¬ì§€í† ë¦¬ ëª©ë¡ ì¡°íšŒ ì¤‘"@, "Loading ECR repositories"@),
    {
        match self.lang {
            Language::Korean => "ECR ë ˆí¬ì§€í† ë¦¬ ëª©ë¡ ì¡°íšŒ ì¤‘",
            Language::English => "Loading ECR repositories",
        }
    }

    pub fn loading_ecr_detail(&self) -> (r: &'static str)
        ensures
            r@ == self.lang.pick("ECR ìƒì„¸ ì •ë³´ ì¡°íšŒ ì¤‘"@, "Loading ECR details"@),
    {
        match self.lang {
            Language::Korean => "ECR ìƒì„¸ ì •ë³´ ì¡°íšŒ ì¤‘",
            Language::English => "Loading ECR details",
        }
    }

    pub fn loading_asg_list(&self) -> (r: &'static str)
        ensures
            r@ == self.lang.pick("Auto Scaling Group ëª©ë¡ ì¡°íšŒ ì¤‘"@, "Loading Auto Scaling Groups"@),
    {
        match self.lang {
            Language::Korean => "Auto Scaling Group ëª©ë¡ ì¡°íšŒ ì¤‘",
            Language::English => "Loading Auto Scaling Groups",
        }
    }

    pub fn loading_asg_detail(&self) -> (r: &'static str)
        ensures
            r@ == self.lang.pick("Auto Scaling Group ìƒì„¸ ì •ë³´ ì¡°íšŒ ì¤‘"@, "Loading Auto Scaling Group details"@),
    {
        match self.lang {
            Language::Korean => "Auto Scaling Group ìƒì„¸ ì •ë³´ ì¡°íšŒ ì¤‘",
            Language::English => "Loading Auto Scaling Group details",
        }
    }

    pub fn no_asgs(&self) -> (r: &'static str)
        ensures
            r@ == self.lang.pick("Auto Scaling Groupì´ ì—†ìŠµë‹ˆë‹¤."@, "No Auto Scaling Groups found."@),
    {
        match self.lang {
            Language::Korean => "Auto Scaling Groupì´ ì—†ìŠµë‹ˆë‹¤.",
            Language::English => "No Auto Scaling Groups found.",
        }
    }

    pub fn auto_scaling_group(&self) -> (r: &'static str)
        ensures
            r@ == self.lang.pick("Auto Scaling Group"@, "Auto Scaling Group"@),
    {
        match self.lang {
            Language::Korean => "Auto Scaling Group",
            Language::English => "Auto Scaling Group",
        }
    }

    pub fn asg_launch_template(&self) -> (r: &'static str)
        ensures
            r@ == self.lang.pick("ì‹œìž‘ í…œí”Œë¦¿"@, "Launch Template"@),
    {
        match self.lang {
            Language::Korean => "ì‹œìž‘ í…œí”Œë¦¿",
            Language::English => "Launch Template",
        }
    }

    pub fn asg_launch_configuration(&self) -> (r: &'static str)
        ensures
            r@ == self.lang.pick("ì‹œìž‘ êµ¬ì„±"@, "Launch Configuration"@),
    {
        match self.lang {
            Language::Korean => "ì‹œìž‘ êµ¬ì„±",
            Language::English => "Launch Configuration",
        }
    }

    pub fn asg_min_size(&self) -> (r: &'static str)
        ensures
            r@ == self.lang.pick("ìµœì†Œ í¬ê¸°"@, "Min Size"@),
    {
        match self.lang {
            Language::Korean => "ìµœì†Œ í¬ê¸°",
            Language::English => "Min Size",
        }
    }

    pub fn asg_max_size(&self) -> (r: &'static str)
        ensures
            r@ == self.lang.pick("ìµœëŒ€ í¬ê¸°"@, "Max Size"@),
    {
        match self.lang {
            Language::Korean => "ìµœëŒ€ í¬ê¸°",
            Language::English => "Max Size",
        }
    }

    pub fn asg_desired_capacity(&self) -> (r: &'static str)
        ensures
            r@ == self.lang.pick("ì›í•˜ëŠ” ìš©ëŸ‰"@, "Desired Capacity"@),
    {
        match self.lang {
            Language::Korean => "ì›í•˜ëŠ” ìš©ëŸ‰",
            Language::English => "Desired Capacity",
        }
    }

    pub fn asg_default_cooldown(&self) -> (r: &'static str)
        ensures
            r@ == self.lang.pick("ê¸°ë³¸ ì¿¨ë‹¤ìš´"@, "Default Cooldown"@),
    {
        match self.lang {
            Language::Korean => "ê¸°ë³¸ ì¿¨ë‹¤ìš´",
            Language::English => "Default Cooldown",
        }
    }

    pub fn asg_health_check_type(&self) -> (r: &'static str)
        ensures
            r@ == self.lang.pick("í—¬ìŠ¤ ì²´í¬ ìœ í˜•"@, "Health Check Type"@),
    {
        match self.lang {
            Language::Korean => "í—¬ìŠ¤ ì²´í¬ ìœ í˜•",
            Language::English => "Health Check Type",
        }
    }

    pub fn asg_health_check_grace_period(&self) -> (r: &'static str)
        ensures
            r@ == self.lang.pick("í—¬ìŠ¤ ì²´í¬ ìœ ì˜ˆ ê¸°ê°„"@, "Health Check Grace Period"@),
    {
        match self.lang {
            Language::Korean => "í—¬ìŠ¤ ì²´í¬ ìœ ì˜ˆ ê¸°ê°„",
            Language::English => "Health Check Grace Period",
        }
    }

    pub fn asg_created_at(&self) -> (r: &'static str)
        ensures
            r@ == self.lang.pick("ìƒì„±ì¼"@, "Created At"@),
    {
        match self.lang {
            Language::Korean => "ìƒì„±ì¼",
            Language::English => "Created At",
        }
    }

    pub fn asg_availability_zones(&self) -> (r: &'static str)
        ensures
            r@ == self.lang.pick("ê°€ìš© ì˜ì—­"@, "Availability Zones"@),
    {
        match self.lang {
            Language::Korean => "ê°€ìš© ì˜ì—­",
            Language::English => "Availability Zones",
        }
    }

    pub fn asg_instances(&self) -> (r: &'static str)
        ensures
            r@ == self.lang.pick("ì¸ìŠ¤í„´ìŠ¤"@, "Instances"@),
    {
        match self.lang {
            Language::Korean => "ì¸ìŠ¤í„´ìŠ¤",
            Language::English => "Instances",
        }
    }

    pub fn asg_instance_id(&self) -> (r: &'static str)
        ensures
            r@ == self.lang.pick("ì¸ìŠ¤í„´ìŠ¤ ID"@, "Instance ID"@),
    {
        match self.lang {
            Language::Korean => "ì¸ìŠ¤í„´ìŠ¤ ID",
            Language::English => "Instance ID",
        }
    }

    pub fn asg_target_groups(&self) -> (r: &'static str)
        ensures
            r@ == self.lang.pick("ëŒ€ìƒ ê·¸ë£¹"@, "Target Groups"@),
    {
        match self.lang {
            Language::Korean => "ëŒ€ìƒ ê·¸ë£¹",
            Language::English => "Target Groups",
        }
    }

    pub fn asg_scaling_policies(&self) -> (r: &'static str)
        ensures
            r@ == self.lang.pick("ì¡°ì • ì •ì±…"@, "Scaling Policies"@),
    {
        match self.lang {
            Language::Korean => "ì¡°ì • ì •ì±…",
            Language::English => "Scaling Policies",
        }
    }

    pub fn asg_policy_type(&self) -> (r: &'static str)
        ensures
            r@ == self.lang.pick("ìœ í˜•"@, "Type"@),
    {
        match self.lang {
            Language::Korean => "ìœ í˜•",
            Language::English => "Type",
        }
    }

    pub fn asg_adjustment_type(&self) -> (r: &'static str)
        ensures
            r@ == self.lang.pick("ì¡°ì • ìœ í˜•"@, "Adjustment Type"@),
    {
        match self.lang {
            Language::Korean => "ì¡°ì • ìœ í˜•",
            Language::English => "Adjustment Type",
        }
    }

    pub fn asg_adjustment_value(&self) -> (r: &'static str)
        ensures
            r@ == self.lang.pick("ì¡°ì • ê°’"@, "Adjustment Value"@),
    {
        match self.lang {
            Language::Korean => "ì¡°ì • ê°’",
            Language::English => "Adjustment Value",
        }
    }

    pub fn asg_cooldown(&self) -> (r: &'static str)
        ensures
            r@ == self.lang.pick("ì¿¨ë‹¤ìš´"@, "Cooldown"@),
    {
        match self.lang {
            Language::Korean => "ì¿¨ë‹¤ìš´",
            Language::English => "Cooldown",
        }
    }

    pub fn asg_tags(&self) -> (r: &'static str)
        ensures
            r@ == self.lang.pick("íƒœê·¸"@, "Tags"@),
    {
        match self.lang {
            Language::Korean => "íƒœê·¸",
            Language::English => "Tags",
        }
    }

    pub fn asg_key(&self) -> (r: &'static str)
        ensures
            r@ == self.lang.pick("í‚¤"@, "Key"@),
    {
        match self.lang {
            Language::Korean => "í‚¤",
            Language::English => "Key",
        }
    }

    /// A duration in seconds, with the language's unit.
    pub fn asg_seconds(&self, value: i32) -> (r: String)
        ensures
            r@ == decimal(value as int) + self.lang.pick("ì´ˆ"@, "s"@),
    {
        let mut out = String::new();
        push_decimal(&mut out, value as i64);
        match self.lang {
            Language::Korean => out.append("ì´ˆ"),
            Language::English => out.append("s"),
        }
        assert(out@ =~= decimal(value as int) + self.lang.pick("ì´ˆ"@, "s"@));
        out
    }

    /// The instances heading followed by the number of instances.
    pub fn asg_instances_with_count(&self, count: usize) -> (r: String)
        ensures
            r@ == self.lang.pick(
                "ì¸ìŠ¤í„´ìŠ¤ ("@ + numeral(count as nat) + " ê°œ)"@,
                "Instances ("@ + numeral(count as nat) + ")"@,
            ),
    {
        match self.lang {
            Language::Korean => {
                let mut out = String::from_str("ì¸ìŠ¤í„´ìŠ¤ (");
                push_numeral(&mut out, count as u64);
                out.append(" ê°œ)");
                out
            },
            Language::English => {
                let mut out = String::from_str("Instances (");
                push_numeral(&mut out, count as u64);
                out.append(")");
                out
            },
        }
    }

    pub fn loading_blueprint_resources(&self) -> (r: &'static str)
        ensures
            r@ == self.lang.pick("ë¸”ë£¨í”„ë¦°íŠ¸ ë¦¬ì†ŒìŠ¤ ì¡°íšŒ ì¤‘"@, "Loading Blueprint resources"@),
    {
        match self.lang {
            Language::Korean => "ë¸”ë£¨í”„ë¦°íŠ¸ ë¦¬ì†ŒìŠ¤ ì¡°íšŒ ì¤‘",
            Language::English => "Loading Blueprint resources",
        }
    }

    // VPC Loading steps

    pub fn vpc_basic_info(&self) -> (r: &'static str)
        ensures
            r@ == self.lang.pick("VPC ê¸°ë³¸ ì •ë³´"@, "VPC Basic Info"@),
    {
        match self.lang {
            Language::Korean => "VPC ê¸°ë³¸ ì •ë³´",
            Language::English => "VPC Basic Info",
        }
    }

    pub fn subnets(&self) -> (r: &'static str)
        ensures
            r@ == self.lang.pick("ì„œë¸Œë„·"@, "Subnets"@),
    {
        match self.lang {
            Language::Korean => "ì„œë¸Œë„·",
            Language::English => "Subnets",
        }
    }

    pub fn internet_gateway(&self) -> (r: &'static str)
        ensures
            r@ == self.lang.pick("ì¸í„°ë„· ê²Œì´íŠ¸ì›¨ì´"@, "Internet Gateway"@),
    {
        match self.lang {
            Language::Korean => "ì¸í„°ë„· ê²Œì´íŠ¸ì›¨ì´",
            Language::English => "Internet Gateway",
        }
    }

    pub fn nat_gateway(&self) -> (r: &'static str)
        ensures
            r@ == self.lang.pick("NAT ê²Œì´íŠ¸ì›¨ì´"@, "NAT Gateway"@),
    {
        match self.lang {
            Language::Korean => "NAT ê²Œì´íŠ¸ì›¨ì´",
            Language::English => "NAT Gateway",
        }
    }

    pub fn route_tables(&self) -> (r: &'static str)
        ensures
            r@ == self.lang.pick("ë¼ìš°íŒ… í…Œì´ë¸”"@, "Route Tables"@),
    {
        match self.lang {
            Language::Korean => "ë¼ìš°íŒ… í…Œì´ë¸”",
            Language::English => "Route Tables",
        }
    }

    pub fn elastic_ip(&self) -> (r: &'static str)
        ensures
            r@ == self.lang.pick("Elastic IP"@, "Elastic IP"@),
    {
        match self.lang {
            Language::Korean => "Elastic IP",
            Language::English => "Elastic IP",
        }
    }

    pub fn dns_settings(&self) -> (r: &'static str)
        ensures
            r@ == self.lang.pick("DNS ì„¤ì •"@, "DNS Settings"@),
    {
        match self.lang {
            Language::Korean => "DNS ì„¤ì •",
            Language::English => "DNS Settings",
        }
    }

    pub fn completing(&self) -> (r: &'static str)
        ensures
            r@ == self.lang.pick("ì™„ë£Œ ì¤‘"@, "Completing"@),
    {
        match self.lang {
            Language::Korean => "ì™„ë£Œ ì¤‘",
            Language::English => "Completing",
        }
    }

    /// Names the task that is being loaded.
    pub fn current_loading(&self, task: &str) -> (r: String)
        ensures
            r@ == self.lang.pick(
                "í˜„ìž¬: "@ + task@ + " ì¡°íšŒ ì¤‘..."@,
                "Current: Loading "@ + task@ + "..."@,
            ),
    {
        match self.lang {
            Language::Korean => {
                let mut out = String::from_str("í˜„ìž¬: ");
                out.append(task);
                out.append(" ì¡°íšŒ ì¤‘...");
                out
            },
            Language::English => {
                let mut out = String::from_str("Current: Loading ");
                out.append(task);
                out.append("...");
                out
            },
        }
    }

    // Blueprint

    pub fn new_blueprint(&self) -> (r: &'static str)
        ensures
            r@ == self.lang.pick("+ ìƒˆ ë¸”ë£¨í”„ë¦°í„°"@, "+ New Blueprint"@),
    {
        match self.lang {
            Language::Korean => "+ ìƒˆ ë¸”ë£¨í”„ë¦°í„°",
            Language::English => "+ New Blueprint",
        }
    }

    pub fn blueprint_load_failed(&self) -> (r: &'static str)
        ensures
            r@ == self.lang.pick("ë¸”ë£¨í”„ë¦°í„° ë¡œë“œ ì‹¤íŒ¨"@, "Blueprint load failed"@),
    {
        match self.lang {
            Language::Korean => "ë¸”ë£¨í”„ë¦°í„° ë¡œë“œ ì‹¤íŒ¨",
            Language::English => "Blueprint load failed",
        }
    }

    pub fn enter_blueprint_name(&self) -> (r: &'static str)
        ensures
            r@ == self.lang.pick("ë¸”ë£¨í”„ë¦°í„° ì´ë¦„ì„ ìž…ë ¥í•˜ì„¸ìš”:"@, "Enter blueprint name:"@),
    {
        match self.lang {
            Language::Korean => "ë¸”ë£¨í”„ë¦°í„° ì´ë¦„ì„ ìž…ë ¥í•˜ì„¸ìš”:",
            Language::English => "Enter blueprint name:",
        }
    }

    pub fn press_a_to_add(&self) -> (r: &'static str)
        ensures
            r@ == self.lang.pick("'a' í‚¤ë¥¼ ëˆŒëŸ¬ ë¦¬ì†ŒìŠ¤ë¥¼ ì¶”ê°€í•˜ì„¸ìš”."@, "Press 'a' to add resources."@),
    {
        match self.lang {
            Language::Korean => "'a' í‚¤ë¥¼ ëˆŒëŸ¬ ë¦¬ì†ŒìŠ¤ë¥¼ ì¶”ê°€í•˜ì„¸ìš”.",
            Language::English => "Press 'a' to add resources.",
        }
    }

    pub fn resources(&self) -> (r: &'static str)
        ensures
            r@ == self.lang.pick("ë¦¬ì†ŒìŠ¤"@, "resources"@),
    {
        match self.lang {
            Language::Korean => "ë¦¬ì†ŒìŠ¤",
            Language::English => "resources",
        }
    }

    // Settings

    pub fn language(&self) -> (r: &'static str)
        ensures
            r@ == self.lang.pick("ì–¸ì–´"@, "Language"@),
    {
        match self.lang {
            Language::Korean => "ì–¸ì–´",
            Language::English => "Language",
        }
    }

    pub fn language_setting(&self) -> (r: &'static str)
        ensures
            r@ == self.lang.pick("ì–¸ì–´ ì„¤ì •"@, "Language Setting"@),
    {
        match self.lang {
            Language::Korean => "ì–¸ì–´ ì„¤ì •",
            Language::English => "Language Setting",
        }
    }

    pub fn settings_saved(&self) -> (r: &'static str)
        ensures
            r@ == self.lang.pick("ì„¤ì • ì €ìž¥ ì™„ë£Œ"@, "Settings saved"@),
    {
        match self.lang {
            Language::Korean => "ì„¤ì • ì €ìž¥ ì™„ë£Œ",
            Language::English => "Settings saved",
        }
    }

    pub fn blueprint_save_failed(&self) -> (r: &'static str)
        ensures
            r@ == self.lang.pick("ë¸”ë£¨í”„ë¦°í„° ì €ìž¥ ì‹¤íŒ¨"@, "Blueprint save failed"@),
    {
        match self.lang {
            Language::Korean => "ë¸”ë£¨í”„ë¦°í„° ì €ìž¥ ì‹¤íŒ¨",
            Language::English => "Blueprint save failed",
        }
    }

    pub fn change(&self) -> (r: &'static str)
        ensures
            r@ == self.lang.pick("ë³€ê²½"@, "Change"@),
    {
        match self.lang {
            Language::Korean => "ë³€ê²½",
            Language::English => "Change",
        }
    }

    // Table headers for markdown

    pub fn item(&self) -> (r: &'static str)
        ensures
            r@ == self.lang.pick("í•­ëª©"@, "Item"@),
    {
        match self.lang {
            Language::Korean => "í•­ëª©",
            Language::English => "Item",
        }
    }

    pub fn value(&self) -> (r: &'static str)
        ensures
            r@ == self.lang.pick("ê°’"@, "Value"@),
    {
        match self.lang {
            Language::Korean => "ê°’",
            Language::English => "Value",
        }
    }

    pub fn md_name(&self) -> (r: &'static str)
        ensures
            r@ == self.lang.pick("ì´ë¦„"@, "Name"@),
    {
        match self.lang {
            Language::Korean => "ì´ë¦„",
            Language::English => "Name",
        }
    }

    pub fn md_state(&self) -> (r: &'static str)
        ensures
            r@ == self.lang.pick("ìƒíƒœ"@, "State"@),
    {
        match self.lang {
            Language::Korean => "ìƒíƒœ",
            Language::English => "State",
        }
    }

    pub fn tag(&self) -> (r: &'static str)
        ensures
            r@ == self.lang.pick("íƒœê·¸"@, "Tag"@),
    {
        match self.lang {
            Language::Korean => "íƒœê·¸",
            Language::English => "Tag",
        }
    }

    // Toc

    pub fn toc(&self) -> (r: &'static str)
        ensures
            r@ == self.lang.pick("ðŸ“‘ ëª©ì°¨"@, "ðŸ“‘ Table of Contents"@),
    {
        match self.lang {
            Language::Korean => "ðŸ“‘ ëª©ì°¨",
            Language::English => "ðŸ“‘ Table of Contents",
        }
    }

    // Query failed

    pub fn query_failed(&self) -> (r: &'static str)
        ensures
            r@ == self.lang.pick("ì¡°íšŒ ì‹¤íŒ¨"@, "Query failed"@),
    {
        match self.lang {
            Language::Korean => "ì¡°íšŒ ì‹¤íŒ¨",
            Language::English => "Query failed",
        }
    }

    /// Says that the detail of the network `vpc_id` could not be fetched.
    pub fn network_detail_unavailable(&self, vpc_id: &str) -> (r: String)
        ensures
            r@ == network_unavailable_text(self.lang, vpc_id@),
    {
        match self.lang {
            Language::Korean => {
                let mut out = String::from_str(vpc_id);
                out.append(" ë„¤íŠ¸ì›Œí¬ ìƒì„¸ ì •ë³´ë¥¼ ë¶ˆëŸ¬ì˜¬ ìˆ˜ ì—†ìŠµë‹ˆë‹¤. ë¡œê·¸ì¸ ìƒíƒœë¥¼ í™•ì¸í•˜ì„¸ìš”.");
                out
            },
            Language::English => {
                let mut out = String::from_str("Network detail unavailable for ");
                out.append(vpc_id);
                out.append(". Please check AWS login status.");
                out
            },
        }
    }

    // VPC/Network markdown labels

    pub fn md_dns_support(&self) -> (r: &'static str)
        ensures
            r@ == self.lang.pick("DNS ì§€ì›"@, "DNS Support"@),
    {
        match self.lang {
            Language::Korean => "DNS ì§€ì›",
            Language::English => "DNS Support",
        }
    }

    pub fn md_dns_hostnames(&self) -> (r: &'static str)
        ensures
            r@ == self.lang.pick("DNS í˜¸ìŠ¤íŠ¸ ì´ë¦„"@, "DNS Hostnames"@),
    {
        match self.lang {
            Language::Korean => "DNS í˜¸ìŠ¤íŠ¸ ì´ë¦„",
            Language::English => "DNS Hostnames",
        }
    }

    pub fn md_subnets(&self) -> (r: &'static str)
        ensures
            r@ == self.lang.pick("ì„œë¸Œë„·"@, "Subnets"@),
    {
        match self.lang {
            Language::Korean => "ì„œë¸Œë„·",
            Language::English => "Subnets",
        }
    }

    pub fn md_internet_gateway(&self) -> (r: &'static str)
        ensures
            r@ == self.lang.pick("ì¸í„°ë„· ê²Œì´íŠ¸ì›¨ì´"@, "Internet Gateway"@),
    {
        match self.lang {
            Language::Korean => "ì¸í„°ë„· ê²Œì´íŠ¸ì›¨ì´",
            Language::English => "Internet Gateway",
        }
    }

    pub fn md_attached_vpc(&self) -> (r: &'static str)
        ensures
            r@ == self.lang.pick("ì—°ê²°ëœ VPC"@, "Attached VPC"@),
    {
        match self.lang {
            Language::Korean => "ì—°ê²°ëœ VPC",
            Language::English => "Attached VPC",
        }
    }

    pub fn md_nat_gateway(&self) -> (r: &'static str)
        ensures
            r@ == self.lang.pick("NAT ê²Œì´íŠ¸ì›¨ì´"@, "NAT Gateway"@),
    {
        match self.lang {
            Language::Korean => "NAT ê²Œì´íŠ¸ì›¨ì´",
            Language::English => "NAT Gateway",
        }
    }

    pub fn md_availability_mode(&self) -> (r: &'static str)
        ensures
            r@ == self.lang.pick("ê°€ìš©ì„± ëª¨ë“œ"@, "Availability Mode"@),
    {
        match self.lang {
            Language::Korean => "ê°€ìš©ì„± ëª¨ë“œ",
            Language::English => "Availability Mode",
        }
    }

    pub fn md_zonal(&self) -> (r: &'static str)
        ensures
            r@ == self.lang.pick("ì˜ì—­"@, "Zonal"@),
    {
        match self.lang {
            Language::Korean => "ì˜ì—­",
            Language::English => "Zonal",
        }
    }

    pub fn md_regional(&self) -> (r: &'static str)
        ensures
            r@ == self.lang.pick("ë¦¬ì „ë³„"@, "Regional"@),
    {
        match self.lang {
            Language::Korean => "ë¦¬ì „ë³„",
            Language::English => "Regional",
        }
    }

    pub fn md_ip_auto_scaling(&self) -> (r: &'static str)
        ensures
            r@ == self.lang.pick("IP ìžë™ í™•ìž¥"@, "IP Auto Scaling"@),
    {
        match self.lang {
            Language::Korean => "IP ìžë™ í™•ìž¥",
            Language::English => "IP Auto Scaling",
        }
    }

    pub fn md_zone_auto_provisioning(&self) -> (r: &'static str)
        ensures
            r@ == self.lang.pick("ì˜ì—­ ìžë™ í”„ë¡œë¹„ì €ë‹"@, "Zone Auto Provisioning"@),
    {
        match self.lang {
            Language::Korean => "ì˜ì—­ ìžë™ í”„ë¡œë¹„ì €ë‹",
            Language::English => "Zone Auto Provisioning",
        }
    }

    pub fn md_enabled(&self) -> (r: &'static str)
        ensures
            r@ == self.lang.pick("í™œì„±í™”"@, "Enabled"@),
    {
        match self.lang {
            Language::Korean => "í™œì„±í™”",
            Language::English => "Enabled",
        }
    }

    pub fn md_disabled(&self) -> (r: &'static str)
        ensures
            r@ == self.lang.pick("ë¹„í™œì„±í™”"@, "Disabled"@),
    {
        match self.lang {
            Language::Korean => "ë¹„í™œì„±í™”",
            Language::English => "Disabled",
        }
    }

    pub fn md_subnet(&self) -> (r: &'static str)
        ensures
            r@ == self.lang.pick("ì„œë¸Œë„·"@, "Subnet"@),
    {
        match self.lang {
            Language::Korean => "ì„œë¸Œë„·",
            Language::English => "Subnet",
        }
    }

    pub fn md_connectivity_type(&self) -> (r: &'static str)
        ensures
            r@ == self.lang.pick("ì—°ê²° ìœ í˜•"@, "Connectivity Type"@),
    {
        match self.lang {
            Language::Korean => "ì—°ê²° ìœ í˜•",
            Language::English => "Connectivity Type",
        }
    }

    pub fn md_public(&self) -> (r: &'static str)
        ensures
            r@ == self.lang.pick("í¼ë¸”ë¦­"@, "Public"@),
    {
        match self.lang {
            Language::Korean => "í¼ë¸”ë¦­",
            Language::English => "Public",
        }
    }

    pub fn md_private(&self) -> (r: &'static str)
        ensures
            r@ == self.lang.pick("í”„ë¼ì´ë¹—"@, "Private"@),
    {
        match self.lang {
            Language::Korean => "í”„ë¼ì´ë¹—",
            Language::English => "Private",
        }
    }

    pub fn md_elastic_ip_allocation_id(&self) -> (r: &'static str)
        ensures
            r@ == self.lang.pick("íƒ„ë ¥ì  IP í• ë‹¹ ID"@, "Elastic IP Allocation ID"@),
    {
        match self.lang {
            Language::Korean => "íƒ„ë ¥ì  IP í• ë‹¹ ID",
            Language::English => "Elastic IP Allocation ID",
        }
    }

    pub fn md_route_tables(&self) -> (r: &'static str)
        ensures
            r@ == self.lang.pick("ë¼ìš°íŒ… í…Œì´ë¸”"@, "Route Tables"@),
    {
        match self.lang {
            Language::Korean => "ë¼ìš°íŒ… í…Œì´ë¸”",
            Language::English => "Route Tables",
        }
    }

    pub fn md_destination(&self) -> (r: &'static str)
        ensures
            r@ == self.lang.pick("ëŒ€ìƒ"@, "Destination"@),
    {
        match self.lang {
            Language::Korean => "ëŒ€ìƒ",
            Language::English => "Destination",
        }
    }

    pub fn md_target(&self) -> (r: &'static str)
        ensures
            r@ == self.lang.pick("ëŒ€ìƒ"@, "Target"@),
    {
        match self.lang {
            Language::Korean => "ëŒ€ìƒ",
            Language::English => "Target",
        }
    }

    pub fn md_associated_subnets(&self) -> (r: &'static str)
        ensures
            r@ == self.lang.pick("ì—°ê²°ëœ ì„œë¸Œë„·:"@, "Associated Subnets:"@),
    {
        match self.lang {
            Language::Korean => "ì—°ê²°ëœ ì„œë¸Œë„·:",
            Language::English => "Associated Subnets:",
        }
    }

    pub fn md_association(&self) -> (r: &'static str)
        ensures
            r@ == self.lang.pick("ì—°ê²°"@, "Association"@),
    {
        match self.lang {
            Language::Korean => "ì—°ê²°",
            Language::English => "Association",
        }
    }

    pub fn md_network_diagram(&self) -> (r: &'static str)
        ensures
            r@ == self.lang.pick("ë„¤íŠ¸ì›Œí¬ êµ¬ì„±ë„"@, "Network Diagram"@),
    {
        match self.lang {
            Language::Korean => "ë„¤íŠ¸ì›Œí¬ êµ¬ì„±ë„",
            Language::English => "Network Diagram",
        }
    }

    // Security Group markdown labels

    pub fn md_description(&self) -> (r: &'static str)
        ensures
            r@ == self.lang.pick("ì„¤ëª…"@, "Description"@),
    {
        match self.lang {
            Language::Korean => "ì„¤ëª…",
            Language::English => "Description",
        }
    }

    pub fn md_inbound_rules(&self) -> (r: &'static str)
        ensures
            r@ == self.lang.pick("ì¸ë°”ìš´ë“œ ê·œì¹™"@, "Inbound Rules"@),
    {
        match self.lang {
            Language::Korean => "ì¸ë°”ìš´ë“œ ê·œì¹™",
            Language::English => "Inbound Rules",
        }
    }

    pub fn md_outbound_rules(&self) -> (r: &'static str)
        ensures
            r@ == self.lang.pick("ì•„ì›ƒë°”ìš´ë“œ ê·œì¹™"@, "Outbound Rules"@),
    {
        match self.lang {
            Language::Korean => "ì•„ì›ƒë°”ìš´ë“œ ê·œì¹™",
            Language::English => "Outbound Rules",
        }
    }

    pub fn md_protocol(&self) -> (r: &'static str)
        ensures
            r@ == self.lang.pick("í”„ë¡œí† ì½œ"@, "Protocol"@),
    {
        match self.lang {
            Language::Korean => "í”„ë¡œí† ì½œ",
            Language::English => "Protocol",
        }
    }

    pub fn md_port_range(&self) -> (r: &'static str)
        ensures
            r@ == self.lang.pick("í¬íŠ¸ ë²”ìœ„"@, "Port Range"@),
    {
        match self.lang {
            Language::Korean => "í¬íŠ¸ ë²”ìœ„",
            Language::English => "Port Range",
        }
    }

    pub fn md_source(&self) -> (r: &'static str)
        ensures
            r@ == self.lang.pick("ì†ŒìŠ¤"@, "Source"@),
    {
        match self.lang {
            Language::Korean => "ì†ŒìŠ¤",
            Language::English => "Source",
        }
    }

    // Load Balancer markdown labels

    pub fn md_dns_name(&self) -> (r: &'static str)
        ensures
            r@ == self.lang.pick("DNS ì´ë¦„"@, "DNS Name"@),
    {
        match self.lang {
            Language::Korean => "DNS ì´ë¦„",
            Language::English => "DNS Name",
        }
    }

    pub fn md_type(&self) -> (r: &'static str)
        ensures
            r@ == self.lang.pick("íƒ€ìž…"@, "Type"@),
    {
        match self.lang {
            Language::Korean => "íƒ€ìž…",
            Language::English => "Type",
        }
    }

    pub fn md_ip_address_type(&self) -> (r: &'static str)
        ensures
            r@ == self.lang.pick("IP ì£¼ì†Œ ìœ í˜•"@, "IP Address Type"@),
    {
        match self.lang {
            Language::Korean => "IP ì£¼ì†Œ ìœ í˜•",
            Language::English => "IP Address Type",
        }
    }

    pub fn md_port(&self) -> (r: &'static str)
        ensures
            r@ == self.lang.pick("í¬íŠ¸"@, "Port"@),
    {
        match self.lang {
            Language::Korean => "í¬íŠ¸",
            Language::English => "Port",
        }
    }

    pub fn md_default_action(&self) -> (r: &'static str)
        ensures
            r@ == self.lang.pick("ê¸°ë³¸ ì•¡ì…˜"@, "Default Action"@),
    {
        match self.lang {
            Language::Korean => "ê¸°ë³¸ ì•¡ì…˜",
            Language::English => "Default Action",
        }
    }

    pub fn md_basic_info(&self) -> (r: &'static str)
        ensures
            r@ == self.lang.pick("ê¸°ë³¸ ì •ë³´:"@, "Basic Info:"@),
    {
        match self.lang {
            Language::Korean => "ê¸°ë³¸ ì •ë³´:",
            Language::English => "Basic Info:",
        }
    }

    // EC2 markdown labels

    pub fn md_ec2_instance(&self) -> (r: &'static str)
        ensures
            r@ == self.lang.pick("EC2 ì¸ìŠ¤í„´ìŠ¤"@, "EC2 Instance"@),
    {
        match self.lang {
            Language::Korean => "EC2 ì¸ìŠ¤í„´ìŠ¤",
            Language::English => "EC2 Instance",
        }
    }

    pub fn md_instance_type(&self) -> (r: &'static str)
        ensures
            r@ == self.lang.pick("ì¸ìŠ¤í„´ìŠ¤ ìœ í˜•"@, "Instance Type"@),
    {
        match self.lang {
            Language::Korean => "ì¸ìŠ¤í„´ìŠ¤ ìœ í˜•",
            Language::English => "Instance Type",
        }
    }

    pub fn md_platform(&self) -> (r: &'static str)
        ensures
            r@ == self.lang.pick("í”Œëž«í¼"@, "Platform"@),
    {
        match self.lang {
            Language::Korean => "í”Œëž«í¼",
            Language::English => "Platform",
        }
    }

    pub fn md_architecture(&self) -> (r: &'static str)
        ensures
            r@ == self.lang.pick("ì•„í‚¤í…ì²˜"@, "Architecture"@),
    {
        match self.lang {
            Language::Korean => "ì•„í‚¤í…ì²˜",
            Language::English => "Architecture",
        }
    }

    pub fn md_key_pair(&self) -> (r: &'static str)
        ensures
            r@ == self.lang.pick("í‚¤ íŽ˜ì–´"@, "Key Pair"@),
    {
        match self.lang {
            Language::Korean => "í‚¤ íŽ˜ì–´",
            Language::English => "Key Pair",
        }
    }

    pub fn md_availability_zone(&self) -> (r: &'static str)
        ensures
            r@ == self.lang.pick("ê°€ìš© ì˜ì—­"@, "Availability Zone"@),
    {
        match self.lang {
            Language::Korean => "ê°€ìš© ì˜ì—­",
            Language::English => "Availability Zone",
        }
    }

    pub fn md_availability_zones(&self) -> (r: &'static str)
        ensures
            r@ == self.lang.pick("ê°€ìš© ì˜ì—­"@, "Availability Zones"@),
    {
        match self.lang {
            Language::Korean => "ê°€ìš© ì˜ì—­",
            Language::English => "Availability Zones",
        }
    }

    pub fn md_private_ip(&self) -> (r: &'static str)
        ensures
            r@ == self.lang.pick("í”„ë¼ì´ë¹— IP"@, "Private IP"@),
    {
        match self.lang {
            Language::Korean => "í”„ë¼ì´ë¹— IP",
            Language::English => "Private IP",
        }
    }

    pub fn md_public_ip(&self) -> (r: &'static str)
        ensures
            r@ == self.lang.pick("í¼ë¸”ë¦­ IP"@, "Public IP"@),
    {
        match self.lang {
            Language::Korean => "í¼ë¸”ë¦­ IP",
            Language::English => "Public IP",
        }
    }

    pub fn md_security_groups(&self) -> (r: &'static str)
        ensures
            r@ == self.lang.pick("ë³´ì•ˆ ê·¸ë£¹"@, "Security Groups"@),
    {
        match self.lang {
            Language::Korean => "ë³´ì•ˆ ê·¸ë£¹",
            Language::English => "Security Groups",
        }
    }

    pub fn md_ebs_optimized(&self) -> (r: &'static str)
        ensures
            r@ == self.lang.pick("EBS ìµœì í™”"@, "EBS Optimized"@),
    {
        match self.lang {
            Language::Korean => "EBS ìµœì í™”",
            Language::English => "EBS Optimized",
        }
    }

    pub fn md_monitoring(&self) -> (r: &'static str)
        ensures
            r@ == self.lang.pick("ëª¨ë‹ˆí„°ë§"@, "Monitoring"@),
    {
        match self.lang {
            Language::Korean => "ëª¨ë‹ˆí„°ë§",
            Language::English => "Monitoring",
        }
    }

    pub fn md_iam_role(&self) -> (r: &'static str)
        ensures
            r@ == self.lang.pick("IAM ì—­í• "@, "IAM Role"@),
    {
        match self.lang {
            Language::Korean => "IAM ì—­í• ",
            Language::English => "IAM Role",
        }
    }

    pub fn md_iam_role_detail(&self) -> (r: &'static str)
        ensures
            r@ == self.lang.pick("IAM ì—­í•  ìƒì„¸"@, "IAM Role Detail"@),
    {
        match self.lang {
            Language::Korean => "IAM ì—­í•  ìƒì„¸",
            Language::English => "IAM Role Detail",
        }
    }

    pub fn md_attached_policies(&self) -> (r: &'static str)
        ensures
            r@ == self.lang.pick("ì—°ê²°ëœ ì •ì±… (Attached Policies)"@, "Attached Policies"@),
    {
        match self.lang {
            Language::Korean => "ì—°ê²°ëœ ì •ì±… (Attached Policies)",
            Language::English => "Attached Policies",
        }
    }

    pub fn md_inline_policies(&self) -> (r: &'static str)
        ensures
            r@ == self.lang.pick("ì¸ë¼ì¸ ì •ì±… (Inline Policies)"@, "Inline Policies"@),
    {
        match self.lang {
            Language::Korean => "ì¸ë¼ì¸ ì •ì±… (Inline Policies)",
            Language::English => "Inline Policies",
        }
    }

    pub fn md_trust_policy(&self) -> (r: &'static str)
        ensures
            r@ == self.lang.pick("ì‹ ë¢° ê´€ê³„ (Trust Policy)"@, "Trust Policy"@),
    {
        match self.lang {
            Language::Korean => "ì‹ ë¢° ê´€ê³„ (Trust Policy)",
            Language::English => "Trust Policy",
        }
    }

    pub fn md_policy_name(&self) -> (r: &'static str)
        ensures
            r@ == self.lang.pick("ì •ì±… ì´ë¦„"@, "Policy Name"@),
    {
        match self.lang {
            Language::Korean => "ì •ì±… ì´ë¦„",
            Language::English => "Policy Name",
        }
    }

    pub fn md_launch_time(&self) -> (r: &'static str)
        ensures
            r@ == self.lang.pick("ì‹œìž‘ ì‹œê°„"@, "Launch Time"@),
    {
        match self.lang {
            Language::Korean => "ì‹œìž‘ ì‹œê°„",
            Language::English => "Launch Time",
        }
    }

    pub fn md_storage(&self) -> (r: &'static str)
        ensures
            r@ == self.lang.pick("ìŠ¤í† ë¦¬ì§€"@, "Storage"@),
    {
        match self.lang {
            Language::Korean => "ìŠ¤í† ë¦¬ì§€",
            Language::English => "Storage",
        }
    }

    pub fn md_device(&self) -> (r: &'static str)
        ensures
            r@ == self.lang.pick("ë””ë°”ì´ìŠ¤"@, "Device"@),
    {
        match self.lang {
            Language::Korean => "ë””ë°”ì´ìŠ¤",
            Language::English => "Device",
        }
    }

    pub fn md_size(&self) -> (r: &'static str)
        ensures
            r@ == self.lang.pick("í¬ê¸°"@, "Size"@),
    {
        match self.lang {
            Language::Korean => "í¬ê¸°",
            Language::English => "Size",
        }
    }

    pub fn md_encrypted(&self) -> (r: &'static str)
        ensures
            r@ == self.lang.pick("ì•”í˜¸í™”"@, "Encrypted"@),
    {
        match self.lang {
            Language::Korean => "ì•”í˜¸í™”",
            Language::English => "Encrypted",
        }
    }

    pub fn md_delete_on_termination(&self) -> (r: &'static str)
        ensures
            r@ == self.lang.pick("ì¢…ë£Œ ì‹œ ì‚­ì œ"@, "Delete on Termination"@),
    {
        match self.lang {
            Language::Korean => "ì¢…ë£Œ ì‹œ ì‚­ì œ",
            Language::English => "Delete on Termination",
        }
    }

    pub fn md_user_data(&self) -> (r: &'static str)
        ensures
            r@ == self.lang.pick("ì‚¬ìš©ìž ë°ì´í„°"@, "User Data"@),
    {
        match self.lang {
            Language::Korean => "ì‚¬ìš©ìž ë°ì´í„°",
            Language::English => "User Data",
        }
    }

    // ECR markdown labels

    pub fn md_ecr_repository(&self) -> (r: &'static str)
        ensures
            r@ == self.lang.pick("ECR ë ˆí¬ì§€í† ë¦¬"@, "ECR Repository"@),
    {
        match self.lang {
            Language::Korean => "ECR ë ˆí¬ì§€í† ë¦¬",
            Language::English => "ECR Repository",
        }
    }

    pub fn md_tag_mutability(&self) -> (r: &'static str)
        ensures
            r@ == self.lang.pick("íƒœê·¸ ë³€ê²½ ê°€ëŠ¥"@, "Tag Mutability"@),
    {
        match self.lang {
            Language::Korean => "íƒœê·¸ ë³€ê²½ ê°€ëŠ¥",
            Language::English => "Tag Mutability",
        }
    }

    pub fn md_uri(&self) -> (r: &'static str)
        ensures
            r@ == self.lang.pick("URI"@, "URI"@),
    {
        match self.lang {
            Language::Korean => "URI",
            Language::English => "URI",
        }
    }

    pub fn md_encryption(&self) -> (r: &'static str)
        ensures
            r@ == self.lang.pick("ì•”í˜¸í™”"@, "Encryption"@),
    {
        match self.lang {
            Language::Korean => "ì•”í˜¸í™”",
            Language::English => "Encryption",
        }
    }

    pub fn md_image_count(&self) -> (r: &'static str)
        ensures
            r@ == self.lang.pick("ì´ë¯¸ì§€ ìˆ˜"@, "Image Count"@),
    {
        match self.lang {
            Language::Korean => "ì´ë¯¸ì§€ ìˆ˜",
            Language::English => "Image Count",
        }
    }

    pub fn md_created_at(&self) -> (r: &'static str)
        ensures
            r@ == self.lang.pick("ìƒì„±ì¼"@, "Created At"@),
    {
        match self.lang {
            Language::Korean => "ìƒì„±ì¼",
            Language::English => "Created At",
        }
    }

    pub fn ecr_encryption_kms(&self) -> (r: &'static str)
        ensures
            r@ == self.lang.pick("AWS KMS"@, "AWS KMS"@),
    {
        match self.lang {
            Language::Korean => "AWS KMS",
            Language::English => "AWS KMS",
        }
    }

    pub fn ecr_encryption_aes256(&self) -> (r: &'static str)
        ensures
            r@ == self.lang.pick("AES-256"@, "AES-256"@),
    {
        match self.lang {
            Language::Korean => "AES-256",
            Language::English => "AES-256",
        }
    }

    // Load Balancer extra labels

    pub fn md_scheme(&self) -> (r: &'static str)
        ensures
            r@ == self.lang.pick("ìŠ¤í‚¤ë§ˆ"@, "Scheme"@),
    {
        match self.lang {
            Language::Korean => "ìŠ¤í‚¤ë§ˆ",
            Language::English => "Scheme",
        }
    }

    pub fn md_target_type(&self) -> (r: &'static str)
        ensures
            r@ == self.lang.pick("ëŒ€ìƒ ìœ í˜•"@, "Target Type"@),
    {
        match self.lang {
            Language::Korean => "ëŒ€ìƒ ìœ í˜•",
            Language::English => "Target Type",
        }
    }

    pub fn md_health_check(&self) -> (r: &'static str)
        ensures
            r@ == self.lang.pick("í—¬ìŠ¤ ì²´í¬"@, "Health Check"@),
    {
        match self.lang {
            Language::Korean => "í—¬ìŠ¤ ì²´í¬",
            Language::English => "Health Check",
        }
    }

    pub fn md_threshold(&self) -> (r: &'static str)
        ensures
            r@ == self.lang.pick("ìž„ê³„ê°’"@, "Threshold"@),
    {
        match self.lang {
            Language::Korean => "ìž„ê³„ê°’",
            Language::English => "Threshold",
        }
    }

    pub fn md_healthy(&self) -> (r: &'static str)
        ensures
            r@ == self.lang.pick("ì •ìƒ"@, "Healthy"@),
    {
        match self.lang {
            Language::Korean => "ì •ìƒ",
            Language::English => "Healthy",
        }
    }

    pub fn md_unhealthy(&self) -> (r: &'static str)
        ensures
            r@ == self.lang.pick("ë¹„ì •ìƒ"@, "Unhealthy"@),
    {
        match self.lang {
            Language::Korean => "ë¹„ì •ìƒ",
            Language::English => "Unhealthy",
        }
    }

    pub fn md_targets(&self) -> (r: &'static str)
        ensures
            r@ == self.lang.pick("ëŒ€ìƒ:"@, "Targets:"@),
    {
        match self.lang {
            Language::Korean => "ëŒ€ìƒ:",
            Language::English => "Targets:",
        }
    }
}

} // verus!
