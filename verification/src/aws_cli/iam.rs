//! Roles: the detail of an instance's role, put together from the
//! provider's answers.

use vstd::prelude::*;
use vstd::string::*;
use crate::aws_cli::common::{extract_json_value, json_value, or_empty};

verus! {

/// A managed policy attached to a role.
#[derive(Debug)]
pub struct AttachedPolicy {
    pub name: String,
    pub arn: String,
}

impl Clone for AttachedPolicy {
    fn clone(&self) -> (r: Self)
        ensures
            r == *self,
    {
        AttachedPolicy { name: self.name.clone(), arn: self.arn.clone() }
    }
}

/// A policy written into a role, with its document as pretty-printed JSON.
#[derive(Debug)]
pub struct InlinePolicy {
    pub name: String,
    pub document: String,
}

impl Clone for InlinePolicy {
    fn clone(&self) -> (r: Self)
        ensures
            r == *self,
    {
        InlinePolicy { name: self.name.clone(), document: self.document.clone() }
    }
}

/// An inline policy as plain text fields.
pub struct InlinePolicyView {
    pub name: Seq<char>,
    pub document: Seq<char>,
}

impl View for InlinePolicy {
    type V = InlinePolicyView;

    open spec fn view(&self) -> InlinePolicyView {
        InlinePolicyView { name: self.name@, document: self.document@ }
    }
}

/// Everything the document shows of one role.
#[derive(Debug)]
pub struct IamRoleDetail {
    pub name: String,
    pub arn: String,
    pub assume_role_policy: String,
    pub attached_policies: Vec<AttachedPolicy>,
    pub inline_policies: Vec<InlinePolicy>,
}

#[verifier::external_type_specification]
#[verifier::external_body]
pub struct ExJsonValue(serde_json::Value);

/// The pretty-printed text of a JSON value. Values that differ print
/// differently, so the text stands for the value.
pub uninterp spec fn json_pretty(value: serde_json::Value) -> Seq<char>;

/// The pretty-printed text of the JSON document that `text` holds; `None`
/// where `text` is not one JSON document.
pub uninterp spec fn json_document(text: Seq<char>) -> Option<Seq<char>>;

/// The pretty-printed text of the member `key` of the JSON object whose
/// pretty-printed text is `object`; `None` where that value is no object or
/// has no such member.
pub uninterp spec fn json_member(object: Seq<char>, key: Seq<char>) -> Option<Seq<char>>;

/// `serde_json::from_str` at the type `Value`: the value of the document in
/// `text`, or nothing where the call reports an error.
#[verifier::external_body]
fn parse_json(text: &str) -> (r: Option<serde_json::Value>)
    ensures
        r matches Some(value) ==> json_document(text@) == Some(json_pretty(value)),
        r is None ==> json_document(text@) is None,
{
    match serde_json::from_str::<serde_json::Value>(text) {
        Ok(value) => Some(value),
        Err(_) => None,
    }
}

/// `serde_json::Value::get` with a text index: the member of that name
/// where the value is an object that has one.
#[verifier::external_body]
fn member<'a>(value: &'a serde_json::Value, key: &str) -> (r: Option<&'a serde_json::Value>)
    ensures
        r matches Some(found) ==> json_member(json_pretty(*value), key@) == Some(
            json_pretty(*found),
        ),
        r is None ==> json_member(json_pretty(*value), key@) is None,
{
    value.get(key)
}

/// `serde_json::to_string_pretty` on a `Value`: the text is the value's
/// pretty-printed text. The call reports an error only where the value
/// refuses to be serialised or holds a map whose keys are no strings, and
/// a `Value` does neither; it writes into memory, which takes every byte.
#[verifier::external_body]
fn pretty_text(value: &serde_json::Value) -> (r: Option<String>)
    ensures
        r is Some,
        r matches Some(text) ==> text@ == json_pretty(*value),
{
    match serde_json::to_string_pretty(value) {
        Ok(text) => Some(text),
        Err(_) => None,
    }
}

/// The member `inner` of the member `outer` of the document in `json`, as
/// pretty-printed text.
pub open spec fn nested_member(json: Seq<char>, outer: Seq<char>, inner: Seq<char>) -> Option<
    Seq<char>,
> {
    match json_document(json) {
        Some(document) => match json_member(document, outer) {
            Some(object) => json_member(object, inner),
            None => None,
        },
        None => None,
    }
}

/// The member `key` of the document in `json`, as pretty-printed text.
pub open spec fn top_member(json: Seq<char>, key: Seq<char>) -> Option<Seq<char>> {
    match json_document(json) {
        Some(document) => json_member(document, key),
        None => None,
    }
}

/// Pretty-prints the trust policy of a role out of the provider's
/// description of the role: the member `AssumeRolePolicyDocument` of the
/// member `Role`. The text is empty where the description is not JSON or
/// holds no such policy.
pub fn extract_assume_role_policy(json: &str) -> (r: String)
    ensures
        r@ == or_empty(nested_member(json@, "Role"@, "AssumeRolePolicyDocument"@)),
{
    let document = match parse_json(json) {
        Some(document) => document,
        None => {
            return String::new();
        },
    };
    let role = match member(&document, "Role") {
        Some(role) => role,
        None => {
            return String::new();
        },
    };
    match member(role, "AssumeRolePolicyDocument") {
        Some(policy) => text_or_empty(pretty_text(policy)),
        None => String::new(),
    }
}

/// The text, or the empty text where there is none.
pub fn text_or_empty(text: Option<String>) -> (r: String)
    ensures
        r@ == match text {
            Some(t) => t@,
            None => Seq::empty(),
        },
{
    match text {
        Some(t) => t,
        None => String::new(),
    }
}

/// Pretty-prints the document of an inline policy out of the provider's
/// answer: its member `PolicyDocument`. There is a text exactly where the
/// answer is JSON and holds that member.
pub fn parse_inline_policy_document_response(output: &str) -> (r: Option<String>)
    ensures
        match r {
            Some(text) => top_member(output@, "PolicyDocument"@) == Some(text@),
            None => top_member(output@, "PolicyDocument"@) is None,
        },
{
    let document = match parse_json(output) {
        Some(document) => document,
        None => {
            return None;
        },
    };
    match member(&document, "PolicyDocument") {
        Some(policy) => pretty_text(policy),
        None => None,
    }
}

/// Puts a role's detail together; there is none without a name or without
/// a resource name.
pub fn assemble_role_detail(
    name: String,
    arn: String,
    assume_role_policy: String,
    attached_policies: Vec<AttachedPolicy>,
    inline_policies: Vec<InlinePolicy>,
) -> (r: Option<IamRoleDetail>)
    ensures
        r == if name@.len() == 0 || arn@.len() == 0 {
            None
        } else {
            Some(
                IamRoleDetail {
                    name,
                    arn,
                    assume_role_policy,
                    attached_policies,
                    inline_policies,
                },
            )
        },
{
    if name.as_str().is_empty() || arn.as_str().is_empty() {
        return None;
    }
    Some(IamRoleDetail { name, arn, assume_role_policy, attached_policies, inline_policies })
}

/// Reads a role's detail out of the provider's description of the role and
/// joins the policies to it. Name and resource name are the first
/// `RoleName` and `Arn` string values in the description; without either
/// there is no detail.
pub fn build_iam_role_detail_from_output(
    output: &str,
    attached_policies: Vec<AttachedPolicy>,
    inline_policies: Vec<InlinePolicy>,
) -> (r: Option<IamRoleDetail>)
    ensures
        r is Some <==> or_empty(json_value(output@, "RoleName"@)).len() > 0 && or_empty(
            json_value(output@, "Arn"@),
        ).len() > 0,
        r matches Some(detail) ==> {
            &&& detail.name@ == or_empty(json_value(output@, "RoleName"@))
            &&& detail.arn@ == or_empty(json_value(output@, "Arn"@))
            &&& detail.assume_role_policy@ == or_empty(
                nested_member(output@, "Role"@, "AssumeRolePolicyDocument"@),
            )
            &&& detail.attached_policies == attached_policies
            &&& detail.inline_policies == inline_policies
        },
{
    let name = text_or_empty(extract_json_value(output, "RoleName"));
    let arn = text_or_empty(extract_json_value(output, "Arn"));
    let assume_role_policy = extract_assume_role_policy(output);
    assemble_role_detail(name, arn, assume_role_policy, attached_policies, inline_policies)
}

/// The detail of a role from the provider's answers: the description of the
/// role, if the provider gave one, and the policies found for it.
pub fn get_iam_role_detail(
    output: Option<&str>,
    attached_policies: Vec<AttachedPolicy>,
    inline_policies: Vec<InlinePolicy>,
) -> (r: Option<IamRoleDetail>)
    ensures
        output is None ==> r is None,
        output matches Some(text) ==> {
            &&& r is Some <==> or_empty(json_value(text@, "RoleName"@)).len() > 0 && or_empty(
                json_value(text@, "Arn"@),
            ).len() > 0
            &&& r matches Some(detail) ==> {
                &&& detail.name@ == or_empty(json_value(text@, "RoleName"@))
                &&& detail.arn@ == or_empty(json_value(text@, "Arn"@))
                &&& detail.assume_role_policy@ == or_empty(
                    nested_member(text@, "Role"@, "AssumeRolePolicyDocument"@),
                )
                &&& detail.attached_policies == attached_policies
                &&& detail.inline_policies == inline_policies
            }
        },
{
    match output {
        Some(text) => build_iam_role_detail_from_output(text, attached_policies, inline_policies),
        None => None,
    }
}

/// The inline policies that names and fetched documents give: one for each
/// name whose document was fetched, in the order of the names.
pub open spec fn paired_policies(names: Seq<Seq<char>>, documents: Seq<Option<Seq<char>>>) -> Seq<
    InlinePolicyView,
>
    decreases names.len(),
{
    if names.len() == 0 || documents.len() != names.len() {
        Seq::empty()
    } else {
        match documents.last() {
            Some(document) => paired_policies(names.drop_last(), documents.drop_last()).push(
                InlinePolicyView { name: names.last(), document },
            ),
            None => paired_policies(names.drop_last(), documents.drop_last()),
        }
    }
}

/// A fetched document as plain text.
pub open spec fn document_view(document: Option<String>) -> Option<Seq<char>> {
    match document {
        Some(text) => Some(text@),
        None => None,
    }
}

/// Whether `document` is something that `fetch_doc` may hand back for a
/// policy of the given name.
pub open spec fn fetched_for<F: Fn(&str) -> Option<String>>(
    fetch_doc: F,
    name: Seq<char>,
    document: Option<String>,
) -> bool {
    exists|arg: &str| arg@ == name && call_ensures(fetch_doc, (arg,), document)
}

/// Whether `documents` holds, for each name in order, something that
/// `fetch_doc` may hand back for it.
pub open spec fn fetched_all<F: Fn(&str) -> Option<String>>(
    fetch_doc: F,
    names: Seq<String>,
    documents: Seq<Option<String>>,
) -> bool {
    &&& documents.len() == names.len()
    &&& forall|i: int|
        0 <= i < documents.len() ==> fetched_for(fetch_doc, names[i]@, #[trigger] documents[i])
}

/// Fetches the document of each named policy with `fetch_doc` and keeps the
/// policies whose document came back, in the order of the names.
pub fn build_inline_policies_from_names<F>(policy_names: Vec<String>, fetch_doc: F) -> (r: Vec<
    InlinePolicy,
>) where F: Fn(&str) -> Option<String>
    requires
        forall|name: &str| call_requires(fetch_doc, (name,)),
    ensures
        exists|documents: Seq<Option<String>>| #[trigger]
            fetched_all(fetch_doc, policy_names@, documents) && crate::text::views(r@)
                == paired_policies(
                crate::text::views(policy_names@),
                documents.map_values(|d: Option<String>| document_view(d)),
            ),
{
    let mut policies: Vec<InlinePolicy> = Vec::new();
    let ghost mut documents: Seq<Option<String>> = Seq::empty();
    let n: usize = policy_names.len();
    let mut i: usize = 0;
    assert(crate::text::views(policies@) =~= paired_policies(
        crate::text::views(policy_names@).take(0),
        documents.map_values(|d: Option<String>| document_view(d)),
    ));
    while i < n
        invariant
            n == policy_names@.len(),
            i <= n,
            documents.len() == i,
            forall|name: &str| call_requires(fetch_doc, (name,)),
            forall|k: int|
                0 <= k < i ==> fetched_for(
                    fetch_doc,
                    policy_names@[k]@,
                    #[trigger] documents[k],
                ),
            crate::text::views(policies@) == paired_policies(
                crate::text::views(policy_names@).take(i as int),
                documents.map_values(|d: Option<String>| document_view(d)),
            ),
        decreases n - i,
    {
        let name = policy_names[i].as_str();
        let fetched = fetch_doc(name);
        assert(fetched_for(fetch_doc, policy_names@[i as int]@, fetched));
        let ghost prior = policies@;
        let ghost names_before = crate::text::views(policy_names@).take(i as int);
        let ghost docs_before = documents.map_values(|d: Option<String>| document_view(d));
        proof {
            documents = documents.push(fetched);
            let names_after = crate::text::views(policy_names@).take(i + 1);
            let docs_after = documents.map_values(|d: Option<String>| document_view(d));
            assert(names_after.drop_last() =~= names_before);
            assert(docs_after.drop_last() =~= docs_before);
            assert(names_after.last() == policy_names@[i as int]@);
            assert(docs_after.last() == document_view(fetched));
        }
        match fetched {
            Some(document) => {
                policies.push(InlinePolicy { name: policy_names[i].clone(), document });
                proof {
                    crate::text::lemma_views_push(prior, policies@.last());
                    assert(policies@ == prior.push(policies@.last()));
                }
            },
            None => {},
        }
        i += 1;
    }
    assert(crate::text::views(policy_names@).take(n as int) == crate::text::views(
        policy_names@,
    ));
    assert(fetched_all(fetch_doc, policy_names@, documents));
    policies
}

} // verus!
