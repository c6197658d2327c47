//! Security groups: the provider's description of them, the rules drawn
//! from it, and the group's document section.

use vstd::prelude::*;
use vstd::string::*;
use crate::aws_cli::common::{AwsResource, AwsResourceView, Tag};
use crate::i18n::{I18n, Language};
use crate::text::{
    decimal, joined, lemma_views_push, or_dash, push_decimal, row2, row2_text, row4, row4_text,
    same_text, text_or_dash, views, Lines,
};

verus! {

/// An IPv4 range that a permission names.
#[derive(Debug)]
pub struct IpRange {
    pub cidr_ip: String,
    pub description: Option<String>,
}

/// An IPv6 range that a permission names.
#[derive(Debug)]
pub struct Ipv6Range {
    pub cidr_ipv6: String,
    pub description: Option<String>,
}

/// Another security group that a permission names.
#[derive(Debug)]
pub struct UserIdGroupPair {
    pub group_id: String,
    pub description: Option<String>,
}

/// One permission of a security group as the provider describes it.
#[derive(Debug)]
pub struct IpPermission {
    pub ip_protocol: String,
    pub from_port: Option<i32>,
    pub to_port: Option<i32>,
    pub ip_ranges: Vec<IpRange>,
    pub ipv6_ranges: Vec<Ipv6Range>,
    pub user_id_group_pairs: Vec<UserIdGroupPair>,
}

/// One security group as the provider describes it.
#[derive(Debug)]
pub struct SecurityGroupInfo {
    pub group_id: String,
    pub group_name: String,
    pub description: String,
    pub vpc_id: String,
    pub ip_permissions: Vec<IpPermission>,
    pub ip_permissions_egress: Vec<IpPermission>,
    pub tags: Vec<Tag>,
}

/// The provider's answer to a request for security groups.
#[derive(Debug)]
pub struct SecurityGroupsResponse {
    pub security_groups: Vec<SecurityGroupInfo>,
}

/// One line of a rule table.
#[derive(Debug)]
pub struct SecurityRule {
    pub protocol: String,
    pub port_range: String,
    pub source_dest: String,
    pub description: String,
}

/// A rule as plain text fields.
pub struct SecurityRuleView {
    pub protocol: Seq<char>,
    pub port_range: Seq<char>,
    pub source_dest: Seq<char>,
    pub description: Seq<char>,
}

impl View for SecurityRule {
    type V = SecurityRuleView;

    open spec fn view(&self) -> SecurityRuleView {
        SecurityRuleView {
            protocol: self.protocol@,
            port_range: self.port_range@,
            source_dest: self.source_dest@,
            description: self.description@,
        }
    }
}

/// Everything the document shows of one security group.
#[derive(Debug)]
pub struct SecurityGroupDetail {
    pub name: String,
    pub id: String,
    pub description: String,
    pub vpc_id: String,
    pub inbound_rules: Vec<SecurityRule>,
    pub outbound_rules: Vec<SecurityRule>,
}

/// A security group's detail as plain values.
pub struct SecurityGroupDetailView {
    pub name: Seq<char>,
    pub id: Seq<char>,
    pub description: Seq<char>,
    pub vpc_id: Seq<char>,
    pub inbound_rules: Seq<SecurityRuleView>,
    pub outbound_rules: Seq<SecurityRuleView>,
}

impl View for SecurityGroupDetail {
    type V = SecurityGroupDetailView;

    open spec fn view(&self) -> SecurityGroupDetailView {
        SecurityGroupDetailView {
            name: self.name@,
            id: self.id@,
            description: self.description@,
            vpc_id: self.vpc_id@,
            inbound_rules: views(self.inbound_rules@),
            outbound_rules: views(self.outbound_rules@),
        }
    }
}

/// The upper-case form of a text, as the standard library computes it.
pub uninterp spec fn uppercase(text: Seq<char>) -> Seq<char>;

/// `str::to_uppercase`: the result is the upper-case form of the argument,
/// which depends on nothing but the argument's characters.
#[verifier::external_body]
fn to_uppercase(text: &str) -> (r: String)
    ensures
        r@ == uppercase(text@),
{
    text.to_uppercase()
}

/// How a protocol is shown: `All` for every protocol, the well-known
/// protocols by their usual names, any other in upper case.
pub open spec fn protocol_label(protocol: Seq<char>) -> Seq<char> {
    if protocol == "-1"@ {
        "All"@
    } else if protocol == "tcp"@ {
        "TCP"@
    } else if protocol == "udp"@ {
        "UDP"@
    } else if protocol == "icmp"@ {
        "ICMP"@
    } else {
        uppercase(protocol)
    }
}

/// How the ports of a permission are shown: a single port, a range of two,
/// or `All` where the permission covers every protocol or names no ports.
pub open spec fn port_label(protocol: Seq<char>, from: Option<i32>, to: Option<i32>) -> Seq<
    char,
> {
    if protocol == "-1"@ {
        "All"@
    } else {
        match (from, to) {
            (Some(f), Some(t)) => if f == t {
                decimal(f as int)
            } else {
                decimal(f as int) + "-"@ + decimal(t as int)
            },
            _ => "All"@,
        }
    }
}

/// The rule that a permission gives for one of its peers.
pub open spec fn rule_for(p: IpPermission, peer: Seq<char>, note: Option<String>) -> SecurityRuleView {
    SecurityRuleView {
        protocol: protocol_label(p.ip_protocol@),
        port_range: port_label(p.ip_protocol@, p.from_port, p.to_port),
        source_dest: peer,
        description: text_or_dash(note),
    }
}

/// The rules of one permission: one for each IPv4 range, then one for each
/// IPv6 range, then one for each security group that it names.
pub open spec fn permission_rules(p: IpPermission) -> Seq<SecurityRuleView> {
    Seq::new(
        p.ip_ranges@.len(),
        |i: int| rule_for(p, p.ip_ranges@[i].cidr_ip@, p.ip_ranges@[i].description),
    ) + Seq::new(
        p.ipv6_ranges@.len(),
        |i: int| rule_for(p, p.ipv6_ranges@[i].cidr_ipv6@, p.ipv6_ranges@[i].description),
    ) + Seq::new(
        p.user_id_group_pairs@.len(),
        |i: int|
            rule_for(
                p,
                "sg: "@ + p.user_id_group_pairs@[i].group_id@,
                p.user_id_group_pairs@[i].description,
            ),
    )
}

/// The rules of a list of permissions, in the order of the permissions.
pub open spec fn security_rules(permissions: Seq<IpPermission>) -> Seq<SecurityRuleView>
    decreases permissions.len(),
{
    if permissions.len() == 0 {
        Seq::empty()
    } else {
        security_rules(permissions.drop_last()) + permission_rules(permissions.last())
    }
}

/// Shows a protocol by its label.
pub fn protocol_text(protocol: &str) -> (r: String)
    ensures
        r@ == protocol_label(protocol@),
{
    if same_text(protocol, "-1") {
        String::from_str("All")
    } else if same_text(protocol, "tcp") {
        String::from_str("TCP")
    } else if same_text(protocol, "udp") {
        String::from_str("UDP")
    } else if same_text(protocol, "icmp") {
        String::from_str("ICMP")
    } else {
        to_uppercase(protocol)
    }
}

/// Shows the ports of a permission.
pub fn port_text(protocol: &str, from: Option<i32>, to: Option<i32>) -> (r: String)
    ensures
        r@ == port_label(protocol@, from, to),
{
    if same_text(protocol, "-1") {
        return String::from_str("All");
    }
    match (from, to) {
        (Some(f), Some(t)) => {
            let mut out = String::new();
            push_decimal(&mut out, f as i64);
            if f != t {
                out.append("-");
                push_decimal(&mut out, t as i64);
            }
            assert(out@ =~= port_label(protocol@, from, to));
            out
        },
        _ => String::from_str("All"),
    }
}

/// Adds the rules of one permission to `rules`.
fn push_permission_rules(p: &IpPermission, rules: &mut Vec<SecurityRule>)
    ensures
        views(final(rules)@) == views(old(rules)@) + permission_rules(*p),
{
    let protocol = protocol_text(p.ip_protocol.as_str());
    let port_range = port_text(p.ip_protocol.as_str(), p.from_port, p.to_port);
    let ghost start = views(rules@);
    let ghost v4 = Seq::new(
        p.ip_ranges@.len(),
        |i: int| rule_for(*p, p.ip_ranges@[i].cidr_ip@, p.ip_ranges@[i].description),
    );
    let ghost v6 = Seq::new(
        p.ipv6_ranges@.len(),
        |i: int| rule_for(*p, p.ipv6_ranges@[i].cidr_ipv6@, p.ipv6_ranges@[i].description),
    );
    let ghost groups = Seq::new(
        p.user_id_group_pairs@.len(),
        |i: int|
            rule_for(
                *p,
                "sg: "@ + p.user_id_group_pairs@[i].group_id@,
                p.user_id_group_pairs@[i].description,
            ),
    );
    let n4: usize = p.ip_ranges.len();
    let mut i: usize = 0;
    assert(views(rules@) =~= start + v4.take(0));
    while i < n4
        invariant
            n4 == p.ip_ranges@.len(),
            i <= n4,
            protocol@ == protocol_label(p.ip_protocol@),
            port_range@ == port_label(p.ip_protocol@, p.from_port, p.to_port),
            v4 == Seq::new(
                p.ip_ranges@.len(),
                |i: int| rule_for(*p, p.ip_ranges@[i].cidr_ip@, p.ip_ranges@[i].description),
            ),
            views(rules@) == start + v4.take(i as int),
        decreases n4 - i,
    {
        let ghost prior = rules@;
        rules.push(
            SecurityRule {
                protocol: protocol.clone(),
                port_range: port_range.clone(),
                source_dest: p.ip_ranges[i].cidr_ip.clone(),
                description: or_dash(&p.ip_ranges[i].description),
            },
        );
        proof {
            lemma_views_push(prior, rules@.last());
            assert(rules@ == prior.push(rules@.last()));
            assert(v4.take(i + 1) == v4.take(i as int).push(v4[i as int]));
        }
        i += 1;
        assert(views(rules@) =~= start + v4.take(i as int));
    }
    assert(v4.take(n4 as int) == v4);
    let n6: usize = p.ipv6_ranges.len();
    let mut j: usize = 0;
    assert(views(rules@) =~= start + v4 + v6.take(0));
    while j < n6
        invariant
            n6 == p.ipv6_ranges@.len(),
            j <= n6,
            protocol@ == protocol_label(p.ip_protocol@),
            port_range@ == port_label(p.ip_protocol@, p.from_port, p.to_port),
            v6 == Seq::new(
                p.ipv6_ranges@.len(),
                |i: int|
                    rule_for(*p, p.ipv6_ranges@[i].cidr_ipv6@, p.ipv6_ranges@[i].description),
            ),
            views(rules@) == start + v4 + v6.take(j as int),
        decreases n6 - j,
    {
        let ghost prior = rules@;
        rules.push(
            SecurityRule {
                protocol: protocol.clone(),
                port_range: port_range.clone(),
                source_dest: p.ipv6_ranges[j].cidr_ipv6.clone(),
                description: or_dash(&p.ipv6_ranges[j].description),
            },
        );
        proof {
            lemma_views_push(prior, rules@.last());
            assert(rules@ == prior.push(rules@.last()));
            assert(v6.take(j + 1) == v6.take(j as int).push(v6[j as int]));
        }
        j += 1;
        assert(views(rules@) =~= start + v4 + v6.take(j as int));
    }
    assert(v6.take(n6 as int) == v6);
    let ng: usize = p.user_id_group_pairs.len();
    let mut k: usize = 0;
    assert(views(rules@) =~= start + v4 + v6 + groups.take(0));
    while k < ng
        invariant
            ng == p.user_id_group_pairs@.len(),
            k <= ng,
            protocol@ == protocol_label(p.ip_protocol@),
            port_range@ == port_label(p.ip_protocol@, p.from_port, p.to_port),
            groups == Seq::new(
                p.user_id_group_pairs@.len(),
                |i: int|
                    rule_for(
                        *p,
                        "sg: "@ + p.user_id_group_pairs@[i].group_id@,
                        p.user_id_group_pairs@[i].description,
                    ),
            ),
            views(rules@) == start + v4 + v6 + groups.take(k as int),
        decreases ng - k,
    {
        let ghost prior = rules@;
        let mut peer = String::from_str("sg: ");
        peer.append(p.user_id_group_pairs[k].group_id.as_str());
        rules.push(
            SecurityRule {
                protocol: protocol.clone(),
                port_range: port_range.clone(),
                source_dest: peer,
                description: or_dash(&p.user_id_group_pairs[k].description),
            },
        );
        proof {
            lemma_views_push(prior, rules@.last());
            assert(rules@ == prior.push(rules@.last()));
            assert(groups.take(k + 1) == groups.take(k as int).push(groups[k as int]));
        }
        k += 1;
        assert(views(rules@) =~= start + v4 + v6 + groups.take(k as int));
    }
    assert(groups.take(ng as int) == groups);
    assert(views(rules@) =~= start + permission_rules(*p));
}

/// Draws the rule table lines out of a list of permissions: for each
/// permission, in order, one rule for every peer that it names.
pub fn parse_security_rules(permissions: &[IpPermission]) -> (r: Vec<SecurityRule>)
    ensures
        views(r@) == security_rules(permissions@),
{
    let mut rules: Vec<SecurityRule> = Vec::new();
    let n: usize = permissions.len();
    let mut i: usize = 0;
    assert(views(rules@) =~= security_rules(permissions@.take(0)));
    while i < n
        invariant
            n == permissions@.len(),
            i <= n,
            views(rules@) == security_rules(permissions@.take(i as int)),
        decreases n - i,
    {
        push_permission_rules(&permissions[i], &mut rules);
        proof {
            let next = permissions@.take(i + 1);
            assert(next.drop_last() == permissions@.take(i as int));
            assert(next.last() == permissions@[i as int]);
        }
        i += 1;
    }
    assert(permissions@.take(n as int) == permissions@);
    rules
}

/// The value of the first tag whose key is `Name`.
pub open spec fn name_tag_value(tags: Seq<Tag>) -> Option<Seq<char>>
    decreases tags.len(),
{
    if tags.len() == 0 {
        None
    } else if tags[0].key@ == "Name"@ {
        Some(tags[0].value@)
    } else {
        name_tag_value(tags.drop_first())
    }
}

/// The name of a group: its `Name` tag, or else the name the provider
/// knows it by.
pub open spec fn group_name(g: SecurityGroupInfo) -> Seq<char> {
    match name_tag_value(g.tags@) {
        Some(name) => name,
        None => g.group_name@,
    }
}

/// The listing row of a group: its name followed by the provider's name in
/// brackets, its identifier, and its network in place of a state.
pub open spec fn group_row(g: SecurityGroupInfo) -> AwsResourceView {
    AwsResourceView {
        name: group_name(g) + " ("@ + g.group_name@ + ")"@,
        id: g.group_id@,
        state: g.vpc_id@,
        az: Seq::empty(),
        cidr: Seq::empty(),
    }
}

/// The detail of a group: its inbound rules from its ingress permissions,
/// its outbound rules from its egress permissions.
pub open spec fn group_detail(g: SecurityGroupInfo) -> SecurityGroupDetailView {
    SecurityGroupDetailView {
        name: group_name(g),
        id: g.group_id@,
        description: g.description@,
        vpc_id: g.vpc_id@,
        inbound_rules: security_rules(g.ip_permissions@),
        outbound_rules: security_rules(g.ip_permissions_egress@),
    }
}

/// The rows of a listing of groups, in the provider's order; none where the
/// provider gave no answer.
pub open spec fn group_rows(response: Option<&SecurityGroupsResponse>) -> Seq<AwsResourceView> {
    match response {
        Some(answer) => Seq::new(
            answer.security_groups@.len(),
            |i: int| group_row(answer.security_groups@[i]),
        ),
        None => Seq::empty(),
    }
}

/// Finds the name of a group.
fn group_name_text(g: &SecurityGroupInfo) -> (r: String)
    ensures
        r@ == group_name(*g),
{
    let n: usize = g.tags.len();
    let mut i: usize = 0;
    assert(g.tags@.skip(0) == g.tags@);
    while i < n
        invariant
            n == g.tags@.len(),
            i <= n,
            name_tag_value(g.tags@) == name_tag_value(g.tags@.skip(i as int)),
        decreases n - i,
    {
        assert(g.tags@.skip(i as int)[0] == g.tags@[i as int]);
        if same_text(g.tags[i].key.as_str(), "Name") {
            return g.tags[i].value.clone();
        }
        assert(g.tags@.skip(i as int).drop_first() == g.tags@.skip(i + 1));
        i += 1;
    }
    g.group_name.clone()
}

/// Lists the security groups of the provider's answer; the list is empty
/// where there was no answer.
pub fn list_security_groups(response: Option<&SecurityGroupsResponse>) -> (r: Vec<AwsResource>)
    ensures
        views(r@) == group_rows(response),
{
    let mut rows: Vec<AwsResource> = Vec::new();
    let answer = match response {
        Some(answer) => answer,
        None => {
            assert(views(rows@) =~= group_rows(response));
            return rows;
        },
    };
    let n: usize = answer.security_groups.len();
    let mut i: usize = 0;
    assert(views(rows@) =~= group_rows(response).take(0));
    while i < n
        invariant
            n == answer.security_groups@.len(),
            i <= n,
            response == Some(answer),
            views(rows@) == group_rows(response).take(i as int),
        decreases n - i,
    {
        let g = &answer.security_groups[i];
        let mut name = group_name_text(g);
        name.append(" (");
        name.append(g.group_name.as_str());
        name.append(")");
        let ghost prior = rows@;
        rows.push(
            AwsResource {
                name,
                id: g.group_id.clone(),
                state: g.vpc_id.clone(),
                az: String::new(),
                cidr: String::new(),
            },
        );
        proof {
            lemma_views_push(prior, rows@.last());
            assert(rows@ == prior.push(rows@.last()));
            assert(rows@.last()@ == group_row(*g));
            assert(group_rows(response).take(i + 1) == group_rows(response).take(
                i as int,
            ).push(group_rows(response)[i as int]));
        }
        i += 1;
    }
    assert(group_rows(response).take(n as int) == group_rows(response));
    rows
}

/// The detail of the first security group of the provider's answer.
pub fn get_security_group_detail(response: Option<&SecurityGroupsResponse>) -> (r: Option<
    SecurityGroupDetail,
>)
    ensures
        match response {
            Some(answer) if answer.security_groups@.len() > 0 => r matches Some(detail)
                && detail@ == group_detail(answer.security_groups@[0]),
            _ => r is None,
        },
{
    let answer = match response {
        Some(answer) => answer,
        None => {
            return None;
        },
    };
    if answer.security_groups.len() == 0 {
        return None;
    }
    let g = &answer.security_groups[0];
    Some(
        SecurityGroupDetail {
            name: group_name_text(g),
            id: g.group_id.clone(),
            description: g.description.clone(),
            vpc_id: g.vpc_id.clone(),
            inbound_rules: parse_security_rules(g.ip_permissions.as_slice()),
            outbound_rules: parse_security_rules(g.ip_permissions_egress.as_slice()),
        },
    )
}

/// The table row of one rule.
pub open spec fn rule_row(rule: SecurityRuleView) -> Seq<char> {
    row4(rule.protocol, rule.port_range, rule.source_dest, rule.description)
}

/// A rule table under `title`, with `peer` as the heading of the third
/// column; absent where there is no rule.
pub open spec fn rule_table(
    lang: Language,
    title: Seq<char>,
    peer: Seq<char>,
    rules: Seq<SecurityRuleView>,
) -> Seq<Seq<char>> {
    if rules.len() == 0 {
        Seq::empty()
    } else {
        seq![
            "\n### "@ + title,
            row4(
                lang.pick("í”„ë¡œí† ì½œ"@, "Protocol"@),
                lang.pick("í¬íŠ¸ ë²”ìœ„"@, "Port Range"@),
                peer,
                lang.pick("ì„¤ëª…"@, "Description"@),
            ),
            "|:---|:---|:---|:---|"@,
        ] + Seq::new(rules.len(), |i: int| rule_row(rules[i]))
    }
}

impl SecurityGroupDetailView {
    /// The name as the document shows it: name and identifier, with `NULL`
    /// for the name where the group has none of its own.
    pub open spec fn display_name(self) -> Seq<char> {
        if self.name.len() == 0 || self.name == self.id {
            "NULL - "@ + self.id
        } else {
            self.name + " - "@ + self.id
        }
    }

    /// Heading and property table.
    pub open spec fn head_lines(self, lang: Language) -> Seq<Seq<char>> {
        seq![
            "## Security Group ("@ + self.display_name() + ")\n"@,
            row2(lang.pick("í•­ëª©"@, "Item"@), lang.pick("ê°’"@, "Value"@)),
            "|:---|:---|"@,
            row2(lang.pick("ì´ë¦„"@, "Name"@), self.display_name()),
            row2(lang.pick("ì„¤ëª…"@, "Description"@), self.description),
            row2("VPC ID"@, self.vpc_id),
        ]
    }

    /// The lines of the group's section: heading and properties, then the
    /// inbound and the outbound rule table, each only where it has rules.
    pub open spec fn markdown_lines(self, lang: Language) -> Seq<Seq<char>> {
        self.head_lines(lang) + rule_table(
            lang,
            lang.pick("ì¸ë°”ìš´ë“œ ê·œì¹™"@, "Inbound Rules"@),
            lang.pick("ì†ŒìŠ¤"@, "Source"@),
            self.inbound_rules,
        ) + rule_table(
            lang,
            lang.pick("ì•„ì›ƒë°”ìš´ë“œ ê·œì¹™"@, "Outbound Rules"@),
            lang.pick("ëŒ€ìƒ"@, "Destination"@),
            self.outbound_rules,
        )
    }

    /// The group's section of the document in the given language.
    pub open spec fn markdown(self, lang: Language) -> Seq<char> {
        joined(self.markdown_lines(lang), "\n"@) + "\n"@
    }
}


/// Adds a rule table to `lines`.
fn push_rule_table(
    lines: &mut Lines,
    i18n: &I18n,
    title: &str,
    peer: &str,
    rules: &Vec<SecurityRule>,
)
    ensures
        final(lines)@ == old(lines)@ + rule_table(i18n.lang, title@, peer@, views(rules@)),
{
    let n: usize = rules.len();
    if n == 0 {
        assert(lines@ =~= old(lines)@ + rule_table(i18n.lang, title@, peer@, views(rules@)));
        return ;
    }
    let mut heading = String::from_str("\n### ");
    heading.append(title);
    lines.push(heading);
    lines.push(row4_text(i18n.md_protocol(), i18n.md_port_range(), peer, i18n.md_description()));
    lines.push_str("|:---|:---|:---|:---|");
    let ghost head = lines@;
    let ghost rows = Seq::new(views(rules@).len(), |i: int| rule_row(views(rules@)[i]));
    let mut i: usize = 0;
    assert(lines@ =~= head + rows.take(0));
    while i < n
        invariant
            n == rules@.len(),
            i <= n,
            rows == Seq::new(views(rules@).len(), |i: int| rule_row(views(rules@)[i])),
            lines@ == head + rows.take(i as int),
        decreases n - i,
    {
        let rule = &rules[i];
        lines.push(
            row4_text(
                rule.protocol.as_str(),
                rule.port_range.as_str(),
                rule.source_dest.as_str(),
                rule.description.as_str(),
            ),
        );
        assert(rows.take(i + 1) == rows.take(i as int).push(rows[i as int]));
        i += 1;
        assert(lines@ =~= head + rows.take(i as int));
    }
    assert(rows.take(n as int) == rows);
    assert(lines@ =~= old(lines)@ + rule_table(i18n.lang, title@, peer@, views(rules@)));
}

impl SecurityGroupDetail {
    /// Builds the name as the document shows it.
    fn display_name(&self) -> (r: String)
        ensures
            r@ == self@.display_name(),
    {
        let unnamed = self.name.as_str().is_empty() || self.name == self.id;
        let mut out = if unnamed {
            String::from_str("NULL")
        } else {
            self.name.clone()
        };
        out.append(" - ");
        out.append(self.id.as_str());
        proof {
            reveal_strlit("NULL - ");
            reveal_strlit("NULL");
            reveal_strlit(" - ");
            assert("NULL"@ + " - "@ =~= "NULL - "@);
            assert(out@ =~= self@.display_name());
        }
        out
    }

    /// Renders the group's section of the document in the given language.
    pub fn to_markdown(&self, lang: Language) -> (r: String)
        ensures
            r@ == self@.markdown(lang),
    {
        let i18n = I18n::new(lang);
        let shown = self.display_name();
        let mut lines = Lines::new();
        let mut title = String::from_str("## Security Group (");
        title.append(shown.as_str());
        title.append(")\n");
        lines.push(title);
        lines.push(row2_text(i18n.item(), i18n.value()));
        lines.push_str("|:---|:---|");
        lines.push(row2_text(i18n.md_name(), shown.as_str()));
        lines.push(
            row2_text(i18n.md_description(), self.description.as_str()),
        );
        lines.push(row2_text("VPC ID", self.vpc_id.as_str()));
        assert(lines@ =~= self@.head_lines(lang));
        push_rule_table(
            &mut lines,
            &i18n,
            i18n.md_inbound_rules(),
            i18n.md_source(),
            &self.inbound_rules,
        );
        push_rule_table(
            &mut lines,
            &i18n,
            i18n.md_outbound_rules(),
            i18n.md_destination(),
            &self.outbound_rules,
        );
        let mut out = lines.join("\n");
        out.append("\n");
        out
    }
}

} // verus!
