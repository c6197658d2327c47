//! Auto scaling groups: their detail and its document section.

use vstd::prelude::*;
use vstd::string::*;
use crate::text::{
    char_index, decimal, find_char, joined, numeral, push_decimal, push_numeral, row2,
    row2_text, same_text, slice_text, text_or_dash, to_chars, Lines,
};

verus! {

/// A scaling policy attached to a group.
#[derive(Debug)]
pub struct ScalingPolicy {
    pub name: String,
    pub policy_type: String,
    pub adjustment_type: Option<String>,
    pub scaling_adjustment: Option<i32>,
    pub cooldown: Option<i32>,
}

impl Clone for ScalingPolicy {
    fn clone(&self) -> (r: Self)
        ensures
            r == *self,
    {
        ScalingPolicy {
            name: self.name.clone(),
            policy_type: self.policy_type.clone(),
            adjustment_type: match &self.adjustment_type {
                Some(t) => Some(t.clone()),
                None => None,
            },
            scaling_adjustment: self.scaling_adjustment,
            cooldown: self.cooldown,
        }
    }
}

/// Everything the document shows of one auto scaling group.
#[derive(Debug)]
pub struct AsgDetail {
    pub name: String,
    pub arn: String,
    pub launch_template_name: Option<String>,
    pub launch_template_id: Option<String>,
    pub launch_config_name: Option<String>,
    pub min_size: i32,
    pub max_size: i32,
    pub desired_capacity: i32,
    pub default_cooldown: i32,
    pub availability_zones: Vec<String>,
    pub target_group_arns: Vec<String>,
    pub health_check_type: String,
    pub health_check_grace_period: i32,
    pub instances: Vec<String>,
    pub created_time: String,
    pub scaling_policies: Vec<ScalingPolicy>,
    pub tags: Vec<(String, String)>,
}

/// The part of a target group's resource name between its first and its
/// second slash; the whole name where it holds no slash.
pub open spec fn target_group_label(arn: Seq<char>) -> Seq<char> {
    match char_index(arn, '/', 0) {
        None => arn,
        Some(i) => match char_index(arn, '/', i + 1) {
            None => arn.subrange(i + 1, arn.len() as int),
            Some(j) => arn.subrange(i + 1, j),
        },
    }
}

/// A number, or a dash where there is none.
pub open spec fn number_or_dash(n: Option<i32>) -> Seq<char> {
    match n {
        Some(v) => decimal(v as int),
        None => "-"@,
    }
}

/// A number of seconds, or a dash where there is none.
pub open spec fn seconds_or_dash(n: Option<i32>) -> Seq<char> {
    match n {
        Some(v) => decimal(v as int) + "초"@,
        None => "-"@,
    }
}

/// The table row of one scaling policy.
pub open spec fn policy_row(p: ScalingPolicy) -> Seq<char> {
    "| "@ + p.name@ + " | "@ + p.policy_type@ + " | "@ + text_or_dash(p.adjustment_type)
        + " | "@ + number_or_dash(p.scaling_adjustment) + " | "@ + seconds_or_dash(p.cooldown)
        + " |"@
}

/// The table rows of the tags whose key is not `Name`, in order.
pub open spec fn tag_rows(tags: Seq<(String, String)>) -> Seq<Seq<char>>
    decreases tags.len(),
{
    if tags.len() == 0 {
        Seq::empty()
    } else if tags.last().0@ == "Name"@ {
        tag_rows(tags.drop_last())
    } else {
        tag_rows(tags.drop_last()).push(row2(tags.last().0@, tags.last().1@))
    }
}

impl AsgDetail {
    /// Heading and the first rows of the property table.
    pub open spec fn head_lines(&self) -> Seq<Seq<char>> {
        seq![
            "## Auto Scaling Group ("@ + self.name@ + ")\n"@,
            "| 항목 | 값 |"@,
            "|:---|:---|"@,
            row2("이름"@, self.name@),
        ]
    }

    /// The row that names the launch template, or else the launch
    /// configuration; no row where the group has neither.
    pub open spec fn launch_lines(&self) -> Seq<Seq<char>> {
        match self.launch_template_name {
            Some(template) => match self.launch_template_id {
                Some(id) => seq![row2("시작 템플릿"@, template@ + " (`"@ + id@ + "`)"@)],
                None => seq![row2("시작 템플릿"@, template@)],
            },
            None => match self.launch_config_name {
                Some(config) => seq![row2("시작 구성"@, config@)],
                None => Seq::empty(),
            },
        }
    }

    /// The rows on capacity, health check and creation.
    pub open spec fn capacity_lines(&self) -> Seq<Seq<char>> {
        seq![
            row2("최소 크기"@, decimal(self.min_size as int)),
            row2("최대 크기"@, decimal(self.max_size as int)),
            row2("원하는 용량"@, decimal(self.desired_capacity as int)),
            row2("기본 쿨다운"@, decimal(self.default_cooldown as int) + "초"@),
            row2("헬스 체크 유형"@, self.health_check_type@),
            row2("헬스 체크 유예 기간"@, decimal(self.health_check_grace_period as int) + "초"@),
            row2("생성일"@, self.created_time@),
        ]
    }

    /// The list of availability zones, absent where there is none.
    pub open spec fn zone_lines(&self) -> Seq<Seq<char>> {
        if self.availability_zones@.len() == 0 {
            Seq::empty()
        } else {
            seq![Seq::empty(), "### 가용 영역\n"@] + Seq::new(
                self.availability_zones@.len(),
                |i: int| "- "@ + self.availability_zones@[i]@,
            )
        }
    }

    /// The table of instances, absent where there is none.
    pub open spec fn instance_lines(&self) -> Seq<Seq<char>> {
        if self.instances@.len() == 0 {
            Seq::empty()
        } else {
            seq![
                Seq::empty(),
                "### 인스턴스 ("@ + numeral(self.instances@.len()) + " 개)\n"@,
                "| 인스턴스 ID |"@,
                "|:---|"@,
            ] + Seq::new(
                self.instances@.len(),
                |i: int| "| `"@ + self.instances@[i]@ + "` |"@,
            )
        }
    }

    /// The list of target groups, absent where there is none.
    pub open spec fn target_group_lines(&self) -> Seq<Seq<char>> {
        if self.target_group_arns@.len() == 0 {
            Seq::empty()
        } else {
            seq![Seq::empty(), "### 대상 그룹\n"@] + Seq::new(
                self.target_group_arns@.len(),
                |i: int| "- "@ + target_group_label(self.target_group_arns@[i]@),
            )
        }
    }

    /// The table of scaling policies, absent where there is none.
    pub open spec fn policy_lines(&self) -> Seq<Seq<char>> {
        if self.scaling_policies@.len() == 0 {
            Seq::empty()
        } else {
            seq![
                Seq::empty(),
                "### 조정 정책\n"@,
                "| 이름 | 유형 | 조정 유형 | 조정 값 | 쿨다운 |"@,
                "|:---|:---|:---|:---|:---|"@,
            ] + Seq::new(
                self.scaling_policies@.len(),
                |i: int| policy_row(self.scaling_policies@[i]),
            )
        }
    }

    /// The table of tags other than `Name`, absent where the group has no
    /// tag at all.
    pub open spec fn tag_lines(&self) -> Seq<Seq<char>> {
        if self.tags@.len() == 0 {
            Seq::empty()
        } else {
            seq![Seq::empty(), "### 태그\n"@, "| 키 | 값 |"@, "|:---|:---|"@] + tag_rows(
                self.tags@,
            )
        }
    }

    /// The lines of the group's section, in order, closed by an empty line.
    pub open spec fn markdown_lines(&self) -> Seq<Seq<char>> {
        self.head_lines() + self.launch_lines() + self.capacity_lines() + self.zone_lines()
            + self.instance_lines() + self.target_group_lines() + self.policy_lines()
            + self.tag_lines() + seq![Seq::empty()]
    }

    /// The group's section of the document.
    pub open spec fn markdown(&self) -> Seq<char> {
        joined(self.markdown_lines(), "\n"@)
    }
}

/// Builds a table row of a label and a number, followed by `unit`.
fn number_row(label: &str, n: i32, unit: &str) -> (r: String)
    ensures
        r@ == row2(label@, decimal(n as int) + unit@),
{
    let mut out = String::from_str("| ");
    out.append(label);
    out.append(" | ");
    push_decimal(&mut out, n as i64);
    out.append(unit);
    out.append(" |");
    assert(out@ =~= row2(label@, decimal(n as int) + unit@));
    out
}

/// Picks the label of a target group out of its resource name.
pub fn target_group_name(arn: &str) -> (r: String)
    ensures
        r@ == target_group_label(arn@),
{
    let chars = to_chars(arn);
    match find_char(&chars, '/', 0) {
        None => String::from_str(arn),
        Some(i) => match find_char(&chars, '/', i + 1) {
            None => slice_text(arn, i + 1, chars.len()),
            Some(j) => slice_text(arn, i + 1, j),
        },
    }
}

/// Builds the table row of one scaling policy.
fn policy_row_text(p: &ScalingPolicy) -> (r: String)
    ensures
        r@ == policy_row(*p),
{
    let mut out = String::from_str("| ");
    out.append(p.name.as_str());
    out.append(" | ");
    out.append(p.policy_type.as_str());
    out.append(" | ");
    match &p.adjustment_type {
        Some(t) => out.append(t.as_str()),
        None => out.append("-"),
    }
    out.append(" | ");
    match p.scaling_adjustment {
        Some(v) => push_decimal(&mut out, v as i64),
        None => out.append("-"),
    }
    out.append(" | ");
    match p.cooldown {
        Some(v) => {
            push_decimal(&mut out, v as i64);
            out.append("초");
        },
        None => out.append("-"),
    }
    out.append(" |");
    assert(out@ =~= policy_row(*p));
    out
}

impl AsgDetail {
    fn push_head(&self, lines: &mut Lines)
        ensures
            final(lines)@ == old(lines)@ + self.head_lines(),
    {
        let mut title = String::from_str("## Auto Scaling Group (");
        title.append(self.name.as_str());
        title.append(")\n");
        lines.push(title);
        lines.push_str("| 항목 | 값 |");
        lines.push_str("|:---|:---|");
        lines.push(row2_text("이름", self.name.as_str()));
        assert(lines@ =~= old(lines)@ + self.head_lines());
    }

    fn push_launch(&self, lines: &mut Lines)
        ensures
            final(lines)@ == old(lines)@ + self.launch_lines(),
    {
        match &self.launch_template_name {
            Some(template) => match &self.launch_template_id {
                Some(id) => {
                    let mut cell = String::from_str(template.as_str());
                    cell.append(" (`");
                    cell.append(id.as_str());
                    cell.append("`)");
                    lines.push(row2_text("시작 템플릿", cell.as_str()));
                },
                None => {
                    lines.push(row2_text("시작 템플릿", template.as_str()));
                },
            },
            None => match &self.launch_config_name {
                Some(config) => {
                    lines.push(row2_text("시작 구성", config.as_str()));
                },
                None => {},
            },
        }
        assert(lines@ =~= old(lines)@ + self.launch_lines());
    }

    fn push_capacity(&self, lines: &mut Lines)
        ensures
            final(lines)@ == old(lines)@ + self.capacity_lines(),
    {
        lines.push(number_row("최소 크기", self.min_size, ""));
        lines.push(number_row("최대 크기", self.max_size, ""));
        lines.push(number_row("원하는 용량", self.desired_capacity, ""));
        lines.push(number_row("기본 쿨다운", self.default_cooldown, "초"));
        lines.push(row2_text("헬스 체크 유형", self.health_check_type.as_str()));
        lines.push(number_row("헬스 체크 유예 기간", self.health_check_grace_period, "초"));
        lines.push(row2_text("생성일", self.created_time.as_str()));
        proof {
            reveal_strlit("");
            assert(""@ =~= Seq::<char>::empty());
            assert(decimal(self.min_size as int) + ""@ =~= decimal(self.min_size as int));
            assert(decimal(self.max_size as int) + ""@ =~= decimal(self.max_size as int));
            assert(decimal(self.desired_capacity as int) + ""@ =~= decimal(
                self.desired_capacity as int,
            ));
            assert(lines@ =~= old(lines)@ + self.capacity_lines());
        }
    }

    fn push_zones(&self, lines: &mut Lines)
        ensures
            final(lines)@ == old(lines)@ + self.zone_lines(),
    {
        let n: usize = self.availability_zones.len();
        if n > 0 {
            lines.push(String::new());
            lines.push_str("### 가용 영역\n");
            let ghost head = lines@;
            let mut i: usize = 0;
            while i < n
                invariant
                    n == self.availability_zones@.len(),
                    i <= n,
                    lines@ == head + Seq::new(
                        i as nat,
                        |k: int| "- "@ + self.availability_zones@[k]@,
                    ),
                decreases n - i,
            {
                let mut item = String::from_str("- ");
                item.append(self.availability_zones[i].as_str());
                lines.push(item);
                i += 1;
                assert(lines@ =~= head + Seq::new(
                    i as nat,
                    |k: int| "- "@ + self.availability_zones@[k]@,
                ));
            }
            assert(lines@ =~= old(lines)@ + self.zone_lines());
        } else {
            assert(lines@ =~= old(lines)@ + self.zone_lines());
        }
    }

    fn push_instances(&self, lines: &mut Lines)
        ensures
            final(lines)@ == old(lines)@ + self.instance_lines(),
    {
        let n: usize = self.instances.len();
        if n > 0 {
            lines.push(String::new());
            let mut title = String::from_str("### 인스턴스 (");
            push_numeral(&mut title, n as u64);
            title.append(" 개)\n");
            lines.push(title);
            lines.push_str("| 인스턴스 ID |");
            lines.push_str("|:---|");
            let ghost head = lines@;
            let mut i: usize = 0;
            while i < n
                invariant
                    n == self.instances@.len(),
                    i <= n,
                    lines@ == head + Seq::new(
                        i as nat,
                        |k: int| "| `"@ + self.instances@[k]@ + "` |"@,
                    ),
                decreases n - i,
            {
                let mut item = String::from_str("| `");
                item.append(self.instances[i].as_str());
                item.append("` |");
                lines.push(item);
                i += 1;
                assert(lines@ =~= head + Seq::new(
                    i as nat,
                    |k: int| "| `"@ + self.instances@[k]@ + "` |"@,
                ));
            }
            assert(lines@ =~= old(lines)@ + self.instance_lines());
        } else {
            assert(lines@ =~= old(lines)@ + self.instance_lines());
        }
    }

    fn push_target_groups(&self, lines: &mut Lines)
        ensures
            final(lines)@ == old(lines)@ + self.target_group_lines(),
    {
        let n: usize = self.target_group_arns.len();
        if n > 0 {
            lines.push(String::new());
            lines.push_str("### 대상 그룹\n");
            let ghost head = lines@;
            let mut i: usize = 0;
            while i < n
                invariant
                    n == self.target_group_arns@.len(),
                    i <= n,
                    lines@ == head + Seq::new(
                        i as nat,
                        |k: int| "- "@ + target_group_label(self.target_group_arns@[k]@),
                    ),
                decreases n - i,
            {
                let mut item = String::from_str("- ");
                let label = target_group_name(self.target_group_arns[i].as_str());
                item.append(label.as_str());
                lines.push(item);
                i += 1;
                assert(lines@ =~= head + Seq::new(
                    i as nat,
                    |k: int| "- "@ + target_group_label(self.target_group_arns@[k]@),
                ));
            }
            assert(lines@ =~= old(lines)@ + self.target_group_lines());
        } else {
            assert(lines@ =~= old(lines)@ + self.target_group_lines());
        }
    }

    fn push_policies(&self, lines: &mut Lines)
        ensures
            final(lines)@ == old(lines)@ + self.policy_lines(),
    {
        let n: usize = self.scaling_policies.len();
        if n > 0 {
            lines.push(String::new());
            lines.push_str("### 조정 정책\n");
            lines.push_str("| 이름 | 유형 | 조정 유형 | 조정 값 | 쿨다운 |");
            lines.push_str("|:---|:---|:---|:---|:---|");
            let ghost head = lines@;
            let mut i: usize = 0;
            while i < n
                invariant
                    n == self.scaling_policies@.len(),
                    i <= n,
                    lines@ == head + Seq::new(
                        i as nat,
                        |k: int| policy_row(self.scaling_policies@[k]),
                    ),
                decreases n - i,
            {
                lines.push(policy_row_text(&self.scaling_policies[i]));
                i += 1;
                assert(lines@ =~= head + Seq::new(
                    i as nat,
                    |k: int| policy_row(self.scaling_policies@[k]),
                ));
            }
            assert(lines@ =~= old(lines)@ + self.policy_lines());
        } else {
            assert(lines@ =~= old(lines)@ + self.policy_lines());
        }
    }

    fn push_tags(&self, lines: &mut Lines)
        ensures
            final(lines)@ == old(lines)@ + self.tag_lines(),
    {
        let n: usize = self.tags.len();
        if n > 0 {
            lines.push(String::new());
            lines.push_str("### 태그\n");
            lines.push_str("| 키 | 값 |");
            lines.push_str("|:---|:---|");
            let ghost head = lines@;
            let mut i: usize = 0;
            while i < n
                invariant
                    n == self.tags@.len(),
                    i <= n,
                    lines@ == head + tag_rows(self.tags@.take(i as int)),
                decreases n - i,
            {
                let ghost before = self.tags@.take(i as int);
                let ghost after = self.tags@.take(i + 1);
                assert(after.drop_last() == before);
                assert(after.last() == self.tags@[i as int]);
                if !same_text(self.tags[i].0.as_str(), "Name") {
                    lines.push(row2_text(self.tags[i].0.as_str(), self.tags[i].1.as_str()));
                }
                i += 1;
                assert(lines@ =~= head + tag_rows(after));
            }
            assert(self.tags@.take(n as int) == self.tags@);
            assert(lines@ =~= old(lines)@ + self.tag_lines());
        } else {
            assert(lines@ =~= old(lines)@ + self.tag_lines());
        }
    }

    /// Renders the group's section of the document: a property table, then
    /// one sub-section for each kind of attachment that the group has.
    pub fn to_markdown(&self) -> (r: String)
        ensures
            r@ == self.markdown(),
    {
        let mut lines = Lines::new();
        self.push_head(&mut lines);
        self.push_launch(&mut lines);
        self.push_capacity(&mut lines);
        self.push_zones(&mut lines);
        self.push_instances(&mut lines);
        self.push_target_groups(&mut lines);
        self.push_policies(&mut lines);
        self.push_tags(&mut lines);
        lines.push(String::new());
        assert(lines@ =~= self.markdown_lines());
        lines.join("\n")
    }
}

} // verus!
