//! What every resource kind shares: the summary row of a listing, the
//! region setting, and the scanners that pick values out of command output.

use vstd::prelude::*;
use vstd::string::*;
use crate::text::{
    char_index, concat3, find_char, find_text, lemma_char_index_bounds, lemma_text_index_bounds,
    slice_text, text_index, to_chars, views,
};

verus! {

/// The region that provider commands are run against, once one is chosen.
pub struct RegionSetting {
    pub region: Option<String>,
}

impl RegionSetting {
    /// A setting with no region chosen yet.
    pub fn new() -> (r: RegionSetting)
        ensures
            r.region is None,
    {
        RegionSetting { region: None }
    }
}

/// Chooses `region` for the commands that follow.
pub fn set_region(setting: &mut RegionSetting, region: &str)
    ensures
        final(setting).region matches Some(chosen) && chosen@ == region@,
{
    setting.region = Some(String::from_str(region));
}

/// The command-line arguments that select the region: `--region` and the
/// region's code, or none while no region is chosen.
pub open spec fn region_args(setting: RegionSetting) -> Seq<Seq<char>> {
    match setting.region {
        Some(region) => seq!["--region"@, region@],
        None => Seq::empty(),
    }
}

/// The arguments to add to a provider command for the chosen region.
pub fn get_region_args(setting: &RegionSetting) -> (r: Vec<String>)
    ensures
        views(r@) == region_args(*setting),
{
    let mut args: Vec<String> = Vec::new();
    match &setting.region {
        Some(region) => {
            args.push(String::from_str("--region"));
            args.push(region.clone());
        },
        None => {},
    }
    assert(views(args@) =~= region_args(*setting));
    args
}

/// The region that the provider's SDK is set up for: the chosen region, or
/// `ap-southeast-1` while none is chosen.
pub open spec fn sdk_region_code(setting: RegionSetting) -> Seq<char> {
    match setting.region {
        Some(region) => region@,
        None => "ap-southeast-1"@,
    }
}

/// The code of the region to set the provider's SDK up for.
pub fn sdk_region(setting: &RegionSetting) -> (r: String)
    ensures
        r@ == sdk_region_code(*setting),
{
    match &setting.region {
        Some(region) => region.clone(),
        None => String::from_str("ap-southeast-1"),
    }
}

/// One row of a resource listing.
#[derive(Debug)]
pub struct AwsResource {
    pub name: String,
    pub id: String,
    pub state: String,
    pub az: String,
    pub cidr: String,
}

/// A resource row as plain text fields.
pub struct AwsResourceView {
    pub name: Seq<char>,
    pub id: Seq<char>,
    pub state: Seq<char>,
    pub az: Seq<char>,
    pub cidr: Seq<char>,
}

impl View for AwsResource {
    type V = AwsResourceView;

    open spec fn view(&self) -> AwsResourceView {
        AwsResourceView {
            name: self.name@,
            id: self.id@,
            state: self.state@,
            az: self.az@,
            cidr: self.cidr@,
        }
    }
}

impl Clone for AwsResource {
    fn clone(&self) -> (r: Self)
        ensures
            r == *self,
    {
        AwsResource {
            name: self.name.clone(),
            id: self.id.clone(),
            state: self.state.clone(),
            az: self.az.clone(),
            cidr: self.cidr.clone(),
        }
    }
}

impl AwsResourceView {
    /// The label shown for the row: the name with the identifier in
    /// brackets, or the bare identifier where the row has no name.
    pub open spec fn display(self) -> Seq<char> {
        if self.name.len() == 0 {
            self.id
        } else {
            self.name + " ("@ + self.id + ")"@
        }
    }
}

impl AwsResource {
    /// The label shown for the row.
    pub fn display(&self) -> (r: String)
        ensures
            r@ == self@.display(),
    {
        if self.name.as_str().is_empty() {
            self.id.clone()
        } else {
            let mut out = self.name.clone();
            out.append(" (");
            out.append(self.id.as_str());
            out.append(")");
            out
        }
    }
}

/// A key and value attached to a resource.
#[derive(Debug)]
pub struct Tag {
    pub key: String,
    pub value: String,
}

/// The text that opens the value of `key` in pretty-printed JSON: the key in
/// double quotes, a colon, a space and the value's opening quote.
pub open spec fn key_opener(key: Seq<char>) -> Seq<char> {
    "\""@ + key + "\": \""@
}

/// The text that follows the first `"key": "` in `json`, up to the next
/// double quote; `None` where the key or the closing quote is missing.
pub open spec fn json_value(json: Seq<char>, key: Seq<char>) -> Option<Seq<char>> {
    match text_index(json, key_opener(key), 0) {
        None => None,
        Some(start) => quoted_at(json, start + key_opener(key).len()),
    }
}

/// The text from `from` up to the next double quote in `json`.
pub open spec fn quoted_at(json: Seq<char>, from: int) -> Option<Seq<char>> {
    match char_index(json, '"', from) {
        None => None,
        Some(end) => Some(json.subrange(from, end)),
    }
}

/// Reads the quoted text that starts at `from`.
fn read_quoted(json: &str, chars: &Vec<char>, from: usize) -> (r: Option<(String, usize)>)
    requires
        chars@ == json@,
    ensures
        match r {
            Some((text, end)) => {
                &&& char_index(json@, '"', from as int) == Some(end as int)
                &&& quoted_at(json@, from as int) == Some(text@)
                &&& from <= end < json@.len()
            },
            None => quoted_at(json@, from as int) is None,
        },
{
    match find_char(chars, '"', from) {
        None => None,
        Some(end) => Some((slice_text(json, from, end), end)),
    }
}

/// Picks the string value of `key` out of pretty-printed JSON without
/// parsing it: the first occurrence of the key decides.
pub fn extract_json_value(json: &str, key: &str) -> (r: Option<String>)
    ensures
        match r {
            Some(value) => json_value(json@, key@) == Some(value@),
            None => json_value(json@, key@) is None,
        },
{
    let chars = to_chars(json);
    let pattern = concat3("\"", key, "\": \"");
    let needle = to_chars(pattern.as_str());
    match find_text(&chars, &needle, 0) {
        None => None,
        Some(start) => {
            assert(start + needle@.len() <= chars@.len() <= usize::MAX);
            match read_quoted(json, &chars, start + needle.len()) {
                None => None,
                Some((value, _)) => Some(value),
            }
        },
    }
}

/// The name that a run of tags gives: the value that follows the first
/// `"Key": "Name"`; failing that, the first value of all where a
/// `"Key": "Name"` follows it; failing that, the empty text.
pub open spec fn name_tag(tags_json: Seq<char>) -> Seq<char> {
    match name_after_key(tags_json) {
        Some(name) => name,
        None => match name_before_key(tags_json) {
            Some(name) => name,
            None => Seq::empty(),
        },
    }
}

/// The value that follows the first `"Key": "Name"`.
pub open spec fn name_after_key(tags_json: Seq<char>) -> Option<Seq<char>> {
    match text_index(tags_json, "\"Key\": \"Name\""@, 0) {
        None => None,
        Some(start) => match text_index(tags_json, "\"Value\": \""@, start) {
            None => None,
            Some(value_start) => quoted_at(tags_json, value_start + 10),
        },
    }
}

/// The first value, where `"Key": "Name"` stands somewhere after it.
pub open spec fn name_before_key(tags_json: Seq<char>) -> Option<Seq<char>> {
    match text_index(tags_json, "\"Value\": \""@, 0) {
        None => None,
        Some(start) => match char_index(tags_json, '"', start + 10) {
            None => None,
            Some(end) => if text_index(tags_json, "\"Key\": \"Name\""@, end) is Some {
                Some(tags_json.subrange(start + 10, end))
            } else {
                None
            },
        },
    }
}

/// The search text `"Value": "` as characters.
fn value_opener() -> (r: Vec<char>)
    ensures
        r@ == "\"Value\": \""@,
        r@.len() == 10,
{
    proof {
        reveal_strlit("\"Value\": \"");
    }
    to_chars("\"Value\": \"")
}

fn name_after_key_in(json: &str, chars: &Vec<char>, from: usize, to: usize) -> (r: Option<String>)
    requires
        from <= to <= chars@.len(),
        chars@ == json@,
    ensures
        match r {
            Some(name) => name_after_key(json@.subrange(from as int, to as int)) == Some(name@),
            None => name_after_key(json@.subrange(from as int, to as int)) is None,
        },
{
    let part = slice_text(json, from, to);
    let part_chars = to_chars(part.as_str());
    let key = to_chars("\"Key\": \"Name\"");
    let opener = value_opener();
    match find_text(&part_chars, &key, 0) {
        None => None,
        Some(start) => match find_text(&part_chars, &opener, start) {
            None => None,
            Some(value_start) => match read_quoted(part.as_str(), &part_chars, value_start + 10) {
                None => None,
                Some((name, _)) => Some(name),
            },
        },
    }
}

fn name_before_key_in(json: &str, chars: &Vec<char>, from: usize, to: usize) -> (r: Option<
    String,
>)
    requires
        from <= to <= chars@.len(),
        chars@ == json@,
    ensures
        match r {
            Some(name) => name_before_key(json@.subrange(from as int, to as int)) == Some(name@),
            None => name_before_key(json@.subrange(from as int, to as int)) is None,
        },
{
    let part = slice_text(json, from, to);
    let part_chars = to_chars(part.as_str());
    let key = to_chars("\"Key\": \"Name\"");
    let opener = value_opener();
    match find_text(&part_chars, &opener, 0) {
        None => None,
        Some(start) => match read_quoted(part.as_str(), &part_chars, start + 10) {
            None => None,
            Some((name, end)) => if find_text(&part_chars, &key, end).is_some() {
                Some(name)
            } else {
                None
            },
        },
    }
}

/// The name tag of the part of `json` from `from` up to `to`.
fn name_tag_in(json: &str, chars: &Vec<char>, from: usize, to: usize) -> (r: String)
    requires
        from <= to <= chars@.len(),
        chars@ == json@,
    ensures
        r@ == name_tag(json@.subrange(from as int, to as int)),
{
    match name_after_key_in(json, chars, from, to) {
        Some(name) => name,
        None => match name_before_key_in(json, chars, from, to) {
            Some(name) => name,
            None => String::new(),
        },
    }
}

/// Picks the `Name` tag out of the pretty-printed JSON of a run of tags.
pub fn parse_name_tag(tags_json: &str) -> (r: String)
    ensures
        r@ == name_tag(tags_json@),
{
    let chars = to_chars(tags_json);
    assert(tags_json@.subrange(0, chars@.len() as int) =~= tags_json@);
    name_tag_in(tags_json, &chars, 0, chars.len())
}

/// Whether `key` is the key of one of the pairs in `found`.
pub open spec fn has_key(found: Seq<(Seq<char>, Seq<char>)>, key: Seq<char>) -> bool {
    exists|i: int| 0 <= i < found.len() && (#[trigger] found[i]).0 == key
}

/// The pairs of `tags`, each as two plain texts.
pub open spec fn pair_views(tags: Seq<(String, String)>) -> Seq<(Seq<char>, Seq<char>)> {
    Seq::new(tags.len(), |i: int| (tags[i].0@, tags[i].1@))
}

/// The tags that a scan of `json` from index `from` adds to `found`. Each
/// `"Key": "` opens a key, which runs to the next double quote; its value is
/// the quoted text after the next `"Value": "` that follows the key's start.
/// A key that was found before, or that has no value, adds nothing. The scan
/// goes on from the key's closing quote and ends with the last key.
pub open spec fn tags_from(json: Seq<char>, from: int, found: Seq<(Seq<char>, Seq<char>)>) -> Seq<
    (Seq<char>, Seq<char>),
>
    decreases json.len() - from,
{
    match text_index(json, "\"Key\": \""@, from) {
        None => found,
        Some(pos) => match char_index(json, '"', pos + 8) {
            None => found,
            Some(key_end) => {
                let key = json.subrange(pos + 8, key_end);
                let grown = match value_after(json, pos + 8) {
                    Some(value) => if has_key(found, key) {
                        found
                    } else {
                        found.push((key, value))
                    },
                    None => found,
                };
                proof {
                    lemma_text_index_bounds(json, "\"Key\": \""@, from);
                    lemma_char_index_bounds(json, '"', pos + 8);
                }
                tags_from(json, key_end, grown)
            },
        },
    }
}

/// The quoted text after the first `"Value": "` at or after `from`.
pub open spec fn value_after(json: Seq<char>, from: int) -> Option<Seq<char>> {
    match text_index(json, "\"Value\": \""@, from) {
        None => None,
        Some(start) => quoted_at(json, start + 10),
    }
}

/// Whether one of the pairs in `found` has the key `key`.
fn key_known(found: &Vec<(String, String)>, key: &String) -> (r: bool)
    ensures
        r == has_key(pair_views(found@), key@),
{
    let n: usize = found.len();
    let mut i: usize = 0;
    while i < n
        invariant
            n == found@.len(),
            i <= n,
            forall|k: int| 0 <= k < i ==> (#[trigger] pair_views(found@)[k]).0 != key@,
        decreases n - i,
    {
        if found[i].0 == *key {
            assert(pair_views(found@)[i as int].0 == key@);
            return true;
        }
        i += 1;
    }
    false
}

/// Collects the tags of a resource out of its pretty-printed JSON, each key
/// once, in the order in which the keys first appear.
pub fn extract_tags(json: &str) -> (r: Vec<(String, String)>)
    ensures
        pair_views(r@) == tags_from(json@, 0, Seq::empty()),
{
    let chars = to_chars(json);
    let key_opener = to_chars("\"Key\": \"");
    let opener = value_opener();
    proof {
        reveal_strlit("\"Key\": \"");
    }
    let mut tags: Vec<(String, String)> = Vec::new();
    let mut search_start: usize = 0;
    assert(pair_views(tags@) =~= Seq::empty());
    loop
        invariant
            chars@ == json@,
            key_opener@ == "\"Key\": \""@,
            key_opener@.len() == 8,
            opener@ == "\"Value\": \""@,
            opener@.len() == 10,
            tags_from(json@, 0, Seq::empty()) == tags_from(
                json@,
                search_start as int,
                pair_views(tags@),
            ),
        ensures
            pair_views(tags@) == tags_from(json@, 0, Seq::empty()),
        decreases chars@.len() - search_start,
    {
        let pos = match find_text(&chars, &key_opener, search_start) {
            None => break,
            Some(pos) => pos,
        };
        let key_start: usize = pos + 8;
        let (key, key_end) = match read_quoted(json, &chars, key_start) {
            None => break,
            Some(found) => found,
        };
        let ghost before = pair_views(tags@);
        match find_text(&chars, &opener, key_start) {
            None => {},
            Some(value_pos) => {
                assert(value_pos + 10 <= chars@.len());
                match read_quoted(json, &chars, value_pos + 10) {
                    None => {},
                    Some((value, _)) => {
                        if !key_known(&tags, &key) {
                            tags.push((key, value));
                            assert(pair_views(tags@) =~= before.push((key@, value@)));
                        }
                    },
                }
            },
        }
        search_start = key_end;
    }
    tags
}

/// Whether `text` begins with `prefix`.
pub open spec fn starts_with(text: Seq<char>, prefix: Seq<char>) -> bool {
    prefix.len() <= text.len() && text.subrange(0, prefix.len() as int) =~= prefix
}

/// Whether `id` can be the identifier of a resource whose identifiers begin
/// with `prefix`: it begins with the prefix and holds no space.
pub open spec fn is_resource_id(id: Seq<char>, prefix: Seq<char>) -> bool {
    starts_with(id, prefix) && char_index(id, ' ', 0) is None
}

/// Where the section that begins at `start` ends: at the next closing
/// bracket, or at the end of `json`.
pub open spec fn section_end(json: Seq<char>, start: int) -> int {
    match char_index(json, ']', start) {
        Some(end) => end,
        None => json.len() as int,
    }
}

/// The row of a resource of which only identifier and name are known.
pub open spec fn named_row(id: Seq<char>, name: Seq<char>) -> AwsResourceView {
    AwsResourceView {
        name,
        id,
        state: Seq::empty(),
        az: Seq::empty(),
        cidr: Seq::empty(),
    }
}

/// The rows that a scan of `json` from index `from` adds to `found`. Each
/// occurrence of `prefix` opens a candidate identifier, which runs to the
/// next double quote. A candidate that is an identifier gives a row, named
/// by the name tag of the section from the identifier to the next closing
/// bracket. The scan goes on from the closing quote; it ends where no
/// occurrence or no quote is left, or where it would not advance.
pub open spec fn rows_from(
    json: Seq<char>,
    prefix: Seq<char>,
    from: int,
    found: Seq<AwsResourceView>,
) -> Seq<AwsResourceView>
    decreases json.len() - from,
{
    match text_index(json, prefix, from) {
        None => found,
        Some(start) => match char_index(json, '"', start) {
            None => found,
            Some(end) => {
                let id = json.subrange(start, end);
                let grown = if is_resource_id(id, prefix) {
                    found.push(
                        named_row(id, name_tag(json.subrange(start, section_end(json, start)))),
                    )
                } else {
                    found
                };
                if end <= from {
                    grown
                } else {
                    proof {
                        lemma_char_index_bounds(json, '"', start);
                    }
                    rows_from(json, prefix, end, grown)
                }
            },
        },
    }
}

/// Whether `id` begins with `prefix` and holds no space.
fn resource_id_ok(id: &Vec<char>, prefix: &Vec<char>) -> (r: bool)
    ensures
        r == is_resource_id(id@, prefix@),
{
    let begins = prefix.len() <= id.len() && crate::text::matches_at(id, prefix, 0);
    begins && find_char(id, ' ', 0).is_none()
}

/// Lists the resources whose identifiers begin with `prefix` out of the
/// pretty-printed JSON of a listing, without parsing it.
pub fn parse_resources_from_json(json: &str, prefix: &str) -> (r: Vec<AwsResource>)
    ensures
        views(r@) == rows_from(json@, prefix@, 0, Seq::empty()),
{
    let chars = to_chars(json);
    let needle = to_chars(prefix);
    let mut resources: Vec<AwsResource> = Vec::new();
    let mut search_start: usize = 0;
    assert(views(resources@) =~= Seq::empty());
    loop
        invariant_except_break
            rows_from(json@, prefix@, 0, Seq::empty()) == rows_from(
                json@,
                prefix@,
                search_start as int,
                views(resources@),
            ),
        invariant
            chars@ == json@,
            needle@ == prefix@,
        ensures
            views(resources@) == rows_from(json@, prefix@, 0, Seq::empty()),
        decreases chars@.len() - search_start,
    {
        let start = match find_text(&chars, &needle, search_start) {
            None => break,
            Some(start) => start,
        };
        let (id, end) = match read_quoted(json, &chars, start) {
            None => break,
            Some(found) => found,
        };
        let id_chars = to_chars(id.as_str());
        if resource_id_ok(&id_chars, &needle) {
            let stop: usize = match find_char(&chars, ']', start) {
                Some(stop) => stop,
                None => chars.len(),
            };
            let name = name_tag_in(json, &chars, start, stop);
            let ghost before = views(resources@);
            resources.push(
                AwsResource {
                    name,
                    id,
                    state: String::new(),
                    az: String::new(),
                    cidr: String::new(),
                },
            );
            assert(views(resources@) =~= before.push(
                named_row(
                    json@.subrange(start as int, end as int),
                    name_tag(json@.subrange(start as int, section_end(json@, start as int))),
                ),
            ));
        }
        if end <= search_start {
            break;
        }
        search_start = end;
    }
    resources
}

/// How a provider command ended.
#[derive(Debug)]
pub enum CommandOutcome {
    /// The command ran to its end; `success` tells whether it reported
    /// success, and the two texts are what it wrote.
    Exited { success: bool, stdout: String, stderr: String },
    /// The command could not be started; the text says why.
    NotStarted(String),
}

/// The first line of `text`, without its line ending: a line feed, or a
/// carriage return and a line feed.
pub open spec fn first_line(text: Seq<char>) -> Seq<char> {
    match char_index(text, '\n', 0) {
        None => text,
        Some(end) => if end > 0 && text[end - 1] == '\r' {
            text.subrange(0, end - 1)
        } else {
            text.subrange(0, end)
        },
    }
}

/// A text, or the empty text where there is none.
pub open spec fn or_empty(text: Option<Seq<char>>) -> Seq<char> {
    match text {
        Some(t) => t,
        None => Seq::empty(),
    }
}

/// What the identity check reports: on success the account with the caller's
/// resource name in brackets, both read from the command's output; else why
/// the operator is not logged in.
pub open spec fn login_report(outcome: CommandOutcome) -> Result<Seq<char>, Seq<char>> {
    match outcome {
        CommandOutcome::Exited { success, stdout, stderr } => if success {
            Ok(
                or_empty(json_value(stdout@, "Account"@)) + " ("@ + or_empty(
                    json_value(stdout@, "Arn"@),
                ) + ")"@,
            )
        } else {
            Err("AWS 로그인 필요: "@ + first_line(stderr@))
        },
        CommandOutcome::NotStarted(reason) => Err("AWS CLI 실행 실패: "@ + reason@),
    }
}

/// Cuts the first line out of `text`.
pub fn first_line_of(text: &str) -> (r: String)
    ensures
        r@ == first_line(text@),
{
    let chars = to_chars(text);
    match find_char(&chars, '\n', 0) {
        None => String::from_str(text),
        Some(end) => if end > 0 && chars[end - 1] == '\r' {
            slice_text(text, 0, end - 1)
        } else {
            slice_text(text, 0, end)
        },
    }
}

/// Turns the outcome of the identity command into the login line, or into
/// the reason why the operator is not logged in.
pub fn check_aws_login(outcome: &CommandOutcome) -> (r: Result<String, String>)
    ensures
        match r {
            Ok(info) => login_report(*outcome) == Ok::<Seq<char>, Seq<char>>(info@),
            Err(reason) => login_report(*outcome) == Err::<Seq<char>, Seq<char>>(reason@),
        },
{
    match outcome {
        CommandOutcome::Exited { success, stdout, stderr } => {
            if *success {
                let mut info = String::new();
                match extract_json_value(stdout.as_str(), "Account") {
                    Some(account) => info.append(account.as_str()),
                    None => {},
                }
                info.append(" (");
                match extract_json_value(stdout.as_str(), "Arn") {
                    Some(arn) => info.append(arn.as_str()),
                    None => {},
                }
                info.append(")");
                assert(info@ =~= or_empty(json_value(stdout@, "Account"@)) + " ("@ + or_empty(
                    json_value(stdout@, "Arn"@),
                ) + ")"@);
                Ok(info)
            } else {
                let mut reason = String::from_str("AWS 로그인 필요: ");
                let line = first_line_of(stderr.as_str());
                reason.append(line.as_str());
                Err(reason)
            }
        },
        CommandOutcome::NotStarted(why) => {
            let mut reason = String::from_str("AWS CLI 실행 실패: ");
            reason.append(why.as_str());
            Err(reason)
        },
    }
}

} // verus!
