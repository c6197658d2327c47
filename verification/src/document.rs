//! Assembly of the exported document: a title, a table of contents where
//! there is more than one section, then one framed section for each
//! resource whose detail text is at hand, in the order of the resources.

use vstd::prelude::*;
use vstd::string::*;
use crate::blueprint::{Blueprint, BlueprintResource, BlueprintResourceView};
use crate::i18n::{I18n, Language};
use crate::text::{joined, numeral, push_numeral, views, Lines};

verus! {

/// The detail text of the resource at `index`, where one is at hand.
pub open spec fn body_at(bodies: Seq<Option<Seq<char>>>, index: int) -> Option<Seq<char>> {
    if 0 <= index < bodies.len() {
        bodies[index]
    } else {
        None
    }
}

/// The heading under which a resource is listed: its kind and its title.
pub open spec fn heading(resource: BlueprintResourceView) -> Seq<char> {
    resource.resource_type.label() + ": "@ + resource.title()
}

/// The anchor of the section of the resource at `index`.
pub open spec fn anchor(index: int) -> Seq<char> {
    "resource-"@ + numeral((index + 1) as nat)
}

/// The entry of the table of contents for the resource at `index`.
pub open spec fn toc_entry(index: int, resource: BlueprintResourceView) -> Seq<char> {
    "- ["@ + heading(resource) + "](#"@ + anchor(index) + ")"@
}

/// The lines that frame the section of the resource at `index`: its
/// anchor, an empty line, the detail text and an empty line.
pub open spec fn framed(index: int, body: Seq<char>) -> Seq<Seq<char>> {
    seq!["<a id=\""@ + anchor(index) + "\"></a>"@, Seq::empty(), body, Seq::empty()]
}

/// How many of the first `n` resources have their detail text at hand.
pub open spec fn included(bodies: Seq<Option<Seq<char>>>, n: int) -> int
    decreases n,
{
    if n <= 0 {
        0
    } else if body_at(bodies, n - 1) is Some {
        included(bodies, n - 1) + 1
    } else {
        included(bodies, n - 1)
    }
}

/// The indices among the first `n` of the resources whose detail text is
/// missing, in rising order.
pub open spec fn skipped(bodies: Seq<Option<Seq<char>>>, n: int) -> Seq<int>
    decreases n,
{
    if n <= 0 {
        Seq::empty()
    } else if body_at(bodies, n - 1) is Some {
        skipped(bodies, n - 1)
    } else {
        skipped(bodies, n - 1).push(n - 1)
    }
}

/// The entries of the table of contents for the first `n` resources.
pub open spec fn toc_entries(
    resources: Seq<BlueprintResourceView>,
    bodies: Seq<Option<Seq<char>>>,
    n: int,
) -> Seq<Seq<char>>
    decreases n,
{
    if n <= 0 {
        Seq::empty()
    } else if body_at(bodies, n - 1) is Some {
        toc_entries(resources, bodies, n - 1).push(toc_entry(n - 1, resources[n - 1]))
    } else {
        toc_entries(resources, bodies, n - 1)
    }
}

/// The framed sections of the first `n` resources.
pub open spec fn sections(bodies: Seq<Option<Seq<char>>>, n: int) -> Seq<Seq<char>>
    decreases n,
{
    if n <= 0 {
        Seq::empty()
    } else {
        match body_at(bodies, n - 1) {
            Some(body) => sections(bodies, n - 1) + framed(n - 1, body),
            None => sections(bodies, n - 1),
        }
    }
}

/// Every index that is recorded as skipped lies among the first `n`.
pub proof fn lemma_skipped_bounds(bodies: Seq<Option<Seq<char>>>, n: int)
    ensures
        forall|k: int|
            0 <= k < skipped(bodies, n).len() ==> 0 <= #[trigger] skipped(bodies, n)[k] < n,
    decreases n,
{
    if n > 0 {
        lemma_skipped_bounds(bodies, n - 1);
        let earlier = skipped(bodies, n - 1);
        assert forall|k: int| 0 <= k < skipped(bodies, n).len() implies 0 <= #[trigger] skipped(
            bodies,
            n,
        )[k] < n by {
            if k < earlier.len() {
                assert(skipped(bodies, n)[k] == earlier[k]);
            }
        }
    }
}

/// Every one of the first `n` resources is either shown in a section or
/// recorded as skipped.
pub proof fn lemma_shown_or_skipped(bodies: Seq<Option<Seq<char>>>, n: int)
    requires
        0 <= n,
    ensures
        included(bodies, n) + skipped(bodies, n).len() == n,
    decreases n,
{
    if n > 0 {
        lemma_shown_or_skipped(bodies, n - 1);
    }
}

/// Sections and entries of the table of contents follow the detail texts:
/// of the first `n` resources, each text gives one entry and one framed
/// section of four lines.
pub proof fn lemma_sections_follow_texts(
    resources: Seq<BlueprintResourceView>,
    bodies: Seq<Option<Seq<char>>>,
    n: int,
)
    requires
        0 <= n,
    ensures
        sections(bodies, n).len() == 4 * included(bodies, n),
        toc_entries(resources, bodies, n).len() == included(bodies, n),
    decreases n,
{
    if n > 0 {
        lemma_sections_follow_texts(resources, bodies, n - 1);
    }
}

/// The table of contents: present where more than one section follows.
pub open spec fn toc_lines(
    lang: Language,
    resources: Seq<BlueprintResourceView>,
    bodies: Seq<Option<Seq<char>>>,
) -> Seq<Seq<char>> {
    if included(bodies, resources.len() as int) > 1 {
        seq!["## "@ + lang.pick("ðŸ“‘ ëª©ì°¨"@, "ðŸ“‘ Table of Contents"@), Seq::empty()] + toc_entries(
            resources,
            bodies,
            resources.len() as int,
        ) + seq![Seq::empty()]
    } else {
        Seq::empty()
    }
}

/// The lines of the document.
pub open spec fn document_lines(
    lang: Language,
    title: Seq<char>,
    resources: Seq<BlueprintResourceView>,
    bodies: Seq<Option<Seq<char>>>,
) -> Seq<Seq<char>> {
    seq!["# "@ + title, Seq::empty()] + toc_lines(lang, resources, bodies) + sections(
        bodies,
        resources.len() as int,
    )
}

/// The text of the document: its lines, each closed by a line feed but the
/// last.
pub open spec fn document_text(
    lang: Language,
    title: Seq<char>,
    resources: Seq<BlueprintResourceView>,
    bodies: Seq<Option<Seq<char>>>,
) -> Seq<char> {
    joined(document_lines(lang, title, resources, bodies), "\n"@)
}

/// Detail texts as plain values.
pub open spec fn body_views(bodies: Seq<Option<String>>) -> Seq<Option<Seq<char>>> {
    Seq::new(
        bodies.len(),
        |i: int|
            match bodies[i] {
                Some(body) => Some(body@),
                None => None,
            },
    )
}

/// What is to be rendered.
pub enum Selection<'a> {
    /// One resource and its detail text.
    Detail { resource: &'a BlueprintResource, body: &'a str },
    /// A blueprint and, in the order of its resources, the detail text of
    /// each; `None`, or no entry at all, for a resource whose detail could
    /// not be fetched.
    Blueprint { blueprint: &'a Blueprint, bodies: &'a Vec<Option<String>> },
}

impl<'a> Selection<'a> {
    /// The title of the document.
    pub open spec fn title(self) -> Seq<char> {
        match self {
            Selection::Detail { resource, .. } => resource@.title(),
            Selection::Blueprint { blueprint, .. } => blueprint@.name,
        }
    }

    /// The resources of the selection.
    pub open spec fn resources(self) -> Seq<BlueprintResourceView> {
        match self {
            Selection::Detail { resource, .. } => seq![resource@],
            Selection::Blueprint { blueprint, .. } => blueprint@.resources,
        }
    }

    /// The detail texts of the selection.
    pub open spec fn bodies(self) -> Seq<Option<Seq<char>>> {
        match self {
            Selection::Detail { body, .. } => seq![Some(body@)],
            Selection::Blueprint { bodies, .. } => body_views(bodies@),
        }
    }
}

/// A rendered document.
#[derive(Debug)]
pub struct Document {
    /// The text to export.
    pub text: String,
    /// The indices of the resources that have no section, in rising order.
    pub skipped: Vec<usize>,
}

/// Indices as mathematical integers.
pub open spec fn index_views(indices: Seq<usize>) -> Seq<int> {
    Seq::new(indices.len(), |i: int| indices[i] as int)
}

/// Builds the title of a resource.
pub fn resource_title(resource: &BlueprintResource) -> (r: String)
    ensures
        r@ == resource@.title(),
{
    if resource.resource_name.as_str().is_empty() {
        resource.resource_id.clone()
    } else {
        resource.resource_name.clone()
    }
}

/// Builds the anchor of the section of the resource at `index`.
fn anchor_text(index: usize) -> (r: String)
    requires
        index < usize::MAX,
    ensures
        r@ == anchor(index as int),
{
    let mut out = String::from_str("resource-");
    push_numeral(&mut out, (index + 1) as u64);
    out
}

/// Builds the document's lines for a title, resources and detail texts.
fn render_lines(
    lang: Language,
    title: &str,
    resources: &Vec<BlueprintResource>,
    bodies: &Vec<Option<String>>,
) -> (r: Document)
    ensures
        r.text@ == document_text(lang, title@, views(resources@), body_views(bodies@)),
        index_views(r.skipped@) == skipped(body_views(bodies@), resources@.len() as int),
{
    let i18n = I18n::new(lang);
    let n: usize = resources.len();
    let ghost plain = body_views(bodies@);
    let ghost refs = views(resources@);
    // First pass: the table of contents and the record of what is missing.
    let mut entries = Lines::new();
    let mut missing: Vec<usize> = Vec::new();
    let mut count: usize = 0;
    let mut i: usize = 0;
    assert(index_views(missing@) =~= skipped(plain, 0));
    while i < n
        invariant
            n == resources@.len(),
            i <= n,
            plain == body_views(bodies@),
            refs == views(resources@),
            count == included(plain, i as int),
            count <= i,
            entries@ == toc_entries(refs, plain, i as int),
            index_views(missing@) == skipped(plain, i as int),
        decreases n - i,
    {
        let present = i < bodies.len() && bodies[i].is_some();
        assert(present == (body_at(plain, i as int) is Some));
        if present {
            let mut entry = String::from_str("- [");
            entry.append(resources[i].resource_type.display());
            entry.append(": ");
            entry.append(resource_title(&resources[i]).as_str());
            entry.append("](#");
            entry.append(anchor_text(i).as_str());
            entry.append(")");
            assert(entry@ =~= toc_entry(i as int, refs[i as int]));
            entries.push(entry);
            count += 1;
        } else {
            let ghost prior = missing@;
            missing.push(i);
            assert(index_views(missing@) =~= index_views(prior).push(i as int));
        }
        i += 1;
    }
    let mut lines = Lines::new();
    let mut head = String::from_str("# ");
    head.append(title);
    lines.push(head);
    lines.push(String::new());
    if count > 1 {
        let mut toc = String::from_str("## ");
        toc.append(i18n.toc());
        lines.push(toc);
        lines.push(String::new());
        let m: usize = entries.rows.len();
        let mut k: usize = 0;
        let ghost start = lines@;
        assert(lines@ =~= start + entries@.take(0));
        while k < m
            invariant
                m == entries.rows@.len(),
                k <= m,
                lines@ == start + entries@.take(k as int),
            decreases m - k,
        {
            lines.push(entries.rows[k].clone());
            assert(entries@.take(k + 1) =~= entries@.take(k as int).push(entries@[k as int]));
            k += 1;
            assert(lines@ =~= start + entries@.take(k as int));
        }
        assert(entries@.take(m as int) == entries@);
        lines.push(String::new());
    }
    assert(lines@ =~= seq!["# "@ + title@, Seq::empty()] + toc_lines(lang, refs, plain));
    let ghost top = lines@;
    let mut j: usize = 0;
    assert(lines@ =~= top + sections(plain, 0));
    while j < n
        invariant
            n == resources@.len(),
            j <= n,
            plain == body_views(bodies@),
            lines@ == top + sections(plain, j as int),
        decreases n - j,
    {
        if j < bodies.len() {
            match &bodies[j] {
                Some(body) => {
                    let mut mark = String::from_str("<a id=\"");
                    mark.append(anchor_text(j).as_str());
                    mark.append("\"></a>");
                    lines.push(mark);
                    lines.push(String::new());
                    lines.push(body.clone());
                    lines.push(String::new());
                    assert(plain[j as int] == Some(body@));
                    assert(lines@ =~= top + (sections(plain, j as int) + framed(j as int, body@)));
                },
                None => {},
            }
        }
        j += 1;
    }
    Document { text: lines.join("\n"), skipped: missing }
}

/// Renders the selection as one document in the given language. Resources
/// without a detail text get no section and are recorded as skipped; the
/// others keep their order.
pub fn render(selection: &Selection, lang: Language) -> (r: Document)
    ensures
        r.text@ == document_text(
            lang,
            selection.title(),
            selection.resources(),
            selection.bodies(),
        ),
        index_views(r.skipped@) == skipped(
            selection.bodies(),
            selection.resources().len() as int,
        ),
{
    match selection {
        Selection::Detail { resource, body } => {
            let title = resource_title(resource);
            let mut resources: Vec<BlueprintResource> = Vec::new();
            resources.push((*resource).clone());
            let mut bodies: Vec<Option<String>> = Vec::new();
            bodies.push(Some(String::from_str(body)));
            assert(views(resources@) =~= selection.resources());
            assert(body_views(bodies@) =~= selection.bodies());
            render_lines(lang, title.as_str(), &resources, &bodies)
        },
        Selection::Blueprint { blueprint, bodies } => render_lines(
            lang,
            blueprint.name.as_str(),
            &blueprint.resources,
            bodies,
        ),
    }
}

} // verus!
