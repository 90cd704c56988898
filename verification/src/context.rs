//! The optional substructure region of a page (a struct's fields, an
//! enum's variants, a trait's required methods), and the doc-links it
//! surfaces in the sidebar. The two stay consistent by construction: the
//! links are derived from the same entries, in the same order, as the
//! rendered sections, and without substructure there are no links.

use vstd::prelude::*;

use crate::RenderPlan;
use crate::escape::escape_html;
use crate::escape::escaped;

verus! {

/// One in-page navigable section, surfaced in the sidebar: the anchor
/// text and the href that reaches the section on the page.
pub struct DocLink {
    pub name: String,
    pub href: String,
}

/// The mathematical content of a doc-link.
pub struct DocLinkView {
    pub name: Seq<char>,
    pub href: Seq<char>,
}

impl View for DocLink {
    type V = DocLinkView;

    open spec fn view(&self) -> DocLinkView {
        DocLinkView { name: self.name@, href: self.href@ }
    }
}

/// The views of a sequence of doc-links, in order.
pub open spec fn links_views(links: Seq<DocLink>) -> Seq<DocLinkView> {
    links.map_values(|l: DocLink| l@)
}

/// Which kind of substructure a page shows.
#[derive(Clone, Copy, Debug, PartialEq, Eq, Structural)]
pub enum ContextKind {
    Fields,
    Variants,
    RequiredMethods,
}

impl ContextKind {
    /// The heading of the substructure section.
    pub open spec fn section_title_spec(self) -> Seq<char> {
        match self {
            ContextKind::Fields => "Fields"@,
            ContextKind::Variants => "Variants"@,
            ContextKind::RequiredMethods => "Required Methods"@,
        }
    }

    /// The anchor id of the substructure section itself.
    pub open spec fn section_id_spec(self) -> Seq<char> {
        match self {
            ContextKind::Fields => "fields"@,
            ContextKind::Variants => "variants"@,
            ContextKind::RequiredMethods => "required-methods"@,
        }
    }

    /// The prefix of every entry's anchor id, discriminating entry kinds.
    pub open spec fn entry_prefix_spec(self) -> Seq<char> {
        match self {
            ContextKind::Fields => "structfield"@,
            ContextKind::Variants => "variant"@,
            ContextKind::RequiredMethods => "tymethod"@,
        }
    }

    /// The heading of the substructure section.
    pub fn section_title(&self) -> (r: &'static str)
        ensures
            r@ == self.section_title_spec(),
    {
        match self {
            ContextKind::Fields => "Fields",
            ContextKind::Variants => "Variants",
            ContextKind::RequiredMethods => "Required Methods",
        }
    }

    /// The anchor id of the substructure section itself.
    pub fn section_id(&self) -> (r: &'static str)
        ensures
            r@ == self.section_id_spec(),
    {
        match self {
            ContextKind::Fields => "fields",
            ContextKind::Variants => "variants",
            ContextKind::RequiredMethods => "required-methods",
        }
    }

    /// The prefix of every entry's anchor id, discriminating entry kinds.
    pub fn entry_prefix(&self) -> (r: &'static str)
        ensures
            r@ == self.entry_prefix_spec(),
    {
        match self {
            ContextKind::Fields => "structfield",
            ContextKind::Variants => "variant",
            ContextKind::RequiredMethods => "tymethod",
        }
    }
}

/// One entry of a substructure section: the declared name and its
/// already-rendered markup, kept in declaration order.
pub struct ContextEntry {
    pub name: String,
    pub markup: String,
}

/// A populated substructure section.
pub struct Context {
    pub kind: ContextKind,
    pub entries: Vec<ContextEntry>,
}

/// The optional substructure region of a page: present only for item
/// kinds that have substructure to show.
pub struct ItemContext {
    pub context_opt: Option<Context>,
}

/// The anchor id of entry `name` in a section of `kind` (what the
/// doc-link's href points at, without the leading `#`).
pub open spec fn entry_id(kind: ContextKind, name: Seq<char>) -> Seq<char> {
    kind.entry_prefix_spec() + "."@ + name
}

/// The href a doc-link uses to reach entry `name` of a section of `kind`.
pub open spec fn link_href(kind: ContextKind, name: Seq<char>) -> Seq<char> {
    "#"@ + kind.entry_prefix_spec() + "."@ + name
}

/// The doc-links an item context derives: one per entry, in declaration
/// order; none at all when there is no substructure.
pub open spec fn doclinks_of(ctx: ItemContext) -> Seq<DocLinkView> {
    match ctx.context_opt {
        Option::None => Seq::empty(),
        Option::Some(c) => Seq::new(
            c.entries@.len(),
            |i: int|
                DocLinkView {
                    name: c.entries@[i].name@,
                    href: link_href(c.kind, c.entries@[i].name@),
                },
        ),
    }
}

/// The markup of one substructure entry: an element whose id is the
/// entry's anchor id, holding the escaped entry name and the entry's
/// pre-rendered markup.
pub open spec fn entry_html(kind: ContextKind, e: ContextEntry) -> Seq<char> {
    "<div class=\"item-entry\" id=\""@ + kind.entry_prefix_spec() + "."@ + e.name@
        + "\"><span class=\"entry-name\">"@ + escaped(e.name@) + "</span>"@ + e.markup@
        + "</div>"@
}

/// The first `upto` entries of a section, rendered in declaration order.
pub open spec fn entries_html(kind: ContextKind, entries: Seq<ContextEntry>, upto: nat) -> Seq<
    char,
>
    decreases upto,
{
    if upto == 0 {
        Seq::empty()
    } else {
        entries_html(kind, entries, (upto - 1) as nat) + entry_html(kind, entries[upto - 1])
    }
}

/// The whole substructure fragment: the section heading, then every entry
/// in declaration order.
pub open spec fn context_html(c: Context) -> Seq<char> {
    "<h2 id=\""@ + c.kind.section_id_spec() + "\" class=\"small-section-header\">"@
        + c.kind.section_title_spec() + "</h2>"@ + entries_html(
        c.kind,
        c.entries@,
        c.entries@.len(),
    )
}

impl ItemContext {
    /// The doc-links of this context, one per entry in declaration order,
    /// and none when there is no substructure: the sidebar never
    /// references a section that does not exist on the page.
    pub fn to_doclinks(&self) -> (r: Vec<DocLink>)
        ensures
            links_views(r@) == doclinks_of(*self),
    {
        let mut out: Vec<DocLink> = Vec::new();
        match &self.context_opt {
            Option::None => {
                assert(links_views(out@) =~= doclinks_of(*self));
            },
            Option::Some(c) => {
                let n = c.entries.len();
                let mut i: usize = 0;
                while i < n
                    invariant
                        i <= n,
                        self.context_opt matches Option::Some(cc) && cc == *c,
                        n == c.entries@.len(),
                        out@.len() == i,
                        forall|j: int|
                            0 <= j < i ==> (#[trigger] out@[j])@ == doclinks_of(*self)[j],
                    decreases n - i,
                {
                    let name = c.entries[i].name.clone();
                    let mut href = String::from_str("#");
                    href.append(c.kind.entry_prefix());
                    href.append(".");
                    href.append(c.entries[i].name.as_str());
                    out.push(DocLink { name, href });
                    i = i + 1;
                }
                assert(links_views(out@) =~= doclinks_of(*self));
            },
        }
        out
    }

    /// Renders the substructure region, or nothing when there is none to
    /// show. Whenever a fragment is produced, its anchors are exactly the
    /// ones `to_doclinks` surfaces, in the same order.
    pub fn render(&self, _render_plan: RenderPlan) -> (r: Option<String>)
        ensures
            r is Some <==> self.context_opt is Some,
            r is Some ==> r->0@ == context_html(self.context_opt->0),
    {
        match &self.context_opt {
            Option::None => Option::None,
            Option::Some(c) => {
                let mut out = String::from_str("<h2 id=\"");
                out.append(c.kind.section_id());
                out.append("\" class=\"small-section-header\">");
                out.append(c.kind.section_title());
                out.append("</h2>");
                let ghost head = out@;
                assert(out@ =~= head + entries_html(c.kind, c.entries@, 0));
                let n = c.entries.len();
                let mut i: usize = 0;
                while i < n
                    invariant
                        i <= n,
                        self.context_opt matches Option::Some(cc) && cc == *c,
                        n == c.entries@.len(),
                        out@ == head + entries_html(c.kind, c.entries@, i as nat),
                    decreases n - i,
                {
                    let mut eh = String::from_str("<div class=\"item-entry\" id=\"");
                    eh.append(c.kind.entry_prefix());
                    eh.append(".");
                    eh.append(c.entries[i].name.as_str());
                    eh.append("\"><span class=\"entry-name\">");
                    let esc = escape_html(c.entries[i].name.as_str());
                    eh.append(esc.as_str());
                    eh.append("</span>");
                    eh.append(c.entries[i].markup.as_str());
                    eh.append("</div>");
                    assert(eh@ == entry_html(c.kind, c.entries@[i as int]));
                    out.append(eh.as_str());
                    assert(out@ =~= head + entries_html(c.kind, c.entries@, (i + 1) as nat));
                    i = i + 1;
                }
                assert(out@ == context_html(*c));
                Option::Some(out)
            },
        }
    }
}

} // verus!
