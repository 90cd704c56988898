//! The per-page navigation tree: breadcrumb trail, a heading identifying
//! the current page, and the ordered doc-link list, all inside one
//! navigation shell that renders for every page — empty link lists render
//! an empty but valid shell, so the layout is uniform across item kinds.

use vstd::prelude::*;

use crate::RenderError;
use crate::RenderPlan;
use crate::Renderable;
use crate::context::DocLink;
use crate::context::DocLinkView;
use crate::context::links_views;
use crate::decl::BlockTitle;
use crate::decl::DocStyle;
use crate::escape::escape_html;
use crate::escape::escaped;
use crate::module_info::ModuleInfo;
use crate::module_info::anchor_html;
use crate::module_info::anchors_html_concat;

verus! {

/// The view of an optional string.
pub open spec fn opt_str_view(v: Option<String>) -> Option<Seq<char>> {
    match v {
        Option::None => Option::None,
        Option::Some(s) => Option::Some(s@),
    }
}

/// The project-version chip, shown only when a version is supplied.
pub open spec fn version_html(v: Option<Seq<char>>) -> Seq<char> {
    match v {
        Option::None => Seq::empty(),
        Option::Some(s) => "<div class=\"version\"><p>"@ + escaped(s) + "</p></div>"@,
    }
}

/// What an optional block title contributes to the sidebar heading.
pub open spec fn opt_title_html(t: Option<BlockTitle>) -> Seq<char> {
    match t {
        Option::None => Seq::empty(),
        Option::Some(bt) => bt.item_title_spec() + " "@,
    }
}

/// What an optional item name contributes to the sidebar heading.
pub open spec fn opt_name_html(n: Option<Seq<char>>) -> Seq<char> {
    match n {
        Option::None => Seq::empty(),
        Option::Some(s) => escaped(s),
    }
}

/// The heading that identifies what kind of page the sidebar navigates.
pub open spec fn style_heading_html(style: DocStyle) -> Seq<char> {
    match style {
        DocStyle::ModuleIndex => "<h2 class=\"location\">Modules</h2>"@,
        DocStyle::Item { title, name } => "<h2 class=\"location\">"@ + opt_title_html(title)
            + opt_name_html(opt_str_view(name)) + "</h2>"@,
    }
}

/// The markup of one sidebar entry: the doc-link rendered verbatim, its
/// href kept as derived and its label escaped.
pub open spec fn link_html(l: DocLinkView) -> Seq<char> {
    "<li><a href=\""@ + l.href + "\">"@ + escaped(l.name) + "</a></li>"@
}

/// The first `upto` sidebar entries, in order.
pub open spec fn links_html(links: Seq<DocLinkView>, upto: nat) -> Seq<char>
    decreases upto,
{
    if upto == 0 {
        Seq::empty()
    } else {
        links_html(links, (upto - 1) as nat) + link_html(links[upto - 1])
    }
}

/// The whole sidebar: the navigation shell holding the version chip, the
/// breadcrumb trail, the page heading, and the doc-links verbatim and in
/// order.
pub open spec fn sidebar_html_core(
    version: Option<Seq<char>>,
    heading: Seq<char>,
    segs: Seq<Seq<char>>,
    links: Seq<DocLinkView>,
) -> Seq<char> {
    "<nav class=\"sidebar\">"@ + version_html(version) + "<div class=\"breadcrumbs\">"@
        + anchors_html_concat(segs, segs.len()) + "</div>"@ + heading
        + "<div class=\"sidebar-elems\"><section><div class=\"block\"><ul>"@ + links_html(
        links,
        links.len(),
    ) + "</ul></div></section></div></nav>"@
}

/// Everything of the sidebar before the link list: the shell that
/// renders for every page, whether or not the page has doc-links.
pub open spec fn sidebar_shell_open(
    version: Option<Seq<char>>,
    heading: Seq<char>,
    segs: Seq<Seq<char>>,
) -> Seq<char> {
    "<nav class=\"sidebar\">"@ + version_html(version) + "<div class=\"breadcrumbs\">"@
        + anchors_html_concat(segs, segs.len()) + "</div>"@ + heading
        + "<div class=\"sidebar-elems\"><section><div class=\"block\"><ul>"@
}

/// The navigation tree of one page: what kind of page it is, where the
/// page stands in the hierarchy, and the in-page links to surface. A
/// computed view derived at render time, not an owned entity.
pub struct Sidebar {
    pub version_opt: Option<String>,
    pub style: DocStyle,
    pub module_info: ModuleInfo,
    pub nav: Vec<DocLink>,
}

impl Sidebar {
    /// Gathers the parts of a sidebar, unchanged.
    pub fn new(
        version_opt: Option<String>,
        style: DocStyle,
        module_info: ModuleInfo,
        nav: Vec<DocLink>,
    ) -> (s: Sidebar)
        ensures
            s.version_opt == version_opt,
            s.style == style,
            s.module_info == module_info,
            s.nav == nav,
    {
        Sidebar { version_opt, style, module_info, nav }
    }
}

impl Renderable for Sidebar {
    /// Rendering fails if and only if the module path cannot be resolved
    /// to breadcrumbs.
    open spec fn renders(&self) -> bool {
        self.module_info.resolvable()
    }

    open spec fn fragment(&self) -> Seq<char> {
        sidebar_html_core(
            opt_str_view(self.version_opt),
            style_heading_html(self.style),
            self.module_info.segments(),
            links_views(self.nav@),
        )
    }

    /// Renders the navigation region.
    fn render(&self, _render_plan: RenderPlan) -> (r: Result<String, RenderError>) {
        let ghost segs = self.module_info.segments();
        let anchors = match self.module_info.get_anchors() {
            Ok(a) => a,
            Err(e) => {
                return Err(e);
            },
        };
        let mut out = String::from_str("<nav class=\"sidebar\">");
        match &self.version_opt {
            Option::None => {
                assert(out@ =~= "<nav class=\"sidebar\">"@ + version_html(
                    opt_str_view(self.version_opt),
                ));
            },
            Option::Some(v) => {
                out.append("<div class=\"version\"><p>");
                let esc = escape_html(v.as_str());
                out.append(esc.as_str());
                out.append("</p></div>");
                assert(out@ =~= "<nav class=\"sidebar\">"@ + version_html(
                    opt_str_view(self.version_opt),
                ));
            },
        }
        out.append("<div class=\"breadcrumbs\">");
        let ghost before_crumbs = out@;
        assert(out@ =~= before_crumbs + anchors_html_concat(segs, 0));
        let n = anchors.len();
        let mut i: usize = 0;
        while i < n
            invariant
                i <= n,
                segs == self.module_info.segments(),
                n == segs.len(),
                anchors@.len() == n,
                forall|j: int| 0 <= j < n ==> (#[trigger] anchors@[j])@ == anchor_html(segs, j),
                out@ == before_crumbs + anchors_html_concat(segs, i as nat),
            decreases n - i,
        {
            out.append(anchors[i].as_str());
            assert(out@ =~= before_crumbs + anchors_html_concat(segs, (i + 1) as nat));
            i = i + 1;
        }
        out.append("</div>");
        let heading = render_heading(&self.style);
        out.append(heading.as_str());
        out.append("<div class=\"sidebar-elems\"><section><div class=\"block\"><ul>");
        let ghost before_links = out@;
        assert(out@ =~= before_links + links_html(links_views(self.nav@), 0));
        let m = self.nav.len();
        let mut k: usize = 0;
        while k < m
            invariant
                k <= m,
                m == self.nav@.len(),
                out@ == before_links + links_html(links_views(self.nav@), k as nat),
            decreases m - k,
        {
            let mut lh = String::from_str("<li><a href=\"");
            lh.append(self.nav[k].href.as_str());
            lh.append("\">");
            let esc = escape_html(self.nav[k].name.as_str());
            lh.append(esc.as_str());
            lh.append("</a></li>");
            assert(lh@ == link_html(links_views(self.nav@)[k as int]));
            out.append(lh.as_str());
            assert(out@ =~= before_links + links_html(links_views(self.nav@), (k + 1) as nat));
            k = k + 1;
        }
        out.append("</ul></div></section></div></nav>");
        Ok(out)
    }
}

/// Renders the heading that identifies the current page kind.
fn render_heading(style: &DocStyle) -> (r: String)
    ensures
        r@ == style_heading_html(*style),
{
    match style {
        DocStyle::ModuleIndex => String::from_str("<h2 class=\"location\">Modules</h2>"),
        DocStyle::Item { title, name } => {
            let mut out = String::from_str("<h2 class=\"location\">");
            match title {
                Option::None => {
                    assert(out@ =~= "<h2 class=\"location\">"@ + opt_title_html(*title));
                },
                Option::Some(bt) => {
                    out.append(bt.item_title_str());
                    out.append(" ");
                    assert(out@ =~= "<h2 class=\"location\">"@ + opt_title_html(*title));
                },
            }
            match name {
                Option::None => {
                    assert(out@ =~= "<h2 class=\"location\">"@ + opt_title_html(*title)
                        + opt_name_html(opt_str_view(*name)));
                },
                Option::Some(s) => {
                    let esc = escape_html(s.as_str());
                    out.append(esc.as_str());
                    assert(out@ =~= "<h2 class=\"location\">"@ + opt_title_html(*title)
                        + opt_name_html(opt_str_view(*name)));
                },
            }
            out.append("</h2>");
            out
        },
    }
}

} // verus!
