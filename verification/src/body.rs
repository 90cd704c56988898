//! The `<body>` of an item page: a fixed three-stage pipeline that derives
//! the sidebar, renders the substructure only when there is any, and
//! composes the final fragment — kind-tagged body class, sidebar, main
//! heading with breadcrumb anchors, the item's code block, the optional
//! expandable description, the optional substructure, and the highlighter
//! scripts.

use vstd::prelude::*;

use crate::RenderError;
use crate::RenderPlan;
use crate::Renderable;
use crate::assets::highlighter_asset;
use crate::context::ItemContext;
use crate::context::context_html;
use crate::context::doclinks_of;
use crate::context::links_views;
use crate::decl::DeclKind;
use crate::decl::DocStyle;
use crate::escape::escape_html;
use crate::escape::escaped;
use crate::module_info::ModuleInfo;
use crate::module_info::anchor_html;
use crate::module_info::anchors_html_concat;
use crate::module_info::asset_path;
use crate::sidebar::Sidebar;
use crate::sidebar::sidebar_html_core;
use crate::sidebar::style_heading_html;

verus! {

/// All components needed to render the body portion of an item page. Most
/// of the structure is the same for every item; the substructure differs
/// by kind (a struct's fields, a trait's methods) and may be absent.
pub struct ItemBody {
    pub module_info: ModuleInfo,
    pub decl: DeclKind,
    pub item_name: String,
    pub code_str: String,
    pub attrs_opt: Option<String>,
    pub item_context: ItemContext,
}

/// The sidebar an item page derives: item style with the declaration's
/// block title and the item's name, the page's own position, and exactly
/// the doc-links of the page's context, in order.
pub open spec fn sidebar_derived_from(sb: Sidebar, b: ItemBody) -> bool {
    &&& sb.version_opt is None
    &&& sb.module_info.segments() == b.module_info.segments()
    &&& match sb.style {
        DocStyle::Item { title, name } => {
            &&& title == Option::Some(b.decl.block_title_spec())
            &&& match name {
                Option::Some(n) => n@ == b.item_name@,
                Option::None => false,
            }
        },
        _ => false,
    }
    &&& links_views(sb.nav@) == doclinks_of(b.item_context)
}

/// The heading of an item page's sidebar: block title, then the escaped
/// item name.
pub open spec fn item_page_heading(b: ItemBody) -> Seq<char> {
    "<h2 class=\"location\">"@ + (b.decl.block_title_spec().item_title_spec() + " "@) + escaped(
        b.item_name@,
    ) + "</h2>"@
}

/// Everything of the body up to where the optional regions begin: body
/// tag with the kind tag in its class, sidebar, main heading with the
/// title phrase, one clickable anchor per breadcrumb segment and the item
/// name as plain you-are-here text, then the item's code block.
pub open spec fn body_front(b: ItemBody) -> Seq<char> {
    let segs = b.module_info.segments();
    "<body class=\"swaydoc "@ + b.decl.doc_name_spec() + "\">"@ + sidebar_html_core(
        Option::None,
        item_page_heading(b),
        segs,
        doclinks_of(b.item_context),
    )
        + "<main><div class=\"width-limiter\"><section id=\"main-content\" class=\"content\"><div class=\"main-heading\"><h1 class=\"fqn\"><span class=\"in-band\">"@
        + b.decl.block_title_spec().item_title_spec() + " "@ + anchors_html_concat(
        segs,
        segs.len(),
    ) + "<span class=\""@ + b.decl.doc_name_spec() + "\">"@ + escaped(b.item_name@)
        + "</span></span></h1></div><div class=\"docblock item-decl\"><pre class=\"sway "@
        + b.decl.doc_name_spec() + "\"><code>"@ + escaped(b.code_str@) + "</code></pre></div>"@
}

/// The expandable description block: emitted only when a description was
/// extracted, and then in the expanded state, holding the pre-rendered
/// description markup verbatim.
pub open spec fn desc_region_html(attrs_opt: Option<String>) -> Seq<char> {
    match attrs_opt {
        Option::None => Seq::empty(),
        Option::Some(
            a,
        ) => "<details class=\"swaydoc-toggle top-doc\" open><summary class=\"hideme\"><span>Expand description</span></summary><div class=\"docblock\">"@
            + a@ + "</div></details>"@,
    }
}

/// The substructure region: the context's fragment when there is any,
/// nothing otherwise — no empty wrapper.
pub open spec fn context_region_html(ctx: ItemContext) -> Seq<char> {
    match ctx.context_opt {
        Option::None => Seq::empty(),
        Option::Some(c) => context_html(c),
    }
}

/// The closing part of the body: end of the main region, then the
/// module-relative highlighter script and the statement that activates
/// it.
pub open spec fn body_back(b: ItemBody) -> Seq<char> {
    "</section></div></main><script src=\""@ + asset_path(
        b.module_info.segments().len(),
        "assets/highlight.js"@,
    ) + "\"></script><script>hljs.highlightAll();</script></body>"@
}

/// The whole body fragment: the fixed front, then the description region
/// only if a description is present, then the substructure region only if
/// there is substructure — in that order — then the fixed back.
pub open spec fn body_html(b: ItemBody) -> Seq<char> {
    body_front(b) + desc_region_html(b.attrs_opt) + context_region_html(b.item_context)
        + body_back(b)
}

impl ItemBody {
    /// Derives the page's sidebar: item style with this declaration's
    /// block title and name, the page's position, and exactly the
    /// doc-links of this page's context.
    pub fn sidebar(&self) -> (sb: Sidebar)
        ensures
            sidebar_derived_from(sb, *self),
    {
        let style = DocStyle::Item {
            title: Option::Some(self.decl.as_block_title()),
            name: Option::Some(self.item_name.clone()),
        };
        Sidebar::new(
            Option::None,
            style,
            self.module_info.clone(),
            self.item_context.to_doclinks(),
        )
    }
}

impl Renderable for ItemBody {
    /// Rendering fails, with no partial page emitted, if and only if the
    /// module path cannot be resolved to anchors.
    open spec fn renders(&self) -> bool {
        self.module_info.resolvable()
    }

    open spec fn fragment(&self) -> Seq<char> {
        body_html(*self)
    }

    /// Renders the body fragment.
    fn render(&self, render_plan: RenderPlan) -> (r: Result<String, RenderError>) {
        let ghost segs = self.module_info.segments();
        let sb = self.sidebar();
        let sidebar_str = match sb.render(render_plan) {
            Ok(s) => s,
            Err(e) => {
                return Err(e);
            },
        };
        assert(style_heading_html(sb.style) == item_page_heading(*self));
        let anchors = match self.module_info.get_anchors() {
            Ok(a) => a,
            Err(e) => {
                return Err(e);
            },
        };
        let mut out = String::from_str("<body class=\"swaydoc ");
        out.append(self.decl.doc_name());
        out.append("\">");
        out.append(sidebar_str.as_str());
        out.append(
            "<main><div class=\"width-limiter\"><section id=\"main-content\" class=\"content\"><div class=\"main-heading\"><h1 class=\"fqn\"><span class=\"in-band\">",
        );
        let bt = self.decl.as_block_title();
        out.append(bt.item_title_str());
        out.append(" ");
        let ghost before_crumbs = out@;
        assert(out@ =~= before_crumbs + anchors_html_concat(segs, 0));
        let n = anchors.len();
        let mut i: usize = 0;
        while i < n
            invariant
                i <= n,
                segs == self.module_info.segments(),
                n == segs.len(),
                anchors@.len() == n,
                forall|j: int| 0 <= j < n ==> (#[trigger] anchors@[j])@ == anchor_html(segs, j),
                out@ == before_crumbs + anchors_html_concat(segs, i as nat),
            decreases n - i,
        {
            out.append(anchors[i].as_str());
            assert(out@ =~= before_crumbs + anchors_html_concat(segs, (i + 1) as nat));
            i = i + 1;
        }
        out.append("<span class=\"");
        out.append(self.decl.doc_name());
        out.append("\">");
        let name_esc = escape_html(self.item_name.as_str());
        out.append(name_esc.as_str());
        out.append(
            "</span></span></h1></div><div class=\"docblock item-decl\"><pre class=\"sway ",
        );
        out.append(self.decl.doc_name());
        out.append("\"><code>");
        let code_esc = escape_html(self.code_str.as_str());
        out.append(code_esc.as_str());
        out.append("</code></pre></div>");
        assert(out@ == body_front(*self));
        let desc = render_description(&self.attrs_opt);
        out.append(desc.as_str());
        match self.item_context.render(render_plan) {
            Option::Some(ctx_str) => {
                out.append(ctx_str.as_str());
            },
            Option::None => {
                assert(out@ =~= body_front(*self) + desc_region_html(self.attrs_opt)
                    + context_region_html(self.item_context));
            },
        }
        out.append("</section></div></main><script src=\"");
        let hjs = self.module_info.to_html_shorthand_path_string(highlighter_asset());
        out.append(hjs.as_str());
        out.append("\"></script><script>hljs.highlightAll();</script></body>");
        assert(out@ =~= body_html(*self));
        Ok(out)
    }
}

/// Renders the expandable description block, or nothing when no
/// description is present.
fn render_description(attrs_opt: &Option<String>) -> (r: String)
    ensures
        r@ == desc_region_html(*attrs_opt),
{
    match attrs_opt {
        Option::None => {
            let r = String::new();
            assert(r@ =~= desc_region_html(Option::None));
            r
        },
        Option::Some(a) => {
            let mut r = String::from_str(
                "<details class=\"swaydoc-toggle top-doc\" open><summary class=\"hideme\"><span>Expand description</span></summary><div class=\"docblock\">",
            );
            r.append(a.as_str());
            r.append("</div></details>");
            r
        },
    }
}

} // verus!
