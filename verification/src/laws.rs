//! The library's laws, stated over the same spec functions the render
//! contracts use and proved for all inputs: depth invariance of asset
//! paths, breadcrumb/asset-path agreement, doclink/sidebar agreement,
//! conditional region omission, and deterministic rendering.

use vstd::prelude::*;

use crate::body::ItemBody;
use crate::body::body_back;
use crate::body::body_front;
use crate::body::body_html;
use crate::body::context_region_html;
use crate::body::desc_region_html;
use crate::body::sidebar_derived_from;
use crate::context::Context;
use crate::context::DocLinkView;
use crate::context::ItemContext;
use crate::context::doclinks_of;
use crate::context::entry_html;
use crate::context::entry_id;
use crate::context::link_href;
use crate::context::links_views;
use crate::escape::escaped;
use crate::module_info::anchor_html;
use crate::module_info::anchors_of;
use crate::module_info::asset_path;
use crate::module_info::crumb_href;
use crate::module_info::parent_hops;
use crate::sidebar::Sidebar;
use crate::sidebar::link_html;
use crate::sidebar::links_html;
use crate::sidebar::opt_str_view;
use crate::sidebar::sidebar_html_core;
use crate::sidebar::sidebar_shell_open;
use crate::sidebar::style_heading_html;

verus! {

/// A parent-hop prefix is exactly its hop count: three characters long
/// per hop, and every three-character slice at a hop boundary is `../`.
pub proof fn lemma_parent_hops_shape(d: nat)
    ensures
        parent_hops(d).len() == 3 * d,
        forall|k: int|
            0 <= k < d ==> #[trigger] parent_hops(d).subrange(3 * k, 3 * k + 3) == "../"@,
    decreases d,
{
    reveal_strlit("../");
    if d > 0 {
        lemma_parent_hops_shape((d - 1) as nat);
        assert forall|k: int|
            0 <= k < d implies #[trigger] parent_hops(d).subrange(3 * k, 3 * k + 3)
            == "../"@ by {
            if k < d - 1 {
                assert(parent_hops(d).subrange(3 * k, 3 * k + 3) =~= parent_hops(
                    (d - 1) as nat,
                ).subrange(3 * k, 3 * k + 3));
            } else {
                assert(parent_hops(d).subrange(3 * k, 3 * k + 3) =~= "../"@);
            }
        }
    }
}

/// Depth invariance: from a page `depth` directories below the site
/// root, the path of an asset is exactly `depth` parent-hop segments
/// followed by the literal canonical asset location, so resolving the
/// path relative to a page at that depth reaches the single canonical
/// asset wherever the page is nested.
pub proof fn lemma_asset_path_depth_invariance(depth: nat, asset: Seq<char>)
    ensures
        asset_path(depth, asset).len() == 3 * depth + asset.len(),
        asset_path(depth, asset).take(3 * depth as int) == parent_hops(depth),
        asset_path(depth, asset).skip(3 * depth as int) == asset,
        forall|k: int|
            0 <= k < depth ==> #[trigger] asset_path(depth, asset).subrange(3 * k, 3 * k + 3)
                == "../"@,
{
    lemma_parent_hops_shape(depth);
    assert(asset_path(depth, asset).take(3 * depth as int) =~= parent_hops(depth));
    assert(asset_path(depth, asset).skip(3 * depth as int) =~= asset);
    assert forall|k: int|
        0 <= k < depth implies #[trigger] asset_path(depth, asset).subrange(3 * k, 3 * k + 3)
        == "../"@ by {
        assert(asset_path(depth, asset).subrange(3 * k, 3 * k + 3) =~= parent_hops(
            depth,
        ).subrange(3 * k, 3 * k + 3));
    }
}

/// Breadcrumb/link consistency: a page has exactly one breadcrumb anchor
/// per path segment, in order; breadcrumb `i` carries segment `i` as its
/// label; and its href equals the asset path that a page would compute
/// for the index page of the intermediate module that segment `i` names —
/// the page lies `segs.subrange(i + 1, segs.len())` below that module.
pub proof fn lemma_breadcrumb_asset_path_agreement(segs: Seq<Seq<char>>, i: int)
    requires
        0 <= i < segs.len(),
    ensures
        anchors_of(segs).len() == segs.len(),
        anchors_of(segs)[i] == anchor_html(segs, i),
        anchor_html(segs, i) == "<a class=\"mod\" href=\""@ + crumb_href(segs, i) + "\">"@
            + segs[i] + "</a>::"@,
        crumb_href(segs, i) == asset_path(
            segs.subrange(i + 1, segs.len() as int).len(),
            "index.html"@,
        ),
{
    assert(segs.subrange(i + 1, segs.len() as int).len() == segs.len() - 1 - i);
}

/// Doclink/sidebar agreement: the sidebar derived from an item body
/// carries exactly the doc-links of the body's context — same set, same
/// order — and the rendered sidebar places exactly those links, one
/// rendered entry each and in that order, inside a navigation shell that
/// stands even when there are no links at all.
pub proof fn lemma_doclink_sidebar_agreement(b: ItemBody, sb: Sidebar)
    requires
        sidebar_derived_from(sb, b),
    ensures
        links_views(sb.nav@) == doclinks_of(b.item_context),
        b.item_context.context_opt is None ==> links_views(sb.nav@) =~= Seq::<
            DocLinkView,
        >::empty(),
        sidebar_html_core(
            opt_str_view(sb.version_opt),
            style_heading_html(sb.style),
            sb.module_info.segments(),
            links_views(sb.nav@),
        ) == sidebar_shell_open(
            opt_str_view(sb.version_opt),
            style_heading_html(sb.style),
            sb.module_info.segments(),
        ) + links_html(links_views(sb.nav@), links_views(sb.nav@).len())
            + "</ul></div></section></div></nav>"@,
        links_html(links_views(sb.nav@), 0) == Seq::<char>::empty(),
        forall|k: int|
            0 <= k < links_views(sb.nav@).len() ==> links_html(
                links_views(sb.nav@),
                (k + 1) as nat,
            ) == links_html(links_views(sb.nav@), k as nat) + link_html(links_views(sb.nav@)[k]),
{
    let links = links_views(sb.nav@);
    assert(sidebar_html_core(
        opt_str_view(sb.version_opt),
        style_heading_html(sb.style),
        sb.module_info.segments(),
        links,
    ) =~= sidebar_shell_open(
        opt_str_view(sb.version_opt),
        style_heading_html(sb.style),
        sb.module_info.segments(),
    ) + links_html(links, links.len()) + "</ul></div></section></div></nav>"@);
}

/// Every doc-link points at a section that exists on the page: link `i`
/// carries entry `i`'s name as its label, and its href is `#` followed by
/// exactly the anchor id that the rendered substructure gives entry `i` —
/// a dead or missing sidebar link cannot arise.
pub proof fn lemma_doclink_targets_rendered_anchors(c: Context, i: int)
    requires
        0 <= i < c.entries@.len(),
    ensures
        doclinks_of(ItemContext { context_opt: Option::Some(c) }).len() == c.entries@.len(),
        doclinks_of(ItemContext { context_opt: Option::Some(c) })[i].name == c.entries@[i].name@,
        doclinks_of(ItemContext { context_opt: Option::Some(c) })[i].href == seq!['#'] + entry_id(
            c.kind,
            c.entries@[i].name@,
        ),
        entry_html(c.kind, c.entries@[i]) == "<div class=\"item-entry\" id=\""@ + entry_id(
            c.kind,
            c.entries@[i].name@,
        ) + ("\"><span class=\"entry-name\">"@ + escaped(c.entries@[i].name@) + "</span>"@
            + c.entries@[i].markup@ + "</div>"@),
{
    reveal_strlit("#");
    assert(link_href(c.kind, c.entries@[i].name@) =~= seq!['#'] + entry_id(
        c.kind,
        c.entries@[i].name@,
    ));
    assert(entry_html(c.kind, c.entries@[i]) =~= "<div class=\"item-entry\" id=\""@ + entry_id(
        c.kind,
        c.entries@[i].name@,
    ) + ("\"><span class=\"entry-name\">"@ + escaped(c.entries@[i].name@) + "</span>"@
        + c.entries@[i].markup@ + "</div>"@));
}

/// Conditional region omission: the body is always the fixed front, then
/// the description region, then the substructure region, then the fixed
/// back — in that order. With no description the description region is
/// empty; with no substructure the substructure region is empty; with
/// neither, the body is exactly front and back with nothing between.
pub proof fn lemma_conditional_regions(b: ItemBody)
    ensures
        body_html(b) == body_front(b) + desc_region_html(b.attrs_opt) + context_region_html(
            b.item_context,
        ) + body_back(b),
        b.attrs_opt is None ==> desc_region_html(b.attrs_opt) == Seq::<char>::empty(),
        b.item_context.context_opt is None ==> context_region_html(b.item_context) == Seq::<
            char,
        >::empty(),
        b.attrs_opt is None && b.item_context.context_opt is None ==> body_html(b) =~= body_front(
            b,
        ) + body_back(b),
{
    if b.attrs_opt is None && b.item_context.context_opt is None {
        assert(body_html(b) =~= body_front(b) + body_back(b));
    }
}

/// Idempotence: the rendered body is a function of the item body alone —
/// the render contract pins the output to `body_html` and reads nothing
/// else — so any two renders of the same body agree byte for byte.
pub proof fn lemma_render_deterministic(b: ItemBody, first: Seq<char>, second: Seq<char>)
    requires
        first == body_html(b),
        second == body_html(b),
    ensures
        first == second,
{
}

} // verus!
