//! A module's position in the site hierarchy, and the path arithmetic that
//! makes every asset and cross-page link correct at any nesting depth.

use vstd::prelude::*;

use crate::RenderError;

verus! {

/// The position of the current page's module: the ordered path segments
/// from the site root down to the module that owns the page. The page is
/// written `segments` directories below the site root, so reaching the
/// root takes one parent-directory hop per segment.
pub struct ModuleInfo {
    pub module_prefixes: Vec<String>,
}

/// `count` parent-directory hops: `../` repeated `count` times.
pub open spec fn parent_hops(count: nat) -> Seq<char>
    decreases count,
{
    if count == 0 {
        Seq::empty()
    } else {
        parent_hops((count - 1) as nat) + "../"@
    }
}

/// The path of `asset` as seen from a page `depth` directories below the
/// site root: `depth` parent hops, then the canonical asset location. At
/// depth zero the prefix is empty, not `./`.
pub open spec fn asset_path(depth: nat, asset: Seq<char>) -> Seq<char> {
    parent_hops(depth) + asset
}

/// The first `upto` segments joined with `::`.
pub open spec fn location_prefix(segs: Seq<Seq<char>>, upto: nat) -> Seq<char>
    decreases upto,
{
    if upto == 0 {
        Seq::empty()
    } else if upto == 1 {
        segs[0]
    } else {
        location_prefix(segs, (upto - 1) as nat) + "::"@ + segs[upto - 1]
    }
}

/// The display path of a module: its segments joined with `::`.
pub open spec fn location_of(segs: Seq<Seq<char>>) -> Seq<char> {
    location_prefix(segs, segs.len())
}

/// The href of breadcrumb `i`: the index page of the module that segment
/// `i` names, reached from a page at the bottom of `segs`.
pub open spec fn crumb_href(segs: Seq<Seq<char>>, i: int) -> Seq<char> {
    parent_hops((segs.len() - 1 - i) as nat) + "index.html"@
}

/// The markup of breadcrumb anchor `i`: a link to the index page of the
/// module that segment `i` names, labelled with the segment itself.
pub open spec fn anchor_html(segs: Seq<Seq<char>>, i: int) -> Seq<char> {
    "<a class=\"mod\" href=\""@ + crumb_href(segs, i) + "\">"@ + segs[i] + "</a>::"@
}

/// All breadcrumb anchors of a page, one per segment, in order.
pub open spec fn anchors_of(segs: Seq<Seq<char>>) -> Seq<Seq<char>> {
    Seq::new(segs.len(), |i: int| anchor_html(segs, i))
}

/// The first `upto` breadcrumb anchors, concatenated in order.
pub open spec fn anchors_html_concat(segs: Seq<Seq<char>>, upto: nat) -> Seq<char>
    decreases upto,
{
    if upto == 0 {
        Seq::empty()
    } else {
        anchors_html_concat(segs, (upto - 1) as nat) + anchor_html(segs, upto - 1)
    }
}

impl ModuleInfo {
    /// The path segments as a sequence of character sequences.
    pub open spec fn segments(&self) -> Seq<Seq<char>> {
        Seq::new(self.module_prefixes@.len(), |i: int| self.module_prefixes@[i]@)
    }

    /// Every segment can be resolved to a breadcrumb anchor: none has an
    /// empty name.
    pub open spec fn resolvable(&self) -> bool {
        forall|i: int| 0 <= i < self.segments().len() ==> (#[trigger] self.segments()[i]).len() > 0
    }

    /// How many directories below the site root the page is written.
    pub fn depth(&self) -> (d: usize)
        ensures
            d == self.segments().len(),
    {
        self.module_prefixes.len()
    }

    /// The module-relative path of a shared asset: one `../` hop per
    /// level of depth, then the canonical asset location.
    pub fn to_html_shorthand_path_string(&self, s: &str) -> (r: String)
        ensures
            r@ == asset_path(self.segments().len(), s@),
    {
        let d = self.module_prefixes.len();
        let mut out = String::new();
        assert(out@ =~= parent_hops(0));
        let mut i: usize = 0;
        while i < d
            invariant
                i <= d,
                out@ == parent_hops(i as nat),
            decreases d - i,
        {
            out.append("../");
            i = i + 1;
        }
        out.append(s);
        out
    }

    /// The display path of the module, its segments joined with `::`.
    pub fn location(&self) -> (r: String)
        ensures
            r@ == location_of(self.segments()),
    {
        let d = self.module_prefixes.len();
        let mut out = String::new();
        assert(out@ =~= location_prefix(self.segments(), 0));
        let mut i: usize = 0;
        while i < d
            invariant
                i <= d,
                d == self.segments().len(),
                out@ == location_prefix(self.segments(), i as nat),
            decreases d - i,
        {
            if i > 0 {
                out.append("::");
            }
            out.append(self.module_prefixes[i].as_str());
            assert(out@ =~= location_prefix(self.segments(), (i + 1) as nat));
            i = i + 1;
        }
        out
    }

    /// One breadcrumb anchor per segment, in order: each links to the
    /// index page of the module its segment names, so that clicking any
    /// breadcrumb from any depth lands on the right intermediate index.
    /// Fails, with nothing produced, if and only if some segment has an
    /// empty name.
    pub fn get_anchors(&self) -> (r: Result<Vec<String>, RenderError>)
        ensures
            r is Ok <==> self.resolvable(),
            r is Ok ==> r->Ok_0@.len() == self.segments().len(),
            r is Ok ==> forall|i: int|
                0 <= i < self.segments().len() ==> (#[trigger] r->Ok_0@[i])@ == anchor_html(
                    self.segments(),
                    i,
                ),
            r is Err ==> r->Err_0 == RenderError::PathResolution,
    {
        let ghost segs = self.segments();
        let d = self.module_prefixes.len();
        let mut out: Vec<String> = Vec::new();
        let mut i: usize = 0;
        while i < d
            invariant
                i <= d,
                d == segs.len(),
                segs == self.segments(),
                out@.len() == i,
                forall|j: int| 0 <= j < i ==> (#[trigger] out@[j])@ == anchor_html(segs, j),
                forall|j: int| 0 <= j < i ==> (#[trigger] segs[j]).len() > 0,
            decreases d - i,
        {
            let seg = self.module_prefixes[i].as_str();
            if seg.is_empty() {
                assert(segs[i as int].len() == 0);
                return Err(RenderError::PathResolution);
            }
            let hops = d - 1 - i;
            let mut a = String::from_str("<a class=\"mod\" href=\"");
            let ghost opening = a@;
            assert(a@ =~= opening + parent_hops(0));
            let mut j: usize = 0;
            while j < hops
                invariant
                    j <= hops,
                    a@ == opening + parent_hops(j as nat),
                decreases hops - j,
            {
                a.append("../");
                j = j + 1;
            }
            a.append("index.html");
            assert(a@ =~= opening + crumb_href(segs, i as int)) by {
                assert(hops as nat == (segs.len() - 1 - i) as nat);
            }
            a.append("\">");
            a.append(seg);
            a.append("</a>::");
            assert(a@ == anchor_html(segs, i as int));
            out.push(a);
            i = i + 1;
        }
        Ok(out)
    }

}

impl Clone for ModuleInfo {
    /// An equal position: the same segments in the same order.
    fn clone(&self) -> (r: ModuleInfo)
        ensures
            r.segments() == self.segments(),
    {
        let d = self.module_prefixes.len();
        let mut prefixes: Vec<String> = Vec::new();
        let mut i: usize = 0;
        while i < d
            invariant
                i <= d,
                d == self.segments().len(),
                prefixes@.len() == i,
                forall|j: int| 0 <= j < i ==> (#[trigger] prefixes@[j])@ == self.segments()[j],
            decreases d - i,
        {
            prefixes.push(self.module_prefixes[i].clone());
            i = i + 1;
        }
        let r = ModuleInfo { module_prefixes: prefixes };
        assert(r.segments() =~= self.segments());
        r
    }
}

} // verus!
