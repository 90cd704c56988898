//! Composition engine for one page of a statically generated documentation
//! site: it assembles the page's regions (head, sidebar, main content,
//! optional substructure) and resolves every asset and cross-page link
//! relative to the page's depth in the module hierarchy, so that the same
//! rendering logic is correct at any nesting depth.

use vstd::prelude::*;

pub mod assets;
pub mod body;
pub mod context;
pub mod decl;
pub mod escape;
pub mod header;
pub mod laws;
pub mod module_info;
pub mod sidebar;

verus! {

/// Site-wide rendering configuration, shared read-only by every render
/// call. Today's renders read nothing from it; it is threaded through so
/// that every component keeps the one common render signature.
#[derive(Clone, Copy, Debug)]
pub struct RenderPlan {
    /// Whether generated pages may assume a packaged asset directory
    /// beside the site root. All canonical assets live there.
    pub packaged_assets: bool,
}

impl RenderPlan {
    /// The default plan: assets packaged beside the site root.
    pub fn new() -> (p: RenderPlan)
        ensures
            p.packaged_assets,
    {
        RenderPlan { packaged_assets: true }
    }
}

/// Why composing a page can fail. Rendering is a pure transformation of
/// already-valid data, so the only recoverable failure is that the module
/// path could not be resolved to breadcrumb anchors.
#[derive(Clone, Copy, Debug, PartialEq, Eq, Structural)]
pub enum RenderError {
    /// A module path segment with an empty name cannot be resolved to an
    /// anchor: the page's position in the hierarchy is inconsistent.
    PathResolution,
}

/// The common capability of every page component: given the rendering
/// configuration, produce a document fragment or fail. Each component
/// says through `renders` exactly when it succeeds and through
/// `fragment` exactly what it produces — a function of the component
/// alone, so rendering is deterministic for every implementor.
pub trait Renderable {
    /// Whether rendering this component succeeds.
    spec fn renders(&self) -> bool;

    /// The fragment this component renders when it succeeds.
    spec fn fragment(&self) -> Seq<char>;

    /// Renders the component: the whole fragment, or a failure with no
    /// partial fragment emitted.
    fn render(&self, render_plan: RenderPlan) -> (r: Result<String, RenderError>)
        ensures
            r is Ok <==> self.renders(),
            r is Ok ==> r->Ok_0@ == self.fragment(),
            r is Err ==> r->Err_0 == RenderError::PathResolution,
    ;
}

impl RenderError {
    /// A short human-readable account of the failure.
    pub fn describe(&self) -> (r: &'static str)
        ensures
            r@ == "module path could not be resolved to anchors"@,
    {
        "module path could not be resolved to anchors"
    }
}

} // verus!
