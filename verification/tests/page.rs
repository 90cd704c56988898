use swaydoc_render::RenderPlan;
use swaydoc_render::Renderable;
use swaydoc_render::body::ItemBody;
use swaydoc_render::context::Context;
use swaydoc_render::context::ContextEntry;
use swaydoc_render::context::ContextKind;
use swaydoc_render::context::ItemContext;
use swaydoc_render::decl::DeclKind;
use swaydoc_render::header::ItemHeader;
use swaydoc_render::module_info::ModuleInfo;

fn mi(segs: &[&str]) -> ModuleInfo {
    ModuleInfo { module_prefixes: segs.iter().map(|s| s.to_string()).collect() }
}

fn point_body() -> ItemBody {
    ItemBody {
        module_info: mi(&["mypkg", "data"]),
        decl: DeclKind::Struct,
        item_name: "Point".to_string(),
        code_str: "struct Point {\n    x: u64,\n    y: u64,\n}".to_string(),
        attrs_opt: Some("<p>A point in the plane.</p>".to_string()),
        item_context: ItemContext {
            context_opt: Some(Context {
                kind: ContextKind::Fields,
                entries: vec![
                    ContextEntry { name: "x".to_string(), markup: String::new() },
                    ContextEntry { name: "y".to_string(), markup: String::new() },
                ],
            }),
        },
    }
}

fn root_function_body() -> ItemBody {
    ItemBody {
        module_info: mi(&[]),
        decl: DeclKind::Function,
        item_name: "main".to_string(),
        code_str: "fn main() {}".to_string(),
        attrs_opt: None,
        item_context: ItemContext { context_opt: None },
    }
}

#[test]
fn struct_page_header_at_depth_two() {
    let header = ItemHeader {
        module_info: mi(&["mypkg", "data"]),
        friendly_name: "struct".to_string(),
        item_name: "Point".to_string(),
    };
    let html = header.render(RenderPlan::new()).unwrap();
    assert!(html.contains("<title>Point in mypkg::data - Sway</title>"));
    assert!(html.contains(
        "API documentation for the Sway `Point` struct in `mypkg::data`."
    ));
    assert!(html.contains("<link rel=\"icon\" href=\"../../assets/sway-logo.svg\"/>"));
    assert_eq!(html.matches("href=\"../../assets/").count(), 5);
    assert!(html.contains("../../assets/normalize.css"));
    assert!(html.contains("../../assets/swaydoc.css"));
    assert!(html.contains("../../assets/ayu.css"));
    assert!(html.contains("../../assets/ayu.min.css"));
}

#[test]
fn header_escapes_the_item_identifier() {
    let header = ItemHeader {
        module_info: mi(&[]),
        friendly_name: "struct".to_string(),
        item_name: "A\"><script>".to_string(),
    };
    let html = header.render(RenderPlan::new()).unwrap();
    assert!(!html.contains("A\"><script>"));
    assert!(html.contains("A&quot;&gt;&lt;script&gt;"));
}

#[test]
fn struct_page_body_at_depth_two() {
    let body = point_body();
    let html = body.render(RenderPlan::new()).unwrap();
    assert!(html.starts_with("<body class=\"swaydoc struct\">"));
    // Main heading: title phrase, two clickable breadcrumb anchors, then
    // the item name as plain you-are-here text.
    assert!(html.contains(
        "<span class=\"in-band\">Struct <a class=\"mod\" href=\"../index.html\">mypkg</a>::\
         <a class=\"mod\" href=\"index.html\">data</a>::<span class=\"struct\">Point</span></span>"
    ));
    // Expanded description present.
    assert!(html.contains("<details class=\"swaydoc-toggle top-doc\" open>"));
    assert!(html.contains("<p>A point in the plane.</p>"));
    // Substructure block lists both fields in declaration order, each
    // with a sidebar entry.
    let x_section = html.find("id=\"structfield.x\"").unwrap();
    let y_section = html.find("id=\"structfield.y\"").unwrap();
    assert!(x_section < y_section);
    assert!(html.contains("<li><a href=\"#structfield.x\">x</a></li>"));
    assert!(html.contains("<li><a href=\"#structfield.y\">y</a></li>"));
    // Highlighter loaded module-relative and activated.
    assert!(html.contains("<script src=\"../../assets/highlight.js\"></script>"));
    assert!(html.ends_with("<script>hljs.highlightAll();</script></body>"));
}

#[test]
fn root_function_page_body() {
    let html = root_function_body().render(RenderPlan::new()).unwrap();
    // Depth zero: asset hrefs with no parent-hop prefix.
    assert!(html.contains("<script src=\"assets/highlight.js\"></script>"));
    // No expandable-description block, no substructure region.
    assert!(!html.contains("<details"));
    assert!(!html.contains("Expand description"));
    assert!(!html.contains("item-entry"));
    // Sidebar shows no breadcrumbs.
    assert!(html.contains("<div class=\"breadcrumbs\"></div>"));
}

#[test]
fn conditional_regions_both_present_in_order() {
    let html = point_body().render(RenderPlan::new()).unwrap();
    let desc = html.find("<details class=\"swaydoc-toggle top-doc\" open>").unwrap();
    let sub = html.find("<h2 id=\"fields\"").unwrap();
    assert!(desc < sub);
}

#[test]
fn conditional_regions_both_absent() {
    let mut body = point_body();
    body.attrs_opt = None;
    body.item_context = ItemContext { context_opt: None };
    let html = body.render(RenderPlan::new()).unwrap();
    assert!(!html.contains("swaydoc-toggle"));
    assert!(!html.contains("small-section-header"));
    assert!(!html.contains("item-entry"));
}

#[test]
fn rendering_twice_is_byte_identical() {
    let body = point_body();
    let first = body.render(RenderPlan::new()).unwrap();
    let second = body.render(RenderPlan::new()).unwrap();
    assert_eq!(first, second);
    let header = ItemHeader {
        module_info: mi(&["mypkg", "data"]),
        friendly_name: "struct".to_string(),
        item_name: "Point".to_string(),
    };
    assert_eq!(
        header.render(RenderPlan::new()).unwrap(),
        header.render(RenderPlan::new()).unwrap()
    );
}

#[test]
fn body_escapes_code_and_name_but_not_description_markup() {
    let mut body = point_body();
    body.code_str = "struct Point<T> { x: T }".to_string();
    body.item_name = "Point<T>".to_string();
    let html = body.render(RenderPlan::new()).unwrap();
    assert!(html.contains("<code>struct Point&lt;T&gt; { x: T }</code>"));
    assert!(html.contains("<span class=\"struct\">Point&lt;T&gt;</span>"));
    // The description was pre-rendered to markup upstream and stands
    // verbatim.
    assert!(html.contains("<p>A point in the plane.</p>"));
}

#[test]
fn body_render_fails_whole_page_on_unresolvable_path() {
    let mut body = point_body();
    body.module_info = mi(&["mypkg", ""]);
    let err = body.render(RenderPlan::new()).unwrap_err();
    assert_eq!(err, swaydoc_render::RenderError::PathResolution);
}

#[test]
fn derived_sidebar_matches_context_doclinks() {
    let body = point_body();
    let sidebar = body.sidebar();
    let links = body.item_context.to_doclinks();
    let nav = sidebar.nav;
    assert_eq!(nav.len(), links.len());
    for (a, b) in nav.iter().zip(links.iter()) {
        assert_eq!(a.name, b.name);
        assert_eq!(a.href, b.href);
    }
}
