use swaydoc_render::RenderPlan;
use swaydoc_render::Renderable;
use swaydoc_render::context::Context;
use swaydoc_render::context::ContextEntry;
use swaydoc_render::context::ContextKind;
use swaydoc_render::context::ItemContext;
use swaydoc_render::decl::BlockTitle;
use swaydoc_render::decl::DeclKind;
use swaydoc_render::decl::DocStyle;
use swaydoc_render::escape::escape_html;
use swaydoc_render::module_info::ModuleInfo;
use swaydoc_render::sidebar::Sidebar;

fn mi(segs: &[&str]) -> ModuleInfo {
    ModuleInfo { module_prefixes: segs.iter().map(|s| s.to_string()).collect() }
}

fn fields_context(names: &[&str]) -> ItemContext {
    ItemContext {
        context_opt: Some(Context {
            kind: ContextKind::Fields,
            entries: names
                .iter()
                .map(|n| ContextEntry { name: n.to_string(), markup: String::new() })
                .collect(),
        }),
    }
}

#[test]
fn escape_neutralizes_markup_characters() {
    assert_eq!(escape_html("<a href=\"x\">&"), "&lt;a href=&quot;x&quot;&gt;&amp;");
    assert_eq!(escape_html("plain_name"), "plain_name");
    assert_eq!(escape_html(""), "");
}

#[test]
fn kind_tags_are_total_and_stable() {
    let expected: &[(DeclKind, &str, &str, &str)] = &[
        (DeclKind::Struct, "struct", "struct", "Struct"),
        (DeclKind::Enum, "enum", "enum", "Enum"),
        (DeclKind::Trait, "trait", "trait", "Trait"),
        (DeclKind::Abi, "abi", "abi", "Abi"),
        (DeclKind::Function, "fn", "function", "Function"),
        (DeclKind::Constant, "constant", "constant", "Constant"),
        (DeclKind::Storage, "storage", "contract storage", "Contract Storage"),
        (DeclKind::TypeAlias, "type", "type alias", "Type Alias"),
    ];
    for (kind, tag, friendly, title) in expected {
        assert_eq!(&kind.doc_name(), tag);
        assert_eq!(&kind.friendly_name(), friendly);
        assert_eq!(&kind.as_block_title().item_title_str(), title);
    }
}

#[test]
fn doclinks_one_per_entry_in_order() {
    let ctx = fields_context(&["x", "y"]);
    let links = ctx.to_doclinks();
    assert_eq!(links.len(), 2);
    assert_eq!(links[0].name, "x");
    assert_eq!(links[0].href, "#structfield.x");
    assert_eq!(links[1].name, "y");
    assert_eq!(links[1].href, "#structfield.y");
}

#[test]
fn doclinks_empty_without_substructure() {
    let ctx = ItemContext { context_opt: None };
    assert!(ctx.to_doclinks().is_empty());
    assert!(ctx.render(RenderPlan::new()).is_none());
}

#[test]
fn context_render_emits_every_doclink_anchor_in_order() {
    let ctx = fields_context(&["first", "second"]);
    let html = ctx.render(RenderPlan::new()).unwrap();
    assert!(html.contains("<h2 id=\"fields\" class=\"small-section-header\">Fields</h2>"));
    let first = html.find("id=\"structfield.first\"").unwrap();
    let second = html.find("id=\"structfield.second\"").unwrap();
    assert!(first < second);
    // Every href that to_doclinks hands the sidebar points at an id that
    // the rendered substructure actually carries.
    for link in ctx.to_doclinks() {
        let id = link.href.strip_prefix('#').unwrap();
        assert!(html.contains(&format!("id=\"{}\"", id)));
    }
}

#[test]
fn variant_and_method_entries_use_their_own_prefixes() {
    let variants = ItemContext {
        context_opt: Some(Context {
            kind: ContextKind::Variants,
            entries: vec![ContextEntry { name: "A".to_string(), markup: String::new() }],
        }),
    };
    assert_eq!(variants.to_doclinks()[0].href, "#variant.A");
    let methods = ItemContext {
        context_opt: Some(Context {
            kind: ContextKind::RequiredMethods,
            entries: vec![ContextEntry { name: "get".to_string(), markup: String::new() }],
        }),
    };
    assert_eq!(methods.to_doclinks()[0].href, "#tymethod.get");
}

#[test]
fn sidebar_renders_doclinks_verbatim_in_order() {
    let ctx = fields_context(&["x", "y"]);
    let sidebar = Sidebar::new(
        None,
        DocStyle::Item {
            title: Some(BlockTitle::Structs),
            name: Some("Point".to_string()),
        },
        mi(&["mypkg", "data"]),
        ctx.to_doclinks(),
    );
    let html = sidebar.render(RenderPlan::new()).unwrap();
    assert!(html.contains("<h2 class=\"location\">Struct Point</h2>"));
    let x = html.find("<li><a href=\"#structfield.x\">x</a></li>").unwrap();
    let y = html.find("<li><a href=\"#structfield.y\">y</a></li>").unwrap();
    assert!(x < y);
    assert_eq!(html.matches("<li>").count(), 2);
}

#[test]
fn sidebar_with_no_doclinks_keeps_the_shell() {
    let sidebar = Sidebar::new(
        None,
        DocStyle::Item {
            title: Some(BlockTitle::Functions),
            name: Some("main".to_string()),
        },
        mi(&[]),
        Vec::new(),
    );
    let html = sidebar.render(RenderPlan::new()).unwrap();
    assert!(html.starts_with("<nav class=\"sidebar\">"));
    assert!(html.ends_with("</nav>"));
    assert!(html.contains("<ul></ul>"));
    assert!(html.contains("<div class=\"breadcrumbs\"></div>"));
}

#[test]
fn sidebar_module_index_style_and_version() {
    let sidebar = Sidebar::new(
        Some("0.1.0".to_string()),
        DocStyle::ModuleIndex,
        mi(&["mypkg"]),
        Vec::new(),
    );
    let html = sidebar.render(RenderPlan::new()).unwrap();
    assert!(html.contains("<div class=\"version\"><p>0.1.0</p></div>"));
    assert!(html.contains("<h2 class=\"location\">Modules</h2>"));
}

#[test]
fn sidebar_fails_only_on_unresolvable_path() {
    let sidebar = Sidebar::new(None, DocStyle::ModuleIndex, mi(&["", "data"]), Vec::new());
    assert!(sidebar.render(RenderPlan::new()).is_err());
}

#[test]
fn sidebar_escapes_the_item_name_label() {
    let sidebar = Sidebar::new(
        None,
        DocStyle::Item {
            title: Some(BlockTitle::Structs),
            name: Some("A<B>".to_string()),
        },
        mi(&[]),
        Vec::new(),
    );
    let html = sidebar.render(RenderPlan::new()).unwrap();
    assert!(html.contains("Struct A&lt;B&gt;"));
}
