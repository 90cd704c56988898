//! The `<head>` region of an item page: metadata, title and asset links,
//! all module-relative. Identifiers and prose are escaped before they are
//! interpolated, so no item name can break out of an attribute value.

use vstd::prelude::*;

use crate::RenderError;
use crate::RenderPlan;
use crate::Renderable;
use crate::assets::favicon_asset;
use crate::assets::normalize_asset;
use crate::assets::syntax_theme_asset;
use crate::assets::syntax_theme_min_asset;
use crate::assets::theme_asset;
use crate::escape::escape_html;
use crate::escape::escaped;
use crate::module_info::ModuleInfo;
use crate::module_info::asset_path;
use crate::module_info::location_of;

verus! {

/// All components needed to render the head portion of an item page.
pub struct ItemHeader {
    pub module_info: ModuleInfo,
    pub friendly_name: String,
    pub item_name: String,
}

/// The whole head fragment: charset, viewport and generator metadata, the
/// escaped description and keyword metadata, the favicon link, the page
/// title, and the four stylesheet links, every asset module-relative.
pub open spec fn header_html(h: ItemHeader) -> Seq<char> {
    let segs = h.module_info.segments();
    "<head><meta charset=\"utf-8\"/><meta name=\"viewport\" content=\"width=device-width, initial-scale=1.0\"/><meta name=\"generator\" content=\"swaydoc\"/><meta name=\"description\" content=\"API documentation for the Sway `"@
        + escaped(h.item_name@) + "` "@ + escaped(h.friendly_name@) + " in `"@ + escaped(
        location_of(segs),
    ) + "`.\"/><meta name=\"keywords\" content=\"sway, swaylang, sway-lang, "@ + escaped(
        h.item_name@,
    ) + "\"/><link rel=\"icon\" href=\""@ + asset_path(segs.len(), "assets/sway-logo.svg"@)
        + "\"/><title>"@ + escaped(h.item_name@) + " in "@ + escaped(location_of(segs))
        + " - Sway</title><link rel=\"stylesheet\" type=\"text/css\" href=\""@ + asset_path(
        segs.len(),
        "assets/normalize.css"@,
    ) + "\"/><link rel=\"stylesheet\" type=\"text/css\" href=\""@ + asset_path(
        segs.len(),
        "assets/swaydoc.css"@,
    ) + "\" id=\"mainThemeStyle\"/><link rel=\"stylesheet\" type=\"text/css\" href=\""@
        + asset_path(segs.len(), "assets/ayu.css"@) + "\"/><link rel=\"stylesheet\" href=\""@
        + asset_path(segs.len(), "assets/ayu.min.css"@) + "\"/></head>"@
}

impl Renderable for ItemHeader {
    /// Building the head is a pure function of the header's own data and
    /// never fails.
    open spec fn renders(&self) -> bool {
        true
    }

    open spec fn fragment(&self) -> Seq<char> {
        header_html(*self)
    }

    /// Renders the head fragment.
    fn render(&self, _render_plan: RenderPlan) -> (r: Result<String, RenderError>) {
        let name_esc = escape_html(self.item_name.as_str());
        let friendly_esc = escape_html(self.friendly_name.as_str());
        let loc = self.module_info.location();
        let loc_esc = escape_html(loc.as_str());
        let favicon = self.module_info.to_html_shorthand_path_string(favicon_asset());
        let normalize = self.module_info.to_html_shorthand_path_string(normalize_asset());
        let swaydoc = self.module_info.to_html_shorthand_path_string(theme_asset());
        let ayu = self.module_info.to_html_shorthand_path_string(syntax_theme_asset());
        let ayu_min = self.module_info.to_html_shorthand_path_string(syntax_theme_min_asset());
        let mut out = String::from_str(
            "<head><meta charset=\"utf-8\"/><meta name=\"viewport\" content=\"width=device-width, initial-scale=1.0\"/><meta name=\"generator\" content=\"swaydoc\"/><meta name=\"description\" content=\"API documentation for the Sway `",
        );
        out.append(name_esc.as_str());
        out.append("` ");
        out.append(friendly_esc.as_str());
        out.append(" in `");
        out.append(loc_esc.as_str());
        out.append("`.\"/><meta name=\"keywords\" content=\"sway, swaylang, sway-lang, ");
        out.append(name_esc.as_str());
        out.append("\"/><link rel=\"icon\" href=\"");
        out.append(favicon.as_str());
        out.append("\"/><title>");
        out.append(name_esc.as_str());
        out.append(" in ");
        out.append(loc_esc.as_str());
        out.append(" - Sway</title><link rel=\"stylesheet\" type=\"text/css\" href=\"");
        out.append(normalize.as_str());
        out.append("\"/><link rel=\"stylesheet\" type=\"text/css\" href=\"");
        out.append(swaydoc.as_str());
        out.append("\" id=\"mainThemeStyle\"/><link rel=\"stylesheet\" type=\"text/css\" href=\"");
        out.append(ayu.as_str());
        out.append("\"/><link rel=\"stylesheet\" href=\"");
        out.append(ayu_min.as_str());
        out.append("\"/></head>");
        Ok(out)
    }
}

} // verus!
