//! # Liquid templating
//!
//! Renders the simple index's page through a liquid template whose
//! `packages` variable receives the block of package links.
use vstd::prelude::*;

use crate::web::{Renderer, SimpleIndex};

verus! {

#[verifier::external_type_specification]
#[verifier::external_body]
pub struct ExTemplate(liquid::Template);

/// The variable of the page template that receives the package links.
pub const LINKS_VARIABLE: &'static str = "packages";

/// Relies on `liquid::Template::render` to render `template` with the single
/// global variable `name` (a `kstring::KString` key, as liquid's objects are
/// keyed) set to the text `value`; a failure comes back with liquid's
/// description of it.
#[verifier::external_body]
fn render_with(template: &liquid::Template, name: &str, value: String) -> (r: Result<String, String>) {
    let mut globals = liquid::Object::new();
    globals.insert(kstring::KString::from_ref(name), liquid::model::Value::scalar(value));
    template.render(&globals).map_err(|e| e.to_string())
}

/// Renders a simple index through a parsed liquid template.
pub struct SimpleIndexRendererLiquid<'a> {
    template: &'a liquid::Template,
}

impl<'a> SimpleIndexRendererLiquid<'a> {
    pub fn new(template: &'a liquid::Template) -> (r: Self)
        ensures
            r.template() == template,
    {
        Self { template }
    }

    /// The template the pages are rendered through.
    pub closed spec fn template(&self) -> &'a liquid::Template {
        self.template
    }

    /// The page with the index's package links in the template's `packages`
    /// variable, or the description of why the template could not render.
    pub fn render_page<R>(&self, simple_index: &SimpleIndex<'_, R>) -> (r: Result<String, String>) {
        render_with(self.template, LINKS_VARIABLE, simple_index.package_links())
    }
}

impl<'a, 'b, R> Renderer<SimpleIndex<'b, R>> for SimpleIndexRendererLiquid<'a> {
    /// The page; where the template cannot render, liquid's description of
    /// the failure. `render_page` tells the two apart.
    fn render(&self, simple_index: &SimpleIndex<'b, R>) -> (r: String) {
        match self.render_page(simple_index) {
            Ok(page) => page,
            Err(why) => why,
        }
    }
}

} // verus!
