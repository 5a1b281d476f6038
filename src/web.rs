//! The web interface: its shared traits and the simple-index endpoint.
use vstd::prelude::*;

use crate::projector::{markup, render_entries, root_entries, root_index};
use crate::python_package::PythonPackageMetadata;

verus! {

/// Renders a value into a page.
pub trait Renderer<T> {
    /// Whether `page` is a rendering of `to_render` by this renderer; a
    /// renderer that says nothing of its pages allows any.
    open spec fn renders(&self, to_render: &T, page: Seq<char>) -> bool {
        true
    }

    fn render(&self, to_render: &T) -> (r: String)
        ensures
            self.renders(to_render, r@),
    ;
}

/// An endpoint that answers GET.
pub trait GetEndpoint {
    const ENDPOINT: &'static str;

    /// Whether `page` is an answer of this endpoint.
    spec fn answers(&self, page: Seq<char>) -> bool;

    fn get(&self) -> (r: String)
        ensures
            self.answers(r@),
    ;
}

/// A value shown through a page template.
pub trait Templated {
    const TEMPLATE: &'static str;
}

/// A server that serves the endpoints until stopped.
pub trait Server {
    fn run(&self);
}

/// Where the simple index is served.
pub const SIMPLE_ENDPOINT: &'static str = "simple";

/// The page of the simple index; `packages` is replaced by the links.
pub const SIMPLE_TEMPLATE: &'static str = "<!DOCTYPE html>
<html>
  <head>
    <title>Simple Index</title>
  </head>
  <body>
{{ packages }}
  </body>
</html>
";

/// The endpoint of the simple index.
pub struct SimpleIndex<'a, R> {
    packages: &'a [PythonPackageMetadata],
    renderer: &'a R,
}

impl<'a, R> SimpleIndex<'a, R> {
    pub fn new(renderer: &'a R, packages: &'a [PythonPackageMetadata]) -> (r: Self)
        ensures
            r.packages() == packages@,
            r.renderer() == renderer,
    {
        Self { packages, renderer }
    }

    /// The packages listed.
    pub closed spec fn packages(&self) -> Seq<PythonPackageMetadata> {
        self.packages@
    }

    /// The renderer of the page.
    pub closed spec fn renderer(&self) -> &'a R {
        self.renderer
    }

    /// The block of package links for the page: one indented line per
    /// distinct package name.
    pub fn package_links(&self) -> (r: String)
        ensures
            r@ == markup("    "@, root_index(self.packages())),
    {
        let entries = root_entries(self.packages);
        render_entries("    ", &entries)
    }
}

impl<'a, R: Renderer<SimpleIndex<'a, R>>> GetEndpoint for SimpleIndex<'a, R> {
    const ENDPOINT: &'static str = SIMPLE_ENDPOINT;

    /// The answer is what the index's renderer renders for the index.
    open spec fn answers(&self, page: Seq<char>) -> bool {
        self.renderer().renders(self, page)
    }

    fn get(&self) -> (r: String) {
        self.renderer.render(self)
    }
}

impl<'a, R> Templated for SimpleIndex<'a, R> {
    const TEMPLATE: &'static str = SIMPLE_TEMPLATE;
}

} // verus!
