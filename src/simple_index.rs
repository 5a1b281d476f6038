//! # Python Simple Index
//!
//! A PEP-0503 compliant simple index for packages, which can be used by `pip`
//! and other compatible package managers.
use vstd::prelude::*;

use crate::projector::{markup, render_entries, root_entries, root_index};
use crate::python_package::PythonPackageMetadata;

verus! {

/// A value that renders itself as HTML.
pub trait ToHtml {
    /// Whether `html` is HTML of this value.
    spec fn is_html_of(&self, html: Seq<char>) -> bool;

    fn to_html(&self) -> (r: String)
        ensures
            self.is_html_of(r@),
    ;
}

/// Renders a simple index into a page.
pub trait SimpleIndexRenderer: Sized {
    /// Whether `page` is a rendering of `simple_index` by this renderer; a
    /// renderer that says nothing of its pages allows any.
    open spec fn renders(&self, simple_index: &SimpleIndex<'_, Self>, page: Seq<char>) -> bool {
        true
    }

    fn render(&self, simple_index: &SimpleIndex<'_, Self>) -> (r: String)
        ensures
            self.renders(simple_index, r@),
    ;
}

/// The root index of a set of packages, with the renderer of its page.
pub struct SimpleIndex<'a, R> {
    pub packages: &'a [PythonPackageMetadata],
    renderer: &'a R,
}

impl<'a, R: SimpleIndexRenderer> ToHtml for SimpleIndex<'a, R> {
    /// The HTML is what the index's renderer renders for the index.
    open spec fn is_html_of(&self, html: Seq<char>) -> bool {
        self.renderer().renders(self, html)
    }

    fn to_html(&self) -> (r: String) {
        self.renderer.render(self)
    }
}

impl<'a, R: SimpleIndexRenderer> SimpleIndex<'a, R> {
    pub fn new(renderer: &'a R, packages: &'a [PythonPackageMetadata]) -> (r: Self)
        ensures
            r.listed() == packages@,
            r.renderer() == renderer,
    {
        Self { packages, renderer }
    }

    /// The renderer of the page.
    pub closed spec fn renderer(&self) -> &'a R {
        self.renderer
    }

    /// The packages listed.
    pub closed spec fn listed(&self) -> Seq<PythonPackageMetadata> {
        self.packages@
    }

    /// One link per distinct package name, to the package's page.
    pub fn to_template_block(&self) -> (r: String)
        ensures
            r@ == markup(Seq::empty(), root_index(self.listed())),
    {
        let entries = root_entries(self.packages);
        proof {
            reveal_strlit("");
            assert(""@ =~= Seq::<char>::empty());
        }
        render_entries("", &entries)
    }
}

} // verus!
