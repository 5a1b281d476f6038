use pypiserver::liquid_render::SimpleIndexRendererLiquid;
use pypiserver::projector::{render_entries, root_entries, version_entries};
use pypiserver::python_package::PythonPackageMetadata;
use pypiserver::simple_index::{SimpleIndex, SimpleIndexRenderer, ToHtml};
use pypiserver::web::{GetEndpoint, Renderer, Templated};

struct RendererFake {}

impl SimpleIndexRenderer for RendererFake {
    fn render(&self, _simple_index: &SimpleIndex<'_, RendererFake>) -> String {
        "foo".into()
    }
}

struct WebRendererFake {}

impl<'a> Renderer<pypiserver::web::SimpleIndex<'a, WebRendererFake>> for WebRendererFake {
    fn render(&self, _simple_index: &pypiserver::web::SimpleIndex<'a, WebRendererFake>) -> String {
        "foo".into()
    }
}

#[test]
fn to_template_block() {
    let packages = vec![
        PythonPackageMetadata::new("foo", "1.2", "fs://foo"),
        PythonPackageMetadata::new("bar", "2.1", "fs::/bar"),
    ];
    let index = SimpleIndex::new(&RendererFake {}, &packages);
    assert_eq!(
        index.to_template_block(),
        "<a href=\"foo/\">foo</a><br/>\n<a href=\"bar/\">bar</a><br/>\n"
    )
}

#[test]
fn mod_to_template_block() {
    let packages = vec![
        PythonPackageMetadata::new("foo", "1.2", "fs://foo"),
        PythonPackageMetadata::new("bar", "2.1", "fs::/bar"),
    ];
    let index = pypiserver::web::SimpleIndex::new(&WebRendererFake {}, &packages);
    assert_eq!(
        index.package_links(),
        "    <a href=\"foo/\">foo</a><br/>\n    <a href=\"bar/\">bar</a><br/>\n"
    )
}

#[test]
fn root_index_lists_each_name_once_in_first_order() {
    let packages = vec![
        PythonPackageMetadata::new("foo", "1.0", "fs://a"),
        PythonPackageMetadata::new("bar", "1.0", "fs://b"),
        PythonPackageMetadata::new("foo", "2.0", "fs://c"),
    ];
    let entries = root_entries(&packages);
    let shown: Vec<(String, String)> =
        entries.iter().map(|e| (e.display_name.clone(), e.link.clone())).collect();
    assert_eq!(
        shown,
        vec![("foo".to_string(), "foo/".to_string()), ("bar".to_string(), "bar/".to_string())]
    );
    let index = SimpleIndex::new(&RendererFake {}, &packages);
    assert_eq!(index.to_template_block(), "<a href=\"foo/\">foo</a><br/>\n<a href=\"bar/\">bar</a><br/>\n");
}

#[test]
fn rendering_twice_gives_the_same_text() {
    let packages = vec![
        PythonPackageMetadata::new("foo", "1.2", "fs://foo"),
        PythonPackageMetadata::new("bar", "2.1", "fs::/bar"),
    ];
    let index = SimpleIndex::new(&RendererFake {}, &packages);
    assert_eq!(index.to_template_block(), index.to_template_block());
    assert_eq!(index.to_html(), "foo");
}

#[test]
fn empty_index_renders_nothing() {
    let packages: Vec<PythonPackageMetadata> = Vec::new();
    let index = SimpleIndex::new(&RendererFake {}, &packages);
    assert_eq!(index.to_template_block(), "");
}

#[test]
fn version_index_links_each_record() {
    let packages = vec![
        PythonPackageMetadata::new("foo", "1.0", "fs://foo-1.0.zip"),
        PythonPackageMetadata::new("foo", "1.1", "fs://foo-1.1.zip"),
    ];
    let entries = version_entries(&packages);
    assert_eq!(
        render_entries("", &entries),
        "<a href=\"fs://foo-1.0.zip\">1.0</a><br/>\n<a href=\"fs://foo-1.1.zip\">1.1</a><br/>\n"
    );
}

#[test]
fn web_endpoint_and_template() {
    let packages = vec![PythonPackageMetadata::new("foo", "1.2", "fs://foo")];
    let index = pypiserver::web::SimpleIndex::new(&WebRendererFake {}, &packages);
    assert_eq!(<pypiserver::web::SimpleIndex<'_, WebRendererFake> as GetEndpoint>::ENDPOINT, "simple");
    assert!(<pypiserver::web::SimpleIndex<'_, WebRendererFake> as Templated>::TEMPLATE.contains("{{ packages }}"));
    assert_eq!(index.get(), "foo");
}

#[test]
fn render_simple_index() {
    let parser = liquid::ParserBuilder::new().build().unwrap();
    let template = parser.parse("{{ packages }}").unwrap();

    let renderer = SimpleIndexRendererLiquid::new(&template);

    let packages = vec![
        PythonPackageMetadata::new("foo", "1.2", "fs://foo"),
        PythonPackageMetadata::new("bar", "2.1", "fs::/bar"),
    ];
    let index = pypiserver::web::SimpleIndex::new(&renderer, &packages);

    let rendered = renderer.render(&index);

    assert_eq!(rendered, index.package_links());
}

#[test]
fn liquid_page_wraps_the_links() {
    let parser = liquid::ParserBuilder::with_stdlib().build().unwrap();
    let template = parser.parse("<body>\n{{ packages }}</body>").unwrap();
    let renderer = SimpleIndexRendererLiquid::new(&template);
    let packages = vec![PythonPackageMetadata::new("foo", "1.2", "fs://foo")];
    let index = pypiserver::web::SimpleIndex::new(&renderer, &packages);
    assert_eq!(index.get(), "<body>\n    <a href=\"foo/\">foo</a><br/>\n</body>");
}
