//! The registry and the rendering pipeline: route derivation, build
//! failures, and request handling end to end.

use postergen::generator::{extract_svg_url, BuildError, Generator};
use postergen::state::State;

fn build(files: Vec<(&str, &str)>) -> Result<Generator, BuildError> {
    let owned: Vec<(String, String)> =
        files.into_iter().map(|(p, c)| (p.to_string(), c.to_string())).collect();
    Generator::new(&owned, "", &State::new(), usvg::Options::default())
}

const RECT_SVG: &str = r#"<svg xmlns="http://www.w3.org/2000/svg" width="16" height="16"><rect width="16" height="16" fill="blue"/></svg>"#;

#[test]
fn route_derivation_strips_extension() {
    assert_eq!(extract_svg_url("icons/a.svgtpl", ""), Some("/icons/a".to_string()));
    assert_eq!(extract_svg_url("root/icons/a.svgtpl", "root"), Some("/icons/a".to_string()));
    assert_eq!(extract_svg_url("a.svgtpl", ""), Some("/a".to_string()));
}

#[test]
fn route_derivation_strips_a_single_extension() {
    assert_eq!(extract_svg_url("a.svgtpl.svgtpl", ""), Some("/a.svgtpl".to_string()));
}

#[test]
fn route_derivation_normalizes_separators() {
    assert_eq!(extract_svg_url("dir\\a.svgtpl", ""), Some("/dir/a".to_string()));
}

#[test]
fn route_derivation_outside_root_is_none() {
    assert_eq!(extract_svg_url("elsewhere/a.svgtpl", "root"), None);
}

#[test]
fn route_derivation_requires_a_component_boundary() {
    // A path that merely abuts the root without a separator is not under it.
    assert_eq!(extract_svg_url("rooticons/a.svgtpl", "root"), None);
    assert_eq!(extract_svg_url("root/a.svgtpl", "root/"), Some("/a".to_string()));
    assert_eq!(extract_svg_url("root/a.svgtpl", "root"), Some("/a".to_string()));
    // The platform separator counts as a boundary too.
    assert_eq!(extract_svg_url("root\\a.svgtpl", "root"), Some("/a".to_string()));
}

#[test]
fn empty_registry_is_refused() {
    assert!(matches!(build(vec![]), Err(BuildError::Empty)));
}

#[test]
fn compile_error_fails_whole_build() {
    let r = build(vec![("ok.svgtpl", RECT_SVG), ("bad.svgtpl", "{% broken")]);
    assert!(matches!(r, Err(BuildError::Compile { .. })));
}

#[test]
fn registry_mounts_derived_routes() {
    let g = build(vec![("icons/a.svgtpl", "<svg>{{ label }}</svg>")]).unwrap();
    let routes = g.routes();
    assert_eq!(routes.len(), 1);
    assert_eq!(routes[0], "/icons/a");
}

#[test]
fn query_parameters_bind_into_context() {
    let g = build(vec![("icons/a.svgtpl", "<svg>{{ label }}</svg>")]).unwrap();
    let reply = g.handle("/icons/a?label=Hi&export_svg=1");
    assert_eq!(reply.status, 200);
    assert_eq!(reply.mime.as_deref(), Some("image/svg+xml"));
    let body = String::from_utf8(reply.body).unwrap();
    assert_eq!(body, "<svg>Hi</svg>");
}

#[test]
fn duplicate_query_key_last_occurrence_wins() {
    let g = build(vec![("t.svgtpl", "<svg>{{ x }}</svg>")]).unwrap();
    let reply = g.handle("/t?x=1&x=2&export_svg=1");
    assert_eq!(reply.status, 200);
    assert_eq!(String::from_utf8(reply.body).unwrap(), "<svg>2</svg>");
}

#[test]
fn unregistered_path_is_404_not_found() {
    let g = build(vec![("icons/a.svgtpl", RECT_SVG)]).unwrap();
    let reply = g.handle("/icons/missing");
    assert_eq!(reply.status, 404);
    assert_eq!(reply.body, b"Not Found".to_vec());
    assert!(reply.mime.is_none());
}

#[test]
fn registered_route_without_query_is_not_404() {
    let g = build(vec![("icons/b.svgtpl", RECT_SVG)]).unwrap();
    let reply = g.handle("/icons/b");
    assert_ne!(reply.status, 404);
    assert_eq!(reply.status, 200);
    assert_eq!(reply.mime.as_deref(), Some("image/png"));
    assert!(!reply.body.is_empty());
}

#[test]
fn render_failure_is_400_bad_request() {
    // The template demands a variable the query does not bind.
    let g = build(vec![("t.svgtpl", "<svg>{{ missing_value }}</svg>")]).unwrap();
    let reply = g.handle("/t");
    assert_eq!(reply.status, 400);
    assert_eq!(reply.body, b"Bad Request".to_vec());
}

#[test]
fn unrasterizable_markup_is_400() {
    let g = build(vec![("t.svgtpl", "not markup at all")]).unwrap();
    let reply = g.handle("/t");
    assert_eq!(reply.status, 400);
    assert_eq!(reply.body, b"Bad Request".to_vec());
}

#[test]
fn empty_markup_never_rasterizes() {
    let g = build(vec![("t.svgtpl", RECT_SVG)]).unwrap();
    assert!(g.svg_to_png("").is_err());
}

#[test]
fn export_flag_round_trips_with_rasterization() {
    let g = build(vec![("icons/b.svgtpl", RECT_SVG)]).unwrap();
    let exported = g.handle("/icons/b?export_svg=1");
    assert_eq!(exported.status, 200);
    assert_eq!(exported.mime.as_deref(), Some("image/svg+xml"));
    let svg = String::from_utf8(exported.body).unwrap();

    let manual = g.svg_to_png(&svg).unwrap();
    let served = g.handle("/icons/b");
    assert_eq!(served.status, 200);
    assert_eq!(served.mime.as_deref(), Some("image/png"));
    assert_eq!(manual, served.body);
}

#[test]
fn code_helper_is_callable_from_templates() {
    let g = build(vec![("qr.svgtpl", r#"<svg>{{ text | to_code }}</svg>"#)]).unwrap();
    let reply = g.handle("/qr?text=hello&export_svg=1");
    assert_eq!(reply.status, 200);
    let body = String::from_utf8(reply.body).unwrap();
    assert!(body.contains("data:image/svg+xml;base64,"));
}

#[test]
fn malformed_filter_argument_is_an_error() {
    // A wrongly typed keyword argument fails the render, not the worker.
    let g = build(vec![("t.svgtpl", r#"<svg>{{ text | to_code(fg=5) }}</svg>"#)]).unwrap();
    let reply = g.handle("/t?text=hi&export_svg=1");
    assert_eq!(reply.status, 400);
    assert_eq!(reply.body, b"Bad Request".to_vec());
}

#[test]
fn fetch_helper_is_gated_by_the_guard() {
    let mut state = State::new();
    state.set_allow_urls(&["https://cdn.example.com/".to_string()]);
    let files = vec![(
        "f.svgtpl".to_string(),
        r#"<svg>{{ url | fetch }}</svg>"#.to_string(),
    )];
    let g = Generator::new(&files, "", &state, usvg::Options::default()).unwrap();
    let reply = g.handle("/f?url=https%3A%2F%2Fevil.example.com%2Fx.png&export_svg=1");
    // The helper fails inside rendering, which the pipeline reports as 400.
    assert_eq!(reply.status, 400);
    assert_eq!(reply.body, b"Bad Request".to_vec());
}
