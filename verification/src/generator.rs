//! The template registry and the rendering pipeline: routes derived from
//! template file paths, templates compiled into one engine instance, and
//! request handling from raw path-and-query to response status, MIME type
//! and body bytes.

use vstd::prelude::*;
use vstd::string::*;

use crate::state::State;

verus! {

// ---------------------------------------------------------------------------
// The template engine, declared.
// ---------------------------------------------------------------------------
#[verifier::external_type_specification]
#[verifier::external_body]
pub struct ExTera(tera::Tera);

#[verifier::external_type_specification]
#[verifier::external_body]
pub struct ExTeraContext(tera::Context);

/// The names of the templates held by an engine instance.
pub uninterp spec fn tera_template_set(t: tera::Tera) -> Set<Seq<char>>;

/// The templates held by an engine instance: each name mapped to the
/// source it was compiled from.
pub uninterp spec fn tera_template_srcs(t: tera::Tera) -> Map<Seq<char>, Seq<char>>;

/// The names of the filters registered in an engine instance.
pub uninterp spec fn tera_filter_set(t: tera::Tera) -> Set<Seq<char>>;

/// Whether the engine accepts a template with the given name and source on
/// top of the templates it already holds: the parse reads the source, and
/// the inheritance and macro checks read the held sources — a function of
/// those three things alone.
pub uninterp spec fn tera_accepts(
    templates: Map<Seq<char>, Seq<char>>,
    name: Seq<char>,
    content: Seq<char>,
) -> bool;

/// The variable bindings held by a render context.
pub uninterp spec fn context_entries(c: tera::Context) -> Map<Seq<char>, Seq<char>>;

/// Relies on `tera::Tera::default`: a fresh engine holds no templates.
#[verifier::external_body]
fn tera_new() -> (r: tera::Tera)
    ensures
        tera_template_set(r) == Set::<Seq<char>>::empty(),
        tera_template_srcs(r) =~= Map::empty(),
{
    tera::Tera::default()
}

/// Relies on `tera::Tera::add_raw_template`: it succeeds exactly when the
/// source parses and the inheritance and macro checks pass against the
/// held templates, and then registers the source under the name; on
/// failure the returned message names the syntax error, and the engine is
/// discarded by every caller here.
#[verifier::external_body]
fn tera_add_raw_template(t: &mut tera::Tera, name: &str, content: &str) -> (r: Result<(), String>)
    ensures
        r is Ok <==> tera_accepts(tera_template_srcs(*old(t)), name@, content@),
        r is Ok ==> tera_template_set(*final(t)) == tera_template_set(*old(t)).insert(name@),
        r is Ok ==> tera_template_srcs(*final(t)) == tera_template_srcs(*old(t)).insert(
            name@,
            content@,
        ),
{
    t.add_raw_template(name, content).map_err(|e| e.to_string())
}

/// Relies on `tera::Tera::get_template`: it answers `Ok` exactly for the
/// names the engine holds a template under.
#[verifier::external_body]
fn tera_has_template(t: &tera::Tera, name: &str) -> (r: bool)
    ensures
        r == tera_template_set(*t).contains(name@),
{
    t.get_template(name).is_ok()
}

/// Relies on `tera::Tera::render`: it fails on a name the engine holds no
/// template under. Beyond that, rendering may invoke the registered helper
/// functions, whose outcome the network decides, so nothing is promised of
/// the result; a failure carries the engine's message.
#[verifier::external_body]
fn tera_render(t: &tera::Tera, name: &str, ctx: &tera::Context) -> (r: Result<String, String>)
    ensures
        !tera_template_set(*t).contains(name@) ==> r is Err,
{
    t.render(name, ctx).map_err(|e| e.to_string())
}

/// Relies on `tera::Context::new`: a fresh context holds no bindings.
#[verifier::external_body]
fn context_new() -> (r: tera::Context)
    ensures
        context_entries(r) =~= Map::empty(),
{
    tera::Context::new()
}

/// Relies on `tera::Context::insert`: it binds the key to the value,
/// replacing any earlier binding of the same key.
#[verifier::external_body]
fn context_insert(c: &mut tera::Context, key: &str, value: &str)
    ensures
        context_entries(*final(c)) == context_entries(*old(c)).insert(key@, value@),
{
    c.insert(key, value);
}

// ---------------------------------------------------------------------------
// Request-line parsing, declared.
// ---------------------------------------------------------------------------
/// Whether the raw path-and-query of a request parses as a URL.
pub uninterp spec fn url_parse_ok(raw: Seq<char>) -> bool;

/// The path component of a parsed request line, as the URL records it.
pub uninterp spec fn url_path_of(raw: Seq<char>) -> Seq<char>;

/// The decoded query parameters of a parsed request line, in order.
pub uninterp spec fn url_query_pairs_of(raw: Seq<char>) -> Seq<(Seq<char>, Seq<char>)>;

/// Relies on `url::Url::parse` and `url::Url::query_pairs`: parsing a raw
/// request line against a fixed base either fails or yields its path
/// component, which for such URLs always begins with `/`, and its decoded
/// query pairs in order; both are functions of the raw string alone.
#[verifier::external_body]
fn parse_request_url(raw: &str) -> (r: Option<(String, Vec<(String, String)>)>)
    ensures
        r is Some <==> url_parse_ok(raw@),
        r matches Some(p) ==> p.0@ == url_path_of(raw@),
        r matches Some(p) ==> p.1@.map_values(|q: (String, String)| (q.0@, q.1@))
            == url_query_pairs_of(raw@),
        r matches Some(p) ==> p.0@.len() >= 1 && p.0@[0] == '/',
{
    let full = format!("http://localhost{}", raw);
    let parsed: url::Url = match full.parse() {
        Ok(u) => u,
        Err(_) => {
            return None;
        },
    };
    let path = parsed.path().to_owned();
    let pairs = parsed.query_pairs().map(|(k, v)| (k.into_owned(), v.into_owned())).collect();
    Some((path, pairs))
}

// ---------------------------------------------------------------------------
// Route derivation.
// ---------------------------------------------------------------------------
/// The extension that identifies a vector-template file.
pub open spec fn spec_template_ext() -> Seq<char> {
    ".svgtpl"@
}

/// Whether a character is a path separator: `/`, or the platform
/// separator `\` that normalization maps to `/`.
pub open spec fn spec_is_sep(c: char) -> bool {
    c == '/' || c == '\\'
}

/// Leading path separators removed.
pub open spec fn spec_drop_leading_slashes(s: Seq<char>) -> Seq<char>
    decreases s.len(),
{
    if s.len() > 0 && spec_is_sep(s[0]) {
        spec_drop_leading_slashes(s.skip(1))
    } else {
        s
    }
}

/// The trailing template extension removed, once.
pub open spec fn spec_trim_ext(s: Seq<char>) -> Seq<char> {
    if spec_template_ext().is_suffix_of(s) {
        s.take(s.len() - spec_template_ext().len())
    } else {
        s
    }
}

/// Platform path separators normalized to `/`.
pub open spec fn spec_normalize_seps(s: Seq<char>) -> Seq<char> {
    Seq::new(
        s.len(),
        |i: int|
            if s[i] == '\\' {
                '/'
            } else {
                s[i]
            },
    )
}

/// Whether the scan root ends on a path-component boundary of the file:
/// an empty root, the file being the root itself, a separator right after
/// the root, or a root that itself ends in a separator. Without this,
/// `root` would also claim files under `rootextra/`.
pub open spec fn spec_root_boundary(file: Seq<char>, root: Seq<char>) -> bool {
    ||| root.len() == 0
    ||| file.len() == root.len()
    ||| spec_is_sep(file[root.len() as int])
    ||| spec_is_sep(root[root.len() - 1])
}

/// The route a template file is mounted at: its path relative to the scan
/// root, extension stripped, separators normalized, prefixed with `/`; or
/// nothing, for a file outside the root or abutting it without a
/// separator.
pub open spec fn spec_route_of(file: Seq<char>, root: Seq<char>) -> Option<Seq<char>> {
    if root.is_prefix_of(file) && spec_root_boundary(file, root) {
        Some(
            "/"@ + spec_normalize_seps(
                spec_trim_ext(spec_drop_leading_slashes(file.skip(root.len() as int))),
            ),
        )
    } else {
        None
    }
}

/// Whether a character is a path separator.
fn is_sep(c: char) -> (r: bool)
    ensures
        r == spec_is_sep(c),
{
    c == '/' || c == '\\'
}

/// Derives the URL route a template file is mounted at from its path and
/// the scan root: the relative path, template extension stripped, path
/// separators normalized to `/`, prefixed with `/`. A file not under the
/// root — including one that only abuts it without a separator — yields
/// nothing.
pub fn extract_svg_url(file: &str, root: &str) -> (r: Option<String>)
    ensures
        r is Some <==> spec_route_of(file@, root@) is Some,
        r matches Some(s) ==> s@ == spec_route_of(file@, root@).unwrap(),
        r matches Some(s) ==> s@.len() >= 1 && s@[0] == '/',
{
    proof {
        reveal_strlit(".svgtpl");
        reveal_strlit("/");
    }
    if !crate::text::str_starts_with(file, root) {
        return None;
    }
    let file_len = file.unicode_len();
    let root_len = root.unicode_len();
    if root_len > 0 && root_len < file_len && !is_sep(file.get_char(root_len)) && !is_sep(
        root.get_char(root_len - 1),
    ) {
        return None;
    }

    // Drop leading separators left over from the root boundary.
    let mut start: usize = root_len;
    while start < file_len && is_sep(file.get_char(start))
        invariant
            root_len <= start <= file_len,
            file_len == file@.len(),
            spec_drop_leading_slashes(file@.skip(root_len as int)) == spec_drop_leading_slashes(
                file@.skip(start as int),
            ),
        decreases file_len - start,
    {
        proof {
            assert(file@.skip(start as int).skip(1) =~= file@.skip(start + 1));
        }
        start += 1;
    }
    let mut rel: &str = file.substring_char(start, file_len);
    proof {
        assert(file@.subrange(start as int, file_len as int) =~= file@.skip(start as int));
        assert(spec_drop_leading_slashes(file@.skip(start as int)) == file@.skip(start as int));
    }

    // Strip the template extension, once, from the end.
    if crate::text::str_ends_with(rel, ".svgtpl") {
        proof {
            assert(spec_template_ext().len() == 7);
            assert(rel@.len() >= 7);
        }
        let ghost before = rel@;
        let rel_len = rel.unicode_len();
        rel = rel.substring_char(0, rel_len - 7);
        proof {
            assert(rel@ =~= before.take(before.len() - spec_template_ext().len()));
            assert(spec_trim_ext(before) == rel@);
        }
    }

    // Normalize separators and mount under `/`.
    let mut out = String::from_str("/");
    let n = rel.unicode_len();
    let mut i: usize = 0;
    while i < n
        invariant
            i <= n,
            n == rel@.len(),
            out@ =~= "/"@ + spec_normalize_seps(rel@.take(i as int)),
        decreases n - i,
    {
        let c = rel.get_char(i);
        if c == '\\' {
            out.append("/");
            proof {
                reveal_strlit("/");
                assert("/"@ =~= seq!['/']);
            }
        } else {
            out.append(rel.substring_char(i, i + 1));
            proof {
                assert(rel@.subrange(i as int, i + 1) =~= seq![rel@[i as int]]);
            }
        }
        proof {
            assert(spec_normalize_seps(rel@.take(i + 1)) =~= spec_normalize_seps(
                rel@.take(i as int),
            ).push(
                if rel@[i as int] == '\\' {
                    '/'
                } else {
                    rel@[i as int]
                },
            ));
        }
        i += 1;
    }
    proof {
        assert(rel@.take(n as int) =~= rel@);
        assert(out@ =~= spec_route_of(file@, root@).unwrap());
    }
    Some(out)
}

// ---------------------------------------------------------------------------
// The registry.
// ---------------------------------------------------------------------------
#[verifier::external_type_specification]
#[verifier::external_body]
pub struct ExUsvgOptions(usvg::Options);

#[verifier::external_type_specification]
#[verifier::external_body]
pub struct ExUsvgTree(usvg::Tree);

#[verifier::external_type_specification]
#[verifier::external_body]
pub struct ExPixmap(tiny_skia::Pixmap);

/// The pixel dimensions of a raster buffer.
pub uninterp spec fn pixmap_size(p: tiny_skia::Pixmap) -> (nat, nat);

/// The pixel dimensions a PNG stream declares; a function of the bytes
/// alone.
pub uninterp spec fn png_dimensions(bytes: Seq<u8>) -> (nat, nat);

/// Relies on `usvg::Tree::from_data`: it parses vector markup against the
/// given options (which carry this machine's fonts, so nothing more is
/// promised of the tree), and rejects empty input, which is no XML
/// document.
#[verifier::external_body]
fn svg_tree_parse(svg_data: &str, opt: &usvg::Options) -> (r: Result<usvg::Tree, String>)
    ensures
        svg_data@.len() == 0 ==> r is Err,
{
    usvg::Tree::from_data(svg_data.as_bytes(), &opt.to_ref()).map_err(|e| e.to_string())
}

/// Relies on `usvg::Tree::svg_node` and `usvg::Size::to_screen_size`: the
/// intrinsic size of the document, rounded to whole pixels with a floor of
/// one in each dimension.
#[verifier::external_body]
fn tree_size(tree: &usvg::Tree) -> (r: (u32, u32))
    ensures
        r.0 >= 1 && r.1 >= 1,
{
    let size = tree.svg_node().size.to_screen_size();
    (size.width(), size.height())
}

/// Relies on `tiny_skia::Pixmap::new`: it allocates a zeroed buffer of
/// exactly the given size, and refuses exactly a degenerate (zero) size, a
/// row of four-byte pixels beyond `i32::MAX` bytes, or a buffer beyond
/// `usize::MAX` bytes.
#[verifier::external_body]
fn pixmap_new(width: u32, height: u32) -> (r: Option<tiny_skia::Pixmap>)
    ensures
        r is None <==> (width == 0 || height == 0 || 4 * (width as int) > i32::MAX as int || ((
        height as int) - 1) * (4 * (width as int)) + 4 * (width as int) > usize::MAX as int),
        r matches Some(p) ==> width > 0 && height > 0 && pixmap_size(p) == (
            width as nat,
            height as nat,
        ),
{
    tiny_skia::Pixmap::new(width, height)
}

/// Relies on `resvg::render` at the document's original size: it rasterizes
/// the tree into the buffer, whose size it never changes, and reports
/// whether it rendered.
#[verifier::external_body]
fn render_to_pixmap(tree: &usvg::Tree, pixmap: &mut tiny_skia::Pixmap) -> (r: bool)
    ensures
        pixmap_size(*final(pixmap)) == pixmap_size(*old(pixmap)),
{
    resvg::render(
        tree,
        usvg::FitTo::Original,
        tiny_skia::Transform::default(),
        pixmap.as_mut(),
    ).is_some()
}

/// Relies on `tiny_skia::Pixmap::encode_png`: a successful encoding is the
/// PNG stream of the buffer, which is never empty (it begins with the
/// fixed signature) and declares exactly the buffer's dimensions.
#[verifier::external_body]
fn pixmap_encode_png(pixmap: &tiny_skia::Pixmap) -> (r: Result<Vec<u8>, String>)
    ensures
        r matches Ok(bytes) ==> bytes@.len() > 0,
        r matches Ok(bytes) ==> png_dimensions(bytes@) == pixmap_size(*pixmap),
{
    pixmap.encode_png().map_err(|e| e.to_string())
}

/// Why rasterizing rendered markup failed; all are per-request.
#[derive(Debug, PartialEq, Eq)]
pub enum RasterError {
    /// The rendered markup did not parse as a vector document.
    Parse(String),
    /// No pixel buffer of the document's declared size could be made.
    InvalidSize(u32, u32),
    /// The document could not be rasterized into the buffer.
    Render,
    /// The buffer could not be encoded as a raster image.
    Encode(String),
}

/// Why building the registry failed; both are fatal at startup.
#[derive(Debug, PartialEq, Eq)]
pub enum BuildError {
    /// No template file was found under the scan root.
    Empty,
    /// A template failed to compile; names the offending file and the
    /// engine's syntax error. No partial registry is kept.
    Compile { file: String, message: String },
}

/// The routes derived from a list of template file paths, in order; files
/// outside the scan root contribute none.
pub open spec fn spec_derived_routes(files: Seq<Seq<char>>, root: Seq<char>) -> Seq<Seq<char>>
    decreases files.len(),
{
    if files.len() == 0 {
        Seq::empty()
    } else {
        let rest = spec_derived_routes(files.drop_last(), root);
        match spec_route_of(files.last(), root) {
            Some(r) => rest.push(r),
            None => rest,
        }
    }
}

proof fn lemma_derived_routes_nonempty(files: Seq<Seq<char>>, root: Seq<char>, i: int)
    requires
        0 <= i < files.len(),
        spec_route_of(files[i], root) is Some,
    ensures
        spec_derived_routes(files, root).len() > 0,
    decreases files.len(),
{
    if i < files.len() - 1 {
        lemma_derived_routes_nonempty(files.drop_last(), root, i);
    }
}

/// The views of a list of (path, content) inputs.
pub open spec fn spec_pair_views(files: Seq<(String, String)>) -> Seq<(Seq<char>, Seq<char>)> {
    files.map_values(|f: (String, String)| (f.0@, f.1@))
}

/// The template sources held after processing the files in order: every
/// file whose route derives and whose source the engine accepts is added
/// under its route.
pub open spec fn spec_srcs_after(files: Seq<(Seq<char>, Seq<char>)>, root: Seq<char>) -> Map<
    Seq<char>,
    Seq<char>,
>
    decreases files.len(),
{
    if files.len() == 0 {
        Map::empty()
    } else {
        let prev = spec_srcs_after(files.drop_last(), root);
        match spec_route_of(files.last().0, root) {
            Some(route) => if tera_accepts(prev, route, files.last().1) {
                prev.insert(route, files.last().1)
            } else {
                prev
            },
            None => prev,
        }
    }
}

/// Whether the engine accepts every file in order: each file with a
/// derivable route, compiled against the sources accepted before it.
pub open spec fn spec_all_accepted(files: Seq<(Seq<char>, Seq<char>)>, root: Seq<char>) -> bool
    decreases files.len(),
{
    if files.len() == 0 {
        true
    } else {
        spec_all_accepted(files.drop_last(), root) && match spec_route_of(files.last().0, root) {
            Some(route) => tera_accepts(
                spec_srcs_after(files.drop_last(), root),
                route,
                files.last().1,
            ),
            None => true,
        }
    }
}

proof fn lemma_all_accepted_prefix(files: Seq<(Seq<char>, Seq<char>)>, root: Seq<char>, i: int)
    requires
        0 <= i <= files.len(),
        spec_all_accepted(files, root),
    ensures
        spec_all_accepted(files.take(i), root),
    decreases files.len(),
{
    if i < files.len() {
        lemma_all_accepted_prefix(files.drop_last(), root, i);
        assert(files.drop_last().take(i) =~= files.take(i));
    } else {
        assert(files.take(i) =~= files);
    }
}

/// The template registry and rendering pipeline: every route mapped to a
/// compiled template in one engine instance, plus the options used to
/// rasterize rendered markup.
pub struct Generator {
    tera: tera::Tera,
    opt: usvg::Options,
    routes: Vec<String>,
}

impl Generator {
    /// The mounted routes, in the order their files were given.
    pub closed spec fn spec_routes(&self) -> Seq<Seq<char>> {
        self.routes@.map_values(|r: String| r@)
    }

    /// The set of mounted routes.
    pub open spec fn spec_route_set(&self) -> Set<Seq<char>> {
        self.spec_routes().to_set()
    }

    /// The engine holds a template exactly for every mounted route, and
    /// every route is non-empty and begins with `/`.
    pub closed spec fn wf(&self) -> bool {
        &&& tera_template_set(self.tera) == self.spec_route_set()
        &&& forall|i: int|
            0 <= i < self.spec_routes().len() ==> ((#[trigger] self.spec_routes()[i]).len() >= 1
                && self.spec_routes()[i][0] == '/')
    }

    /// The mounted routes, for listing at startup.
    pub fn routes(&self) -> (r: &Vec<String>)
        ensures
            r@.map_values(|s: String| s@) == self.spec_routes(),
    {
        &self.routes
    }

    /// Builds the registry: derives a route for every template file under
    /// the scan root, compiles all of them into one engine with the helper
    /// functions registered against the given guard, and keeps the options
    /// for rasterization. Zero template files, or files that all lie
    /// outside the root, fail with `Empty`; one compile failure fails the
    /// whole build.
    pub fn new(files: &Vec<(String, String)>, root: &str, state: &State, opt: usvg::Options) -> (r:
        Result<Generator, BuildError>)
        ensures
            r matches Ok(g) ==> g.wf(),
            r matches Ok(g) ==> g.spec_routes() == spec_derived_routes(
                files@.map_values(|f: (String, String)| f.0@),
                root@,
            ),
            r matches Ok(g) ==> g.spec_routes().len() >= 1,
            (r == Err::<Generator, BuildError>(BuildError::Empty)) <==> (files@.len() == 0
                || spec_derived_routes(files@.map_values(|f: (String, String)| f.0@), root@).len()
                == 0),
            r is Ok <==> (files@.len() > 0 && spec_derived_routes(
                files@.map_values(|f: (String, String)| f.0@),
                root@,
            ).len() > 0 && spec_all_accepted(spec_pair_views(files@), root@)),
            (r matches Err(BuildError::Compile { file, message: _ }) ==> exists|i: int|
                0 <= i < files@.len() && files@[i].0@ == file@ && spec_route_of(
                    files@[i].0@,
                    root@,
                ) is Some && spec_all_accepted(
                    #[trigger] spec_pair_views(files@).take(i),
                    root@,
                ) && !tera_accepts(
                    spec_srcs_after(spec_pair_views(files@).take(i), root@),
                    spec_route_of(files@[i].0@, root@).unwrap(),
                    files@[i].1@,
                )),
    {
        broadcast use vstd::prelude::Seq::lemma_push_to_set_commute;

        let ghost paths = files@.map_values(|f: (String, String)| f.0@);
        let ghost pviews = spec_pair_views(files@);
        let n = files.len();
        if n == 0 {
            return Err(BuildError::Empty);
        }
        let mut engine = tera_new();
        crate::filters::register(&mut engine, state);
        let mut routes: Vec<String> = Vec::new();
        let mut i: usize = 0;
        while i < n
            invariant
                i <= n,
                n == files@.len(),
                n > 0,
                paths == files@.map_values(|f: (String, String)| f.0@),
                pviews == spec_pair_views(files@),
                routes@.map_values(|r: String| r@) =~= spec_derived_routes(
                    paths.take(i as int),
                    root@,
                ),
                tera_template_set(engine) == routes@.map_values(|r: String| r@).to_set(),
                tera_template_srcs(engine) == spec_srcs_after(pviews.take(i as int), root@),
                spec_all_accepted(pviews.take(i as int), root@),
                forall|j: int|
                    0 <= j < routes@.len() ==> ((#[trigger] routes@[j]@).len() >= 1
                        && routes@[j]@[0] == '/'),
            decreases n - i,
        {
            broadcast use vstd::prelude::Seq::lemma_push_to_set_commute;

            let file = &files[i].0;
            let content = &files[i].1;
            match extract_svg_url(file.as_str(), root) {
                Some(route) => {
                    match tera_add_raw_template(&mut engine, route.as_str(), content.as_str()) {
                        Ok(_) => {
                            routes.push(route);
                            proof {
                                assert(paths.take(i + 1).drop_last() =~= paths.take(i as int));
                                assert(pviews.take(i + 1).drop_last() =~= pviews.take(i as int));
                                assert(routes@.map_values(|r: String| r@)
                                    =~= spec_derived_routes(paths.take(i as int), root@).push(
                                    route@,
                                ));
                            }
                        },
                        Err(message) => {
                            proof {
                                lemma_derived_routes_nonempty(paths, root@, i as int);
                                if spec_all_accepted(pviews, root@) {
                                    lemma_all_accepted_prefix(pviews, root@, i + 1);
                                    assert(pviews.take(i + 1).drop_last() =~= pviews.take(
                                        i as int,
                                    ));
                                    assert(false);
                                }
                            }
                            let failed = BuildError::Compile { file: file.clone(), message };
                            proof {
                                assert(spec_all_accepted(
                                    spec_pair_views(files@).take(i as int),
                                    root@,
                                ) && !tera_accepts(
                                    spec_srcs_after(
                                        spec_pair_views(files@).take(i as int),
                                        root@,
                                    ),
                                    spec_route_of(files@[i as int].0@, root@).unwrap(),
                                    files@[i as int].1@,
                                ));
                            }
                            return Err(failed);
                        },
                    }
                },
                None => {
                    proof {
                        assert(paths.take(i + 1).drop_last() =~= paths.take(i as int));
                        assert(pviews.take(i + 1).drop_last() =~= pviews.take(i as int));
                    }
                },
            }
            i += 1;
        }
        proof {
            assert(paths.take(n as int) =~= paths);
            assert(pviews.take(n as int) =~= pviews);
        }
        if routes.len() == 0 {
            return Err(BuildError::Empty);
        }
        let g = Generator { tera: engine, opt, routes };
        Ok(g)
    }
}

// ---------------------------------------------------------------------------
// The rendering pipeline.
// ---------------------------------------------------------------------------
/// An HTTP response produced by the pipeline: status, MIME type (for
/// success only) and body bytes.
pub struct Reply {
    pub status: u16,
    pub mime: Option<String>,
    pub body: Vec<u8>,
}

/// The body of every 404 response.
pub open spec fn spec_not_found_body() -> Seq<u8> {
    "Not Found".spec_bytes()
}

/// The body of every 400 response.
pub open spec fn spec_bad_request_body() -> Seq<u8> {
    "Bad Request".spec_bytes()
}

/// The reserved query key that selects vector-markup export instead of
/// rasterization.
pub open spec fn spec_export_flag() -> Seq<char> {
    "export_svg"@
}

/// Whether the query parameters carry the export flag.
pub open spec fn spec_has_export_flag(pairs: Seq<(Seq<char>, Seq<char>)>) -> bool {
    exists|i: int| 0 <= i < pairs.len() && pairs[i].0 == spec_export_flag()
}

/// The render context a list of query pairs builds: keys bound in order,
/// so the last occurrence of a duplicate key wins.
pub open spec fn spec_context_of(pairs: Seq<(Seq<char>, Seq<char>)>) -> Map<Seq<char>, Seq<char>>
    decreases pairs.len(),
{
    if pairs.len() == 0 {
        Map::empty()
    } else {
        spec_context_of(pairs.drop_last()).insert(pairs.last().0, pairs.last().1)
    }
}

/// Builds the render context from decoded query pairs: every key bound to
/// its value, the last occurrence winning on duplicates.
fn build_context(pairs: &Vec<(String, String)>) -> (r: tera::Context)
    ensures
        context_entries(r) == spec_context_of(
            pairs@.map_values(|q: (String, String)| (q.0@, q.1@)),
        ),
{
    let ghost views = pairs@.map_values(|q: (String, String)| (q.0@, q.1@));
    let mut ctx = context_new();
    let n = pairs.len();
    let mut i: usize = 0;
    while i < n
        invariant
            i <= n,
            n == pairs@.len(),
            views == pairs@.map_values(|q: (String, String)| (q.0@, q.1@)),
            context_entries(ctx) == spec_context_of(views.take(i as int)),
        decreases n - i,
    {
        context_insert(&mut ctx, pairs[i].0.as_str(), pairs[i].1.as_str());
        proof {
            assert(views.take(i + 1).drop_last() =~= views.take(i as int));
        }
        i += 1;
    }
    proof {
        assert(views.take(n as int) =~= views);
    }
    ctx
}

/// Whether the decoded query pairs carry the export flag.
fn has_export_flag(pairs: &Vec<(String, String)>) -> (r: bool)
    ensures
        r == spec_has_export_flag(pairs@.map_values(|q: (String, String)| (q.0@, q.1@))),
{
    let ghost views = pairs@.map_values(|q: (String, String)| (q.0@, q.1@));
    let n = pairs.len();
    let mut i: usize = 0;
    while i < n
        invariant
            i <= n,
            n == pairs@.len(),
            views == pairs@.map_values(|q: (String, String)| (q.0@, q.1@)),
            forall|j: int| 0 <= j < i ==> views[j].0 != spec_export_flag(),
        decreases n - i,
    {
        if crate::text::str_eq(pairs[i].0.as_str(), "export_svg") {
            proof {
                assert(views[i as int].0 == spec_export_flag());
            }
            return true;
        }
        i += 1;
    }
    false
}

fn not_found() -> (r: Reply)
    ensures
        r.status == 404,
        r.mime is None,
        r.body@ == spec_not_found_body(),
{
    Reply { status: 404, mime: None, body: "Not Found".as_bytes_vec() }
}

fn bad_request() -> (r: Reply)
    ensures
        r.status == 400,
        r.mime is None,
        r.body@ == spec_bad_request_body(),
{
    Reply { status: 400, mime: None, body: "Bad Request".as_bytes_vec() }
}

/// The success reply for vector-markup export: the rendered markup itself,
/// byte for byte, under the vector MIME type.
fn export_reply(svg_data: &str) -> (r: Reply)
    ensures
        r.status == 200,
        r.mime matches Some(m) && m@ == crate::filters::svg_mime(),
        r.body@ == svg_data.spec_bytes(),
{
    let body = svg_data.as_bytes_vec();
    Reply { status: 200, mime: Some(String::from_str("image/svg+xml")), body }
}

/// The success reply for raster output: the encoded raster stream, byte
/// for byte, under the raster MIME type.
fn png_reply(png: Vec<u8>) -> (r: Reply)
    ensures
        r.status == 200,
        r.mime matches Some(m) && m@ == crate::filters::png_mime(),
        r.body@ == png@,
{
    Reply { status: 200, mime: Some(String::from_str("image/png")), body: png }
}

impl Generator {
    /// Rasterizes rendered vector markup: parses it, allocates a pixel
    /// buffer of the document's intrinsic size, renders into it, and
    /// encodes the buffer as a PNG stream.
    pub fn svg_to_png(&self, svg_data: &str) -> (r: Result<Vec<u8>, RasterError>)
        ensures
            r matches Ok(bytes) ==> bytes@.len() > 0,
            r matches Ok(bytes) ==> png_dimensions(bytes@).0 >= 1 && png_dimensions(bytes@).1
                >= 1,
            svg_data@.len() == 0 ==> r is Err,
            (r matches Err(RasterError::InvalidSize(w, h)) ==> (w >= 1 && h >= 1 && (4 * (
            w as int) > i32::MAX as int || ((h as int) - 1) * (4 * (w as int)) + 4 * (w as int)
                > usize::MAX as int))),
    {
        let tree = match svg_tree_parse(svg_data, &self.opt) {
            Ok(t) => t,
            Err(m) => {
                return Err(RasterError::Parse(m));
            },
        };
        let (width, height) = tree_size(&tree);
        let mut pixmap = match pixmap_new(width, height) {
            Some(p) => p,
            None => {
                return Err(RasterError::InvalidSize(width, height));
            },
        };
        if !render_to_pixmap(&tree, &mut pixmap) {
            return Err(RasterError::Render);
        }
        match pixmap_encode_png(&pixmap) {
            Ok(bytes) => Ok(bytes),
            Err(m) => Err(RasterError::Encode(m)),
        }
    }

    /// Serves one request: parses the raw path-and-query, resolves the
    /// path against the registry, renders the template with the query
    /// parameters bound, and either returns the vector markup (when the
    /// export flag is among the parameters) or rasterizes it to a PNG.
    ///
    /// A path mounted in the registry never yields 404; a path not mounted
    /// yields exactly 404 with body `Not Found`; every other failure —
    /// unparsable request line, render failure, rasterization failure —
    /// yields 400 with body `Bad Request`.
    pub fn handle(&self, raw_url: &str) -> (r: Reply)
        requires
            self.wf(),
        ensures
            r.status == 200 || r.status == 400 || r.status == 404,
            r.status == 404 ==> r.body@ == spec_not_found_body(),
            r.status == 400 ==> r.body@ == spec_bad_request_body(),
            !url_parse_ok(raw_url@) ==> r.status == 400,
            url_parse_ok(raw_url@) && !self.spec_route_set().contains(url_path_of(raw_url@))
                ==> r.status == 404,
            url_parse_ok(raw_url@) && self.spec_route_set().contains(url_path_of(raw_url@))
                ==> r.status != 404,
            r.status == 200 ==> (r.mime matches Some(m) && (m@ == crate::filters::svg_mime() || m@
                == crate::filters::png_mime())),
            r.status == 200 && spec_has_export_flag(url_query_pairs_of(raw_url@)) ==> (
            r.mime matches Some(m) && m@ == crate::filters::svg_mime()),
            r.status == 200 && !spec_has_export_flag(url_query_pairs_of(raw_url@)) ==> (
            r.mime matches Some(m) && m@ == crate::filters::png_mime()),
            r.status != 200 ==> r.mime is None,
    {
        let parsed = parse_request_url(raw_url);
        let (path, pairs) = match parsed {
            Some(p) => p,
            None => {
                return bad_request();
            },
        };
        if !tera_has_template(&self.tera, path.as_str()) {
            return not_found();
        }
        let ctx = build_context(&pairs);
        let svg_data = match tera_render(&self.tera, path.as_str(), &ctx) {
            Ok(s) => s,
            Err(_) => {
                return bad_request();
            },
        };
        if has_export_flag(&pairs) {
            return export_reply(svg_data.as_str());
        }
        match self.svg_to_png(svg_data.as_str()) {
            Ok(png) => png_reply(png),
            Err(_) => bad_request(),
        }
    }
}

} // verus!
