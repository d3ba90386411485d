//! The helper functions callable from templates: `fetch` (network fetch
//! gated by the allowlist guard) and `to_code` (scannable-code generation).
//! Both return `data:` URIs embeddable in vector-markup attributes.

use std::collections::HashMap;
use std::io::Read;

use tera::Value;

use vstd::prelude::*;
use vstd::string::*;
use vstd::utf8::encode_utf8;

use crate::generator::{tera_filter_set, tera_template_set, tera_template_srcs};
use crate::state::State;

verus! {

/// The standard base64 encoding (with padding) of a byte sequence, as
/// `base64::encode` produces it.
pub uninterp spec fn base64_of(bytes: Seq<u8>) -> Seq<char>;

/// The vector markup that the code generator renders for the given text and
/// module colors; a pure function of its arguments.
pub uninterp spec fn qr_svg_of(text: Seq<char>, dark: Seq<char>, light: Seq<char>) -> Seq<char>;

/// Whether the code scheme can encode the given text at all — false
/// exactly for text beyond the capacity of its largest version. A function
/// of the text alone: the encoder consults nothing else.
pub uninterp spec fn qr_encodable(text: Seq<char>) -> bool;

/// Relies on `base64::encode`: standard alphabet with padding, so four
/// output characters for every three input bytes, rounded up.
#[verifier::external_body]
fn b64_encode(bytes: &[u8]) -> (r: String)
    ensures
        r@ == base64_of(bytes@),
        r@.len() == 4 * ((bytes@.len() + 2) / 3),
{
    base64::encode(bytes)
}

/// Relies on `qrcode::QrCode::new` and its svg renderer: `new` fails
/// exactly when the text exceeds the capacity of every code version — a
/// deterministic function of the text alone — and the rendered markup
/// depends on the text and the two colors alone.
#[verifier::external_body]
fn qr_code_svg(text: &str, dark: &str, light: &str) -> (r: Result<String, ()>)
    ensures
        r is Ok <==> qr_encodable(text@),
        r matches Ok(svg) ==> svg@ == qr_svg_of(text@, dark@, light@),
{
    let code = match qrcode::QrCode::new(text) {
        Ok(code) => code,
        Err(_) => {
            return Err(());
        },
    };
    let svg = code
        .render()
        .dark_color(qrcode::render::svg::Color(dark))
        .light_color(qrcode::render::svg::Color(light))
        .build();
    Ok(svg)
}

/// What one blocking GET produced: a response that was read to the end, a
/// non-success status reported before the body was read, or a transport
/// failure.
pub enum HttpOutcome {
    Response { status: u16, content_type: Option<String>, body: Vec<u8> },
    Status(u16),
    Transport(String),
}

/// Relies on `ureq::get` and `ureq::Request::call`: `Err(Error::Status)`
/// carries the numeric status of a response with status >= 400, before the
/// body is read; any other failure, of the request or while reading the
/// body, is a transport error. A timeout of `Some(ms)` bounds the whole
/// call; `None` leaves it unbounded. Nothing is promised of which outcome
/// comes back: the network decides.
#[verifier::external_body]
fn http_get(url: &str, timeout_ms: Option<u64>) -> (r: HttpOutcome)
    ensures
        r matches HttpOutcome::Status(code) ==> code >= 400,
{
    let mut req = ureq::get(url);
    if let Some(ms) = timeout_ms { req = req.timeout(std::time::Duration::from_millis(ms)); }
    let resp = match req.call() {
        Ok(resp) => resp,
        Err(ureq::Error::Status(code, _)) => return HttpOutcome::Status(code),
        Err(e) => return HttpOutcome::Transport(e.to_string()),
    };
    let status = resp.status();
    let content_type = resp.header("Content-Type").map(|v| v.to_owned());
    let mut body: Vec<u8> = Vec::new();
    match resp.into_reader().read_to_end(&mut body) {
        Ok(_) => HttpOutcome::Response { status, content_type, body },
        Err(e) => HttpOutcome::Transport(e.to_string()),
    }
}

/// Why a template `fetch` failed.
#[derive(Debug, PartialEq, Eq)]
pub enum FetchError {
    /// The URL matched no allowlist prefix; no network call was made.
    NotAllowed,
    /// The response status was outside the 2xx range; carries that status.
    BadStatus(u16),
    /// The response had no `Content-Type` header.
    MissingContentType,
    /// The request or the body read failed; carries the underlying cause.
    Io(String),
}

/// Why a template `to_code` failed.
#[derive(Debug, PartialEq, Eq)]
pub enum CodeError {
    /// The text exceeds the capacity of the code scheme.
    Encoding,
}

/// The `data:` URI embedding a payload of the given MIME type.
pub open spec fn spec_data_url(mime: Seq<char>, bytes: Seq<u8>) -> Seq<char> {
    "data:"@ + mime + ";base64,"@ + base64_of(bytes)
}

/// The MIME type of vector markup.
pub open spec fn svg_mime() -> Seq<char> {
    "image/svg+xml"@
}

/// The MIME type of the raster output.
pub open spec fn png_mime() -> Seq<char> {
    "image/png"@
}

/// Encodes a payload as a `data:` URI with the given MIME type.
pub fn to_dataurl(mime: &str, value: &[u8]) -> (r: String)
    ensures
        r@ == spec_data_url(mime@, value@),
{
    let mut s = String::from_str("data:");
    s.append(mime);
    s.append(";base64,");
    let b64 = b64_encode(value);
    s.append(b64.as_str());
    proof {
        assert(s@ =~= spec_data_url(mime@, value@));
    }
    s
}

/// Turns what the network handed back into the fetch result: a 2xx status
/// and a `Content-Type` header are required, and the body is embedded as a
/// `data:` URI of that type.
pub fn response_to_data_url(status: u16, content_type: Option<String>, body: Vec<u8>) -> (r: Result<
    String,
    FetchError,
>)
    ensures
        !(200 <= status < 300) ==> r == Err::<String, FetchError>(FetchError::BadStatus(status)),
        200 <= status < 300 && content_type is None ==> r == Err::<String, FetchError>(
            FetchError::MissingContentType,
        ),
        200 <= status < 300 ==> (content_type matches Some(mime) ==> (r matches Ok(s) && s@
            == spec_data_url(mime@, body@))),
{
    if !(200 <= status && status < 300) {
        return Err(FetchError::BadStatus(status));
    }
    match content_type {
        None => Err(FetchError::MissingContentType),
        Some(mime) => Ok(to_dataurl(mime.as_str(), body.as_slice())),
    }
}

/// The timeout handed to the transport: a positive count of milliseconds
/// bounds the call; zero or absent means none.
pub open spec fn spec_effective_timeout(timeout_ms: Option<u64>) -> Option<u64> {
    match timeout_ms {
        Some(ms) => if ms > 0 {
            Some(ms)
        } else {
            None
        },
        None => None,
    }
}

/// Maps the template-level timeout to the transport's: zero means none.
pub fn effective_timeout(timeout_ms: Option<u64>) -> (r: Option<u64>)
    ensures
        r == spec_effective_timeout(timeout_ms),
{
    match timeout_ms {
        Some(ms) => if ms > 0 {
            Some(ms)
        } else {
            None
        },
        None => None,
    }
}

/// Fetches an allowed URL and embeds the response body as a `data:` URI.
///
/// The guard is consulted first: a URL matching no allowlist prefix fails
/// with `NotAllowed` and no network call is made. An allowed URL is fetched
/// with the given timeout (`None` or `Some(0)` for no timeout); success
/// requires a 2xx status and a `Content-Type` header.
pub fn fetch(state: &State, url: &str, timeout_ms: Option<u64>) -> (r: Result<String, FetchError>)
    ensures
        (r == Err::<String, FetchError>(FetchError::NotAllowed)) <==> !state.spec_allows(url@),
        r matches Ok(s) ==> exists|mime: Seq<char>, body: Seq<u8>| s@ == spec_data_url(mime, body),
        r matches Err(FetchError::BadStatus(code)) ==> !(200 <= code < 300),
{
    if !state.allow_url(url) {
        return Err(FetchError::NotAllowed);
    }
    match http_get(url, effective_timeout(timeout_ms)) {
        HttpOutcome::Response { status, content_type, body } => {
            let ghost ct = content_type;
            let ghost bytes = body@;
            let r = response_to_data_url(status, content_type, body);
            proof {
                if 200 <= status < 300 && ct is Some {
                    assert(r.unwrap()@ == spec_data_url(ct.unwrap()@, bytes));
                }
            }
            r
        },
        HttpOutcome::Status(code) => Err(FetchError::BadStatus(code)),
        HttpOutcome::Transport(msg) => Err(FetchError::Io(msg)),
    }
}

/// Encodes text into a scannable code rendered as vector markup with the
/// given module colors, and embeds it as a `data:` URI of the vector MIME
/// type. The colors default to a dark background of `#000` and a light
/// foreground of `#fff`. Text beyond the capacity of the code scheme fails
/// with `Encoding`; the failure is a result, never an abort.
pub fn to_code(text: &str, fg: Option<&str>, bg: Option<&str>) -> (r: Result<String, CodeError>)
    ensures
        r is Ok <==> qr_encodable(text@),
        r == Err::<String, CodeError>(CodeError::Encoding) <==> !qr_encodable(text@),
        r matches Ok(s) ==> s@ == spec_data_url(
            svg_mime(),
            encode_utf8(
                qr_svg_of(
                    text@,
                    match bg {
                        Some(c) => c@,
                        None => "#000"@,
                    },
                    match fg {
                        Some(c) => c@,
                        None => "#fff"@,
                    },
                ),
            ),
        ),
{
    let dark: &str = match bg {
        Some(c) => c,
        None => "#000",
    };
    let light: &str = match fg {
        Some(c) => c,
        None => "#fff",
    };
    match qr_code_svg(text, dark, light) {
        Ok(svg) => {
            let bytes = svg.as_str().as_bytes_vec();
            Ok(to_dataurl("image/svg+xml", bytes.as_slice()))
        },
        Err(_) => Err(CodeError::Encoding),
    }
}

/// The diagnostic for a filter argument of the wrong kind.
pub open spec fn spec_filter_arg_error(
    filter: Seq<char>,
    arg: Seq<char>,
    expected: Seq<char>,
) -> Seq<char> {
    "Filter `"@ + filter + "`: `"@ + arg + "` must be a "@ + expected
}

/// Builds the diagnostic for a filter argument of the wrong kind.
pub fn filter_arg_error(filter: &str, arg: &str, expected: &str) -> (r: String)
    ensures
        r@ == spec_filter_arg_error(filter@, arg@, expected@),
{
    let mut s = String::from_str("Filter `");
    s.append(filter);
    s.append("`: `");
    s.append(arg);
    s.append("` must be a ");
    s.append(expected);
    proof {
        assert(s@ =~= spec_filter_arg_error(filter@, arg@, expected@));
    }
    s
}

/// The diagnostic for a failed fetch, naming the URL and the cause.
pub open spec fn spec_fetch_error_message(url: Seq<char>, e: FetchError) -> Seq<char> {
    match e {
        FetchError::NotAllowed => "Fetch: Not Allowed `"@ + url + "`"@,
        FetchError::BadStatus(status) => "Fetch: Bad Status "@ + crate::text::spec_decimal(
            status as nat,
        ),
        FetchError::MissingContentType => "Fetch: Missing Content-Type `"@ + url + "`"@,
        FetchError::Io(cause) => "Fetch: IO Error `"@ + url + "`, "@ + cause@,
    }
}

/// Builds the diagnostic for a failed fetch.
pub fn fetch_error_message(url: &str, e: &FetchError) -> (r: String)
    ensures
        r@ == spec_fetch_error_message(url@, *e),
{
    match e {
        FetchError::NotAllowed => {
            let mut s = String::from_str("Fetch: Not Allowed `");
            s.append(url);
            s.append("`");
            proof {
                assert(s@ =~= spec_fetch_error_message(url@, *e));
            }
            s
        },
        FetchError::BadStatus(status) => {
            let mut s = String::from_str("Fetch: Bad Status ");
            let digits = crate::text::decimal_string(*status as u64);
            s.append(digits.as_str());
            proof {
                assert(s@ =~= spec_fetch_error_message(url@, *e));
            }
            s
        },
        FetchError::MissingContentType => {
            let mut s = String::from_str("Fetch: Missing Content-Type `");
            s.append(url);
            s.append("`");
            proof {
                assert(s@ =~= spec_fetch_error_message(url@, *e));
            }
            s
        },
        FetchError::Io(cause) => {
            let mut s = String::from_str("Fetch: IO Error `");
            s.append(url);
            s.append("`, ");
            s.append(cause.as_str());
            proof {
                assert(s@ =~= spec_fetch_error_message(url@, *e));
            }
            s
        },
    }
}

/// The diagnostic for a failed code generation.
pub open spec fn spec_code_error_message(e: CodeError) -> Seq<char> {
    match e {
        CodeError::Encoding => "Code: Encoding Failed"@,
    }
}

/// Builds the diagnostic for a failed code generation.
pub fn code_error_message(e: &CodeError) -> (r: String)
    ensures
        r@ == spec_code_error_message(*e),
{
    match e {
        CodeError::Encoding => String::from_str("Code: Encoding Failed"),
    }
}

/// Relies on `tera::Tera::register_filter`: it adds the closure to the
/// engine's filter map under the given name and touches nothing else, in
/// particular no templates. The closure only converts the engine's values
/// — a wrongly typed value or argument raises the verified diagnostic —
/// and calls the verified `fetch` and `fetch_error_message`, with the
/// guard it captured.
#[verifier::external_body]
fn register_fetch_filter(t: &mut tera::Tera, name: &str, state: &State)
    ensures
        tera_template_set(*final(t)) == tera_template_set(*old(t)),
        tera_template_srcs(*final(t)) == tera_template_srcs(*old(t)),
        tera_filter_set(*final(t)) == tera_filter_set(*old(t)).insert(name@),
{
    let guard = state.clone();
    let fname = name.to_owned();
    t.register_filter(
        name,
        move |v: &Value, args: &HashMap<String, Value>| {
            let err = |a: &str, k: &str| tera::Error::msg(filter_arg_error(&fname, a, k));
            let url = v.as_str().ok_or_else(|| err("value", "string"))?;
            let timeout = args.get("timeout").map(|a| a.as_u64().ok_or_else(|| err("timeout", "number"))).transpose()?;
            match fetch(&guard, url, timeout) {
                Ok(data) => Ok(Value::String(data)),
                Err(e) => Err(tera::Error::msg(fetch_error_message(url, &e))),
            }
        },
    );
}

/// Relies on `tera::Tera::register_filter`: it adds the closure to the
/// engine's filter map under the given name and touches nothing else, in
/// particular no templates. The closure only converts the engine's values
/// — a wrongly typed value or argument raises the verified diagnostic —
/// and calls the verified `to_code` and `code_error_message`.
#[verifier::external_body]
fn register_code_filter(t: &mut tera::Tera, name: &str)
    ensures
        tera_template_set(*final(t)) == tera_template_set(*old(t)),
        tera_template_srcs(*final(t)) == tera_template_srcs(*old(t)),
        tera_filter_set(*final(t)) == tera_filter_set(*old(t)).insert(name@),
{
    let fname = name.to_owned();
    t.register_filter(
        name,
        move |v: &Value, args: &HashMap<String, Value>| {
            let err = |a: &str| tera::Error::msg(filter_arg_error(&fname, a, "string"));
            let text = v.as_str().ok_or_else(|| err("value"))?;
            let fg = args.get("fg").map(|a| a.as_str().ok_or_else(|| err("fg"))).transpose()?;
            let bg = args.get("bg").map(|a| a.as_str().ok_or_else(|| err("bg"))).transpose()?;
            match to_code(text, fg, bg) {
                Ok(data) => Ok(Value::String(data)),
                Err(e) => Err(tera::Error::msg(code_error_message(&e))),
            }
        },
    );
}

/// Registers the two helper functions into a template engine: `fetch`,
/// gated by the given guard, and `to_code`. The engine ends with exactly
/// those two filter names added; its templates are untouched.
pub fn register(t: &mut tera::Tera, state: &State)
    ensures
        tera_template_set(*final(t)) == tera_template_set(*old(t)),
        tera_template_srcs(*final(t)) == tera_template_srcs(*old(t)),
        tera_filter_set(*final(t)) == tera_filter_set(*old(t)).insert("fetch"@).insert(
            "to_code"@,
        ),
{
    register_fetch_filter(t, "fetch", state);
    register_code_filter(t, "to_code");
}

} // verus!
