//! Rendering of a stored template with a context of values.
use vstd::prelude::*;
use vstd::utf8::{decode_utf8, encode_utf8, valid_utf8};
use crate::common::domain::ServiceError;
use crate::common::util::{is_hyphenated_uuid, IdGenerator};
use crate::path::{join, joined};
use crate::text::{text_concat, text_concat3};

verus! {

#[verifier::external_type_specification]
#[verifier::external_body]
pub struct ExEnvironment<'a>(minijinja::Environment<'a>);

/// Calls `std::str::from_utf8`, which, as documented, accepts exactly the
/// valid UTF-8 byte sequences; the text is owned here, and a refusal
/// becomes the error's message, whose wording is not stated.
#[verifier::external_body]
fn utf8_text(bytes: &[u8]) -> (r: Result<String, String>)
    ensures
        r is Ok <==> valid_utf8(bytes@),
        r matches Ok(s) ==> s@ == decode_utf8(bytes@),
{
    std::str::from_utf8(bytes).map(|s| s.to_string()).map_err(|e| e.to_string())
}

/// Calls `minijinja::Environment::render_str`, rendering `source` with the
/// values of `ctx`. The engine is opaque here and templates may read the
/// clock, so nothing is stated of the outcome; an error becomes its
/// message.
#[verifier::external_body]
fn render_with_engine(
    engine: &minijinja::Environment<'static>,
    source: &str,
    ctx: &serde_json::Value,
) -> (r: Result<String, String>) {
    engine.render_str(source, ctx).map_err(|e| e.to_string())
}

/// The text of the template `templ`: its bytes decoded as UTF-8, or an
/// error when they are not valid UTF-8.
pub fn template_source(templ: &[u8]) -> (r: Result<String, ServiceError>)
    ensures
        r is Ok <==> valid_utf8(templ@),
        r matches Ok(s) ==> s@ == decode_utf8(templ@),
{
    match utf8_text(templ) {
        Ok(s) => Ok(s),
        Err(e) => Err(ServiceError(e)),
    }
}

/// What rendering answers, given what the engine gave back: the rendered
/// text, or an error carrying the engine's message.
pub fn rendered_outcome(rendered: Result<String, String>) -> (r: Result<String, ServiceError>)
    ensures
        match rendered {
            Ok(t) => r matches Ok(s) && s@ == t@,
            Err(m) => r matches Err(e) && e.0@ == m@,
        },
{
    match rendered {
        Ok(text) => Ok(text),
        Err(e) => Err(ServiceError(e)),
    }
}

/// Renders the template text `templ` with the values of `ctx`: an error
/// when the template is not UTF-8, or when rendering fails. What the
/// engine renders is not stated (see `render_with_engine`); the decoded
/// text (`template_source`) is what it is handed, and `rendered_outcome`
/// says what is answered for each of its results.
pub fn render_text(
    engine: &minijinja::Environment<'static>,
    templ: &[u8],
    ctx: &serde_json::Value,
) -> (r: Result<String, ServiceError>)
    ensures
        !valid_utf8(templ@) ==> r is Err,
{
    let source = match template_source(templ) {
        Ok(s) => s,
        Err(e) => {
            return Err(e);
        },
    };
    rendered_outcome(render_with_engine(engine, source.as_str(), ctx))
}

/// The document answered for a rendering outcome: the UTF-8 bytes of the
/// rendered text, or the same error.
pub fn xml_document(rendered: Result<String, ServiceError>) -> (r: Result<Vec<u8>, ServiceError>)
    ensures
        match rendered {
            Ok(t) => r matches Ok(b) && b@ == encode_utf8(t@),
            Err(e) => r == Err::<Vec<u8>, ServiceError>(e),
        },
{
    match rendered {
        Ok(text) => Ok(rendered_bytes(text)),
        Err(e) => Err(e),
    }
}

/// Renders the template text `templ` with the values of `ctx` into the
/// bytes of the resulting document: an error when the template is not
/// UTF-8, or when rendering fails.
pub fn xml_to_xml(
    engine: &minijinja::Environment<'static>,
    templ: &[u8],
    ctx: &serde_json::Value,
) -> (r: Result<Vec<u8>, ServiceError>)
    ensures
        !valid_utf8(templ@) ==> r is Err,
        r matches Ok(b) ==> exists|text: Seq<char>| b@ == encode_utf8(text),
{
    let rendered = render_text(engine, templ, ctx);
    let ghost text: Seq<char> = match &rendered {
        Ok(t) => t@,
        Err(_) => Seq::empty(),
    };
    let r = xml_document(rendered);
    assert(r matches Ok(b) ==> b@ == encode_utf8(text));
    r
}

/// The UTF-8 bytes of a rendered document.
pub fn rendered_bytes(text: String) -> (r: Vec<u8>)
    ensures
        r@ == encode_utf8(text@),
{
    text.as_str().as_bytes_vec()
}

/// The error when the file of a template is not stored.
pub fn missing_template_file(file_id: &str) -> (r: ServiceError)
    ensures
        r.0@ == "templ with id "@ + file_id@ + " doesn't seem to exist in db"@,
{
    ServiceError(text_concat3("templ with id ", file_id, " doesn't seem to exist in db"))
}

/// The error when a template cannot be turned into a document: the cause
/// and the context's debug text.
pub fn conversion_error(cause: &str, ctx_debug: &str) -> (r: ServiceError)
    ensures
        r.0@ == "cannot convert html to pdf: "@ + cause@ + " "@ + ctx_debug@,
{
    let a = text_concat("cannot convert html to pdf: ", cause);
    ServiceError(text_concat3(a.as_str(), " ", ctx_debug))
}

/// Where a rendered HTML page is written before printing, and the URL it
/// is opened at: a fresh `<uuid>.html` in `base_dir`, and `file://` followed
/// by that path.
pub fn temp_html_page(base_dir: &str) -> (r: (String, String))
    ensures
        exists|id: Seq<char>|
            is_hyphenated_uuid(id) && r.0@ == joined(base_dir@, id + ".html"@) && r.1@ == "file://"@
                + joined(base_dir@, id + ".html"@),
{
    let id = IdGenerator.get();
    let name = text_concat(id.as_str(), ".html");
    let path = join(base_dir, name.as_str());
    let url = text_concat("file://", path.as_str());
    assert(is_hyphenated_uuid(id@) && path@ == joined(base_dir@, id@ + ".html"@) && url@ == "file://"@
        + joined(base_dir@, id@ + ".html"@));
    (path, url)
}

} // verus!
