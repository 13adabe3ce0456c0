//! Decisions of the template routes: the filters they query with, how a
//! template is created or updated from a form, and the replies they send.
use vstd::prelude::*;
use crate::common::domain::{JsonReply, ServiceError, TextReply};
use crate::common::util::{is_uuid_v7_text, now_millis};
use crate::store::repository::Filter;
use crate::template::domain::{
    Context, Template, TemplateType, TemplateTypeQuery, ContextQuery, TemplateUpsert,
    TemplateWrapper, template_type_name, context_name,
};
use crate::text::{text_concat, text_concat3, eq_ignore_ascii_case, eq_ignore_case, opt_view};
use crate::upload::domain::{guessed_mime, mime_from_path};

verus! {

/// The name of the templates collection: the configured one, `template` when none is.
pub fn templ_collection_name(configured: Option<String>) -> (r: String)
    ensures
        match configured {
            Some(c) => r@ == c@,
            None => r@ == "template"@,
        },
{
    match configured {
        Some(c) => c,
        None => String::from_str("template"),
    }
}

/// What a rendered document is sent as: its file extension and media type.
pub open spec fn spec_render_output(t: TemplateType) -> (Seq<char>, Seq<char>) {
    match t {
        TemplateType::Html => (".pdf"@, "application/pdf"@),
        TemplateType::Xml => (".xml"@, "text/xml"@),
    }
}

/// Checks a render request against the stored template: the template must
/// be meant for the requested context (else 400 `invalid template
/// context`); the document is then sent with the extension and media type
/// of the template's type (`.pdf`, `application/pdf` for HTML; `.xml`,
/// `text/xml` for XML).
pub fn check_render_request(tpl: &Template, requested: Context) -> (r: Result<(&'static str, &'static str), JsonReply>)
    ensures
        tpl.template_context != requested ==> (r matches Err(e) && e.status == 400 && e.key@ == "error"@
            && e.message@ == "invalid template context"@),
        tpl.template_context == requested ==> (r matches Ok((ext, ct)) && (ext@, ct@)
            == spec_render_output(tpl.template_type)),
{
    if tpl.template_context != requested {
        return Err(JsonReply::error(400, "invalid template context"));
    }
    match tpl.template_type {
        TemplateType::Html => Ok((".pdf", "application/pdf")),
        TemplateType::Xml => Ok((".xml", "text/xml")),
    }
}

/// The reply when the template to render does not exist: 404 `template not found`.
pub fn template_not_found() -> (r: JsonReply)
    ensures
        r.status == 404,
        r.key@ == "error"@,
        r.message@ == "template not found"@,
{
    JsonReply::error(404, "template not found")
}

/// The reply when the store fails: 500 with its message.
pub fn store_failure(msg: &str) -> (r: JsonReply)
    ensures
        r.status == 500,
        r.key@ == "error"@,
        r.message@ == msg@,
{
    JsonReply::error(500, msg)
}

/// The disposition of a rendered document: an attachment named after the
/// requested file name followed by the extension.
pub fn attachment_disposition(file_name: &str, extension: &str) -> (r: String)
    ensures
        r@ == "attachment; filename=\""@ + file_name@ + extension@ + "\""@,
{
    let a = text_concat("attachment; filename=\"", file_name);
    text_concat3(a.as_str(), extension, "\"")
}

/// The filter selecting the templates of a type, by its stored name.
pub fn type_filter(q: &TemplateTypeQuery) -> (r: Filter)
    ensures
        r matches Filter::FieldEquals(f, v) && f@ == "templateType"@ && v@ == template_type_name(q.template_type),
{
    Filter::FieldEquals(String::from_str("templateType"), String::from_str(q.template_type.to_str()))
}

/// The filter selecting the templates of a context, by its stored name.
pub fn context_filter(q: &ContextQuery) -> (r: Filter)
    ensures
        r matches Filter::FieldEquals(f, v) && f@ == "templateContext"@ && v@ == context_name(q.context),
{
    Filter::FieldEquals(String::from_str("templateContext"), String::from_str(q.context.to_str()))
}

/// The filter selecting the templates with the given ids.
pub fn ids_filter(ids: Vec<String>) -> (r: Filter)
    ensures
        r matches Filter::IdIn(v) && v@ == ids@,
{
    Filter::IdIn(ids)
}

/// The stored template `found` marked as updated at `now`.
pub fn mark_updated(found: Template, now: i64) -> (r: Template)
    ensures
        r == (Template { updated_date: Some(now), ..found }),
{
    let mut t = found;
    t.updated_date = Some(now);
    t
}

/// The template an upsert starts from: the stored one with the requested
/// id, marked as updated now, or else a new default template.
pub fn base_template(found: Option<Template>) -> (r: Template)
    ensures
        match found {
            Some(f) => exists|now: i64| r == (Template { updated_date: Some(now), ..f }),
            None => {
                &&& is_uuid_v7_text(r.id@)
                &&& r.updated_date is None
                &&& r.file_id@.len() == 0
                &&& r.template_type == TemplateType::Html
                &&& r.template_context == Context::Invoice
                &&& r.title@.len() == 0
                &&& r.description is None
            },
        },
{
    match found {
        Some(f) => {
            let now = now_millis();
            let r = mark_updated(f, now);
            assert(r == (Template { updated_date: Some(now), ..f }));
            r
        },
        None => {
            let w = TemplateWrapper::default();
            w.0
        },
    }
}

/// The template once the form's fields are applied to `base`: title,
/// description and context come from the form; the rest, the type
/// included, is kept. The requested type is given back beside it.
pub fn merge_upsert(base: Template, query: TemplateUpsert) -> (r: (Template, TemplateType))
    ensures
        r.0 == (Template {
            title: query.title,
            description: query.description,
            template_context: query.template_context,
            ..base
        }),
        r.1 == query.template_type,
{
    let TemplateUpsert { id: _, title, description, template_type, template_context } = query;
    (Template { title, description, template_context, ..base }, template_type)
}

/// Why an uploaded template file whose media type was guessed as `guessed`
/// is refused for the requested type, or `None` when it is accepted: a
/// guessed type other than `text/html` (for HTML) or `text/xml` (for XML),
/// compared up to ASCII case, is refused; a file whose type cannot be
/// guessed is accepted.
pub open spec fn template_file_refusal(requested: TemplateType, guessed: Option<Seq<char>>) -> Option<Seq<char>> {
    match guessed {
        None => None,
        Some(ct) => match requested {
            TemplateType::Html => if eq_ignore_case(ct, "text/html"@) {
                None
            } else {
                Some("File content type doesn't match template type (should be html)"@)
            },
            TemplateType::Xml => if eq_ignore_case(ct, "text/xml"@) {
                None
            } else {
                Some("File content type doesn't match template type (should be xml)"@)
            },
        },
    }
}

/// A template file whose media type is guessed is accepted for its own
/// template type only: as HTML exactly when the type is `text/html` up to
/// ASCII case, as XML exactly when it is `text/xml` up to ASCII case, so
/// no type is accepted for both, and a refusal names the expected type. A
/// file whose type cannot be guessed is accepted for either.
pub proof fn law_template_file_types(ct: Seq<char>)
    ensures
        template_file_refusal(TemplateType::Html, Some(ct)) is None <==> eq_ignore_case(ct, "text/html"@),
        template_file_refusal(TemplateType::Xml, Some(ct)) is None <==> eq_ignore_case(ct, "text/xml"@),
        template_file_refusal(TemplateType::Html, Some(ct)) is Some || template_file_refusal(
            TemplateType::Xml,
            Some(ct),
        ) is Some,
        template_file_refusal(TemplateType::Html, Some(ct)) matches Some(m) ==> m
            == "File content type doesn't match template type (should be html)"@,
        template_file_refusal(TemplateType::Xml, Some(ct)) matches Some(m) ==> m
            == "File content type doesn't match template type (should be xml)"@,
        template_file_refusal(TemplateType::Html, None) is None,
        template_file_refusal(TemplateType::Xml, None) is None,
{
    reveal_strlit("text/html");
    reveal_strlit("text/xml");
    assert(!(eq_ignore_case(ct, "text/html"@) && eq_ignore_case(ct, "text/xml"@)));
}

/// Checks the media type guessed for an uploaded template file against the
/// requested template type; a refusal is answered with 400.
pub fn check_template_file(requested: TemplateType, guessed: Option<String>) -> (r: Result<(), JsonReply>)
    ensures
        match template_file_refusal(requested, opt_view(guessed)) {
            None => r is Ok,
            Some(m) => r matches Err(e) && e.status == 400 && e.key@ == "error"@ && e.message@ == m,
        },
{
    match guessed {
        None => Ok(()),
        Some(ct) => match requested {
            TemplateType::Html => {
                if eq_ignore_ascii_case(ct.as_str(), "text/html") {
                    Ok(())
                } else {
                    Err(JsonReply::error(400, "File content type doesn't match template type (should be html)"))
                }
            },
            TemplateType::Xml => {
                if eq_ignore_ascii_case(ct.as_str(), "text/xml") {
                    Ok(())
                } else {
                    Err(JsonReply::error(400, "File content type doesn't match template type (should be xml)"))
                }
            },
        },
    }
}

/// Checks an uploaded template file, stored at `path`, against the
/// requested template type by the media type guessed from its path.
pub fn check_template_path(requested: TemplateType, path: &str) -> (r: Result<(), JsonReply>)
    ensures
        match template_file_refusal(requested, guessed_mime(path@)) {
            None => r is Ok,
            Some(m) => r matches Err(e) && e.status == 400 && e.key@ == "error"@ && e.message@ == m,
        },
{
    check_template_file(requested, mime_from_path(path))
}

/// The template once a file is attached: it takes the requested type and
/// the id of the stored file.
pub fn attach_file(template: Template, requested: TemplateType, file_id: String) -> (r: Template)
    ensures
        r == (Template { template_type: requested, file_id: file_id, ..template }),
{
    let mut t = template;
    t.template_type = requested;
    t.file_id = file_id;
    t
}

/// The error when the uploaded form field has no file name.
pub fn missing_filename() -> (r: ServiceError)
    ensures
        r.0@ == "missing filename"@,
{
    ServiceError::new("missing filename")
}

/// A template saved without a new file must already have one: 400 with a
/// plain-text explanation otherwise.
pub fn require_attached_file(template: &Template) -> (r: Result<(), TextReply>)
    ensures
        template.file_id@.len() == 0 ==> (r matches Err(e) && e.status == 400 && e.body@
            == "you cannot save a template that doesn't have a file attached to it"@),
        template.file_id@.len() > 0 ==> r is Ok,
{
    if template.file_id.as_str().unicode_len() == 0 {
        Err(TextReply::new(400, "you cannot save a template that doesn't have a file attached to it"))
    } else {
        Ok(())
    }
}

/// The reply to deleting the template `templ_id`, given what the store
/// answered: the id of the deleted template, none when there was no such
/// template, or the store's error message.
pub fn delete_template_reply(templ_id: &str, outcome: Result<Option<String>, String>) -> (r: JsonReply)
    ensures
        match outcome {
            Ok(Some(id)) => r.status == 200 && r.key@ == "result"@ && r.message@ == "templ with id "@
                + id@ + " deleted"@,
            Ok(None) => r.status == 204 && r.key@ == "result"@ && r.message@ == "templ with id "@
                + templ_id@ + " not found"@,
            Err(e) => r.status == 500 && r.key@ == "error"@ && r.message@ == e@,
        },
{
    match outcome {
        Ok(Some(id)) => JsonReply::result(200, text_concat3("templ with id ", id.as_str(), " deleted").as_str()),
        Ok(None) => JsonReply::result(204, text_concat3("templ with id ", templ_id, " not found").as_str()),
        Err(e) => JsonReply::error(500, e.as_str()),
    }
}

} // verus!
