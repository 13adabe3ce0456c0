//! The record of a template and the requests about templates.
use vstd::prelude::*;
use crate::common::util::{is_uuid_v7_text, now_local_millis, IdGenerator};
use crate::store::repository::Identifiable;
use crate::text::copy_opt;

verus! {

#[verifier::external_type_specification]
#[verifier::external_body]
pub struct ExJsonValue(serde_json::Value);

/// The kind of document a template renders.
#[derive(PartialEq, Eq, Structural, Clone, Copy, Debug)]
pub enum TemplateType {
    Html,
    Xml,
}

/// The business context a template is meant for.
#[derive(PartialEq, Eq, Structural, Clone, Copy, Debug)]
pub enum Context {
    Invoice,
}

/// The stored name of a template type: `HTML` or `XML`.
pub open spec fn template_type_name(t: TemplateType) -> Seq<char> {
    match t {
        TemplateType::Html => "HTML"@,
        TemplateType::Xml => "XML"@,
    }
}

/// The stored name of a context: `INVOICE`.
pub open spec fn context_name(c: Context) -> Seq<char> {
    match c {
        Context::Invoice => "INVOICE"@,
    }
}

impl TemplateType {
    /// The stored name of the type (what `Display` writes): `HTML` or `XML`.
    pub fn to_str(&self) -> (r: &'static str)
        ensures
            r@ == template_type_name(*self),
    {
        match self {
            TemplateType::Html => "HTML",
            TemplateType::Xml => "XML",
        }
    }
}

impl Context {
    /// The stored name of the context (what `Display` writes): `INVOICE`.
    pub fn to_str(&self) -> (r: &'static str)
        ensures
            r@ == context_name(*self),
    {
        match self {
            Context::Invoice => "INVOICE",
        }
    }
}

/// The record of a template. Dates are milliseconds since the Unix epoch.
#[derive(Debug)]
pub struct Template {
    pub id: String,
    pub creation_date: i64,
    pub updated_date: Option<i64>,
    pub file_id: String,
    pub template_type: TemplateType,
    pub template_context: Context,
    pub title: String,
    pub description: Option<String>,
}

impl Identifiable for Template {
    open spec fn id_of(&self) -> Seq<char> {
        self.id@
    }

    fn get_id(&self) -> (r: &str) {
        self.id.as_str()
    }
}

impl Template {
    /// A field-for-field copy.
    pub fn duplicate(&self) -> (r: Template)
        ensures
            r == *self,
    {
        Template {
            id: self.id.clone(),
            creation_date: self.creation_date,
            updated_date: self.updated_date,
            file_id: self.file_id.clone(),
            template_type: self.template_type,
            template_context: self.template_context,
            title: self.title.clone(),
            description: copy_opt(&self.description),
        }
    }
}

/// Query naming a context.
pub struct ContextQuery {
    pub context: Context,
}

/// Query naming a template type.
pub struct TemplateTypeQuery {
    pub template_type: TemplateType,
}

/// A request to render a template with a context of values.
pub struct RenderRequest {
    pub template_id: String,
    pub context: serde_json::Value,
    pub file_name: String,
    pub template_context: Context,
}

/// A template record being built.
pub struct TemplateWrapper(pub Template);

/// The fields a template creation or update sets.
pub struct TemplateUpsert {
    pub id: Option<String>,
    pub title: String,
    pub description: Option<String>,
    pub template_type: TemplateType,
    pub template_context: Context,
}

impl Default for TemplateWrapper {
    /// A new HTML invoice template with a fresh id, created now, without
    /// file, title, description or update.
    fn default() -> (r: TemplateWrapper)
        ensures
            is_uuid_v7_text(r.0.id@),
            r.0.updated_date is None,
            r.0.file_id@.len() == 0,
            r.0.template_type == TemplateType::Html,
            r.0.template_context == Context::Invoice,
            r.0.title@.len() == 0,
            r.0.description is None,
    {
        TemplateWrapper(Template {
            id: IdGenerator.get(),
            creation_date: now_local_millis(),
            updated_date: None,
            file_id: String::new(),
            template_type: TemplateType::Html,
            template_context: Context::Invoice,
            title: String::new(),
            description: None,
        })
    }
}

} // verus!
