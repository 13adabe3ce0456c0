use file_service::common::domain::{JsonReply, ServiceError, TextReply};
use file_service::common::user_header::{
    resolve_user_info, ExtractUserInfo, UserInfo, UserInfoRejection, X_USER_INFO_HEADER,
};
use file_service::common::util::{IdGenerator, StoreCollection};
use file_service::store::repository::{
    cursor_fetch_limit, cursor_filter, finish_cursor_page, plan_page, Filter, Page, PagePlan, Pageable,
};
use file_service::store::StoreError;
use file_service::template::domain::{Context, Template, TemplateType, TemplateTypeQuery, ContextQuery, TemplateUpsert, TemplateWrapper};
use file_service::template::render::{conversion_error, missing_template_file, render_text, rendered_bytes, rendered_outcome, temp_html_page, template_source, xml_document, xml_to_xml};
use file_service::template::routes::{
    attach_file, attachment_disposition, base_template, check_render_request, check_template_file, check_template_path,
    context_filter, delete_template_reply, ids_filter, mark_updated, merge_upsert, missing_filename,
    require_attached_file, store_failure, template_not_found, templ_collection_name, type_filter,
};
use file_service::upload::domain::FileUploadV2;

fn doc(id: &str) -> FileUploadV2 {
    let mut f = FileUploadV2::default();
    f.id = id.to_string();
    f
}

fn docs(ids: &[&str]) -> Vec<FileUploadV2> {
    ids.iter().map(|i| doc(i)).collect()
}

fn ids(v: &[FileUploadV2]) -> Vec<String> {
    v.iter().map(|d| d.id.clone()).collect()
}

#[test]
fn errors_and_replies() {
    let e = ServiceError::new("boom");
    assert_eq!(e.message(), "boom");
    let r: JsonReply = e.reply();
    assert_eq!((r.status, r.key.as_str(), r.message.as_str()), (500, "error", "boom"));
    let s = StoreError::new("down");
    assert_eq!(s.message(), "down");
    let t = TextReply::new(400, "no");
    assert_eq!((t.status, t.body.as_str()), (400, "no"));
    assert_eq!(StoreCollection("c".into()).duplicate().0, "c");
    assert_ne!(IdGenerator.get(), IdGenerator.get());
}

fn user(id: &str) -> UserInfo {
    UserInfo {
        id: id.into(),
        full_name: None,
        given_name: None,
        family_name: None,
        middle_name: None,
        username: Some("jdoe".into()),
        email: None,
        roles: vec!["admin".into()],
        groups: vec![],
        tenant: None,
    }
}

#[test]
fn user_header_decoding() {
    assert_eq!(X_USER_INFO_HEADER, "x-user-info");
    let bytes = ExtractUserInfo::token_bytes("eyJpZCI6IjEifQ==").unwrap();
    assert_eq!(bytes, br#"{"id":"1"}"#.to_vec());
    let bad = ExtractUserInfo::token_bytes("not base64!").err().unwrap();
    assert_eq!(bad.0, "could not extract token");
    let ok = ExtractUserInfo::from_parsed("eyJpZCI6IjEifQ==", Some(user("1"))).unwrap();
    assert_eq!(ok.header, "eyJpZCI6IjEifQ==");
    assert_eq!(ok.user_info.id, "1");
    let none = ExtractUserInfo::from_parsed("x", None).err().unwrap();
    assert_eq!(none.0, "could not extract token");
}

#[test]
fn user_header_outcomes() {
    let missing = resolve_user_info(None).err().unwrap();
    assert!(matches!(missing, UserInfoRejection::Missing));
    let m = missing.reply();
    assert_eq!((m.status, m.message.as_str()), (403, "X-USER-INFO is missing"));
    let invalid = resolve_user_info(Some(None)).err().unwrap();
    let i = invalid.reply();
    assert_eq!((i.status, i.message.as_str()), (400, "X-USER-INFO is invalid"));
    let x = ExtractUserInfo { user_info: user("7"), header: "h".into() };
    let got = resolve_user_info(Some(Some(x))).ok().unwrap();
    assert_eq!(got.user_info.id, "7");
}

#[test]
fn cursor_pages() {
    // fewer than the page size: all shown, no next page
    let p = finish_cursor_page(docs(&["a", "b"]), 3);
    assert_eq!(ids(&p.content), vec!["a", "b"]);
    assert_eq!(p.current.as_deref(), Some("a"));
    assert_eq!(p.next, None);
    // one more than the page size: the extra marks the next page
    let p = finish_cursor_page(docs(&["a", "b", "c", "d"]), 3);
    assert_eq!(ids(&p.content), vec!["a", "b", "c"]);
    assert_eq!(p.next.as_deref(), Some("d"));
    assert_eq!(p.current.as_deref(), Some("a"));
    // exactly the page size: the last one is set aside too
    let p = finish_cursor_page(docs(&["a", "b", "c"]), 3);
    assert_eq!(ids(&p.content), vec!["a", "b"]);
    assert_eq!(p.next.as_deref(), Some("c"));
    let p = finish_cursor_page(docs(&[]), 0);
    assert!(p.content.is_empty() && p.next.is_none() && p.current.is_none());
    assert_eq!(cursor_fetch_limit(3), 4);
}

#[test]
fn cursor_filters() {
    assert!(matches!(cursor_filter(None, None), Filter::All));
    assert!(matches!(cursor_filter(None, Some("k".into())), Filter::IdGreaterThan(k) if k == "k"));
    let f = cursor_filter(Some(Filter::FieldEquals("a".into(), "b".into())), Some("k".into()));
    match f {
        Filter::And(l, r) => {
            assert!(matches!(*l, Filter::FieldEquals(ref a, ref b) if a == "a" && b == "b"));
            assert!(matches!(*r, Filter::IdGreaterThan(ref k) if k == "k"));
        }
        _ => panic!("expected a conjunction"),
    }
}

#[test]
fn numbered_pages() {
    let req = Pageable { page: None, limit: None, filter: None };
    assert!(matches!(plan_page(&req, 25), PagePlan::Fetch { skip: 0, limit: 10, page: 0 }));
    let req2 = Pageable { page: Some(2), limit: Some(10), filter: None };
    assert!(matches!(plan_page(&req2, 25), PagePlan::Fetch { skip: 20, limit: 10, page: 2 }));
    let req3 = Pageable { page: Some(3), limit: Some(10), filter: None };
    assert!(matches!(plan_page(&req3, 25), PagePlan::Empty));
    assert!(matches!(plan_page(&req2, 20), PagePlan::Empty));
    let p = Page::finish(25, 10, 1, vec![1u8; 10]);
    assert_eq!((p.total_elements, p.current_page, p.next_page, p.page_size), (25, 1, Some(2), 10));
    let last = Page::finish(25, 10, 2, vec![1u8; 5]);
    assert_eq!(last.next_page, None);
    let exact = Page::finish(20, 10, 1, vec![1u8; 10]);
    assert_eq!(exact.next_page, None);
    let e: Page<u8> = Page::empty();
    assert_eq!((e.total_elements, e.current_page, e.next_page, e.page_size), (0, 0, None, 0));
}

fn template(ctx: Context, tt: TemplateType) -> Template {
    Template {
        id: "t1".into(),
        creation_date: 1,
        updated_date: None,
        file_id: "f1".into(),
        template_type: tt,
        template_context: ctx,
        title: "Invoice".into(),
        description: None,
    }
}

#[test]
fn template_names_and_filters() {
    assert_eq!(TemplateType::Html.to_str(), "HTML");
    assert_eq!(TemplateType::Xml.to_str(), "XML");
    assert_eq!(Context::Invoice.to_str(), "INVOICE");
    let f = type_filter(&TemplateTypeQuery { template_type: TemplateType::Xml });
    assert!(matches!(f, Filter::FieldEquals(k, v) if k == "templateType" && v == "XML"));
    let c = context_filter(&ContextQuery { context: Context::Invoice });
    assert!(matches!(c, Filter::FieldEquals(k, v) if k == "templateContext" && v == "INVOICE"));
    assert!(matches!(ids_filter(vec!["a".into()]), Filter::IdIn(v) if v == vec!["a".to_string()]));
    assert_eq!(templ_collection_name(None), "template");
}

#[test]
fn render_requests() {
    let html = template(Context::Invoice, TemplateType::Html);
    assert_eq!(check_render_request(&html, Context::Invoice).ok(), Some((".pdf", "application/pdf")));
    let xml = template(Context::Invoice, TemplateType::Xml);
    assert_eq!(check_render_request(&xml, Context::Invoice).ok(), Some((".xml", "text/xml")));
    assert_eq!(attachment_disposition("inv-1", ".pdf"), "attachment; filename=\"inv-1.pdf\"");
    let nf = template_not_found();
    assert_eq!((nf.status, nf.message.as_str()), (404, "template not found"));
    assert_eq!(store_failure("db down").message, "db down");
    assert_eq!(missing_template_file("f9").0, "templ with id f9 doesn't seem to exist in db");
    assert_eq!(conversion_error("bad", "{}").0, "cannot convert html to pdf: bad {}");
    let (path, url) = temp_html_page("/home/u");
    assert!(path.starts_with("/home/u/") && path.ends_with(".html"));
    assert_eq!(url, format!("file://{path}"));
}

#[test]
fn xml_templates_render_with_the_engine() {
    let mut env = minijinja::Environment::new();
    minijinja_contrib::add_to_environment(&mut env);
    let ctx: serde_json::Value = serde_json::from_str(r#"{"name": "Nordine", "items": ["apple", "bananas"]}"#).unwrap();
    let out = xml_to_xml(&env, b"<a n=\"{{name}}\">{% for i in items %}<i>{{i}}</i>{% endfor %}</a>", &ctx).unwrap();
    assert_eq!(String::from_utf8(out).unwrap(), "<a n=\"Nordine\"><i>apple</i><i>bananas</i></a>");
    assert!(xml_to_xml(&env, &[0xff, 0xfe], &ctx).is_err());
    assert!(xml_to_xml(&env, b"{% if %}", &ctx).is_err());
    assert_eq!(render_text(&env, b"<p>{{name}}</p>", &ctx).unwrap(), "<p>Nordine</p>");
    let bad = render_text(&env, &[0xff, 0xfe], &ctx).err().unwrap();
    assert_eq!(bad.0, std::str::from_utf8(&[0xff, 0xfe]).unwrap_err().to_string());
    assert_eq!(rendered_bytes("é".into()), "é".as_bytes().to_vec());
    assert_eq!(template_source("<é>".as_bytes()).unwrap(), "<é>");
    assert!(template_source(&[0xc3]).is_err());
    assert_eq!(rendered_outcome(Ok("ok".into())).unwrap(), "ok");
    assert_eq!(rendered_outcome(Err("boom".into())).err().unwrap().0, "boom");
    assert_eq!(xml_document(Ok("<é/>".into())).unwrap(), "<é/>".as_bytes().to_vec());
    assert_eq!(xml_document(Err(ServiceError("bad".into()))).err().unwrap().0, "bad");
}

#[test]
fn template_upserts() {
    let fresh = base_template(None);
    assert_eq!(fresh.template_type, TemplateType::Html);
    assert!(fresh.file_id.is_empty() && fresh.updated_date.is_none() && fresh.title.is_empty());
    assert_eq!(fresh.id.len(), 36);
    let stored = template(Context::Invoice, TemplateType::Xml);
    let updated = base_template(Some(stored));
    assert!(updated.updated_date.is_some());
    assert_eq!(updated.file_id, "f1");
    assert_eq!(mark_updated(template(Context::Invoice, TemplateType::Html), 5).updated_date, Some(5));
    let q = TemplateUpsert {
        id: Some("t1".into()),
        title: "New".into(),
        description: Some("d".into()),
        template_type: TemplateType::Html,
        template_context: Context::Invoice,
    };
    let (merged, requested) = merge_upsert(template(Context::Invoice, TemplateType::Xml), q);
    assert_eq!(merged.title, "New");
    assert_eq!(merged.description.as_deref(), Some("d"));
    // without a new file the stored type is kept
    assert_eq!(merged.template_type, TemplateType::Xml);
    assert_eq!(requested, TemplateType::Html);
    let attached = attach_file(merged, requested, "file-2".into());
    assert_eq!((attached.template_type, attached.file_id.as_str()), (TemplateType::Html, "file-2"));
    let w = TemplateWrapper::default();
    assert_eq!(w.0.template_context, Context::Invoice);
}

#[test]
fn template_file_checks() {
    assert!(check_template_file(TemplateType::Html, Some("text/html".into())).is_ok());
    assert!(check_template_file(TemplateType::Html, None).is_ok());
    let e = check_template_file(TemplateType::Html, Some("text/xml".into())).err().unwrap();
    assert_eq!(e.status, 400);
    assert_eq!(e.message, "File content type doesn't match template type (should be html)");
    assert!(check_template_file(TemplateType::Xml, Some("TEXT/XML".into())).is_ok());
    let x = check_template_file(TemplateType::Xml, Some("text/html".into())).err().unwrap();
    assert_eq!(x.message, "File content type doesn't match template type (should be xml)");
    assert!(check_template_path(TemplateType::Html, "/share/upload/invoice.html").is_ok());
    assert!(check_template_path(TemplateType::Xml, "/share/upload/invoice.xml").is_ok());
    assert!(check_template_path(TemplateType::Html, "/share/upload/noext").is_ok());
    let p = check_template_path(TemplateType::Html, "/share/upload/invoice.xml").err().unwrap();
    assert_eq!(p.message, "File content type doesn't match template type (should be html)");
    assert_eq!(missing_filename().0, "missing filename");
    let mut t = template(Context::Invoice, TemplateType::Html);
    assert!(require_attached_file(&t).is_ok());
    t.file_id = String::new();
    let r = require_attached_file(&t).err().unwrap();
    assert_eq!((r.status, r.body.as_str()), (400, "you cannot save a template that doesn't have a file attached to it"));
}

#[test]
fn template_deletion_replies() {
    let ok = delete_template_reply("t1", Ok(Some("t1".into())));
    assert_eq!((ok.status, ok.key.as_str(), ok.message.as_str()), (200, "result", "templ with id t1 deleted"));
    let none = delete_template_reply("t2", Ok(None));
    assert_eq!((none.status, none.message.as_str()), (204, "templ with id t2 not found"));
    let err = delete_template_reply("t3", Err("down".into()));
    assert_eq!((err.status, err.key.as_str(), err.message.as_str()), (500, "error", "down"));
}
