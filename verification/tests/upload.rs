use file_service::common::domain::ServiceError;
use file_service::store::repository::Filter;
use file_service::upload::domain::{FileUploadV2, FindAllQueryParams};
use file_service::upload::imagemagick::{
    conversion_dir, conversion_failure, convert_args, converted_output_path,
};
use file_service::upload::routes::{
    delete_reply, download_headers, field_upload, file_collection_name, not_found_reply,
    single_upload, uploads_filter, UploadBatch, UploadEntry,
};
use file_service::upload::service::{
    join_with_dots, thumbnail_extension, thumbnail_wanted, FileService, ThumbnailStage, ThumbnailStep,
};
use file_service::upload::ConvertType;

fn is_uuid_text(s: &str) -> bool {
    s.len() == 36
        && s.char_indices().all(|(i, c)| {
            if [8, 13, 18, 23].contains(&i) {
                c == '-'
            } else {
                c.is_ascii_digit() || ('a'..='f').contains(&c)
            }
        })
        && s.as_bytes()[14] == b'7'
        && b"89ab".contains(&s.as_bytes()[19])
}

fn record(id: &str, ext: Option<&str>, ct: Option<&str>) -> FileUploadV2 {
    let mut f = FileUploadV2::default();
    f.id = id.to_string();
    f.extension = ext.map(|e| e.to_string());
    f.content_type = ct.map(|c| c.to_string());
    f
}

fn service() -> FileService {
    FileService { share_drive_path: "/srv/share".to_string() }
}

#[test]
fn new_upload_record_fields() {
    let f = FileUploadV2::new("/tmp/up/Invoice.PDF", "Invoice.PDF", Some("c-1".into()), true, 42).unwrap();
    assert!(is_uuid_text(&f.id));
    assert_eq!(f.content_type.as_deref(), Some("application/pdf"));
    assert_eq!(f.extension.as_deref(), Some("PDF"));
    assert_eq!(f.original_filename, "Invoice.PDF");
    assert_eq!(f.name.as_deref(), Some("Invoice.PDF"));
    assert_eq!(f.bookmarked, Some(false));
    assert_eq!(f.correlation_id.as_deref(), Some("c-1"));
    assert!(f.public_resource);
    assert_eq!(f.size, 42);
    assert!(f.updated_date.is_none() && f.thumbnail_id.is_none() && f.thumb.is_none());
    assert!(f.is_pdf());
    assert!(!f.is_image());
}

#[test]
fn new_upload_without_extension_has_no_type() {
    let f = FileUploadV2::new("/tmp/up/README", "README", None, false, 0).unwrap();
    assert_eq!(f.content_type, None);
    assert_eq!(f.extension, None);
}

#[test]
fn blank_records_are_fresh() {
    let a = FileUploadV2::default();
    let b = FileUploadV2::default();
    assert!(is_uuid_text(&a.id));
    assert_ne!(a.id, b.id);
    assert_eq!(a.bookmarked, Some(false));
    assert_eq!(a.size, 0);
    assert!(a.original_filename.is_empty());
}

#[test]
fn media_type_predicates() {
    let png = record("x", None, Some("image/png"));
    assert!(png.is_image() && png.is_supported_image() && !png.is_pdf());
    let upper = record("x", None, Some("IMAGE/PNG"));
    assert!(upper.is_supported_image());
    assert!(!upper.is_image());
    let webp = record("x", None, Some("image/webp"));
    assert!(webp.is_image() && !webp.is_supported_image());
    let jpg = record("x", None, Some("image/JPG"));
    assert!(jpg.is_supported_image());
    let pdf = record("x", None, Some("Application/PDF"));
    assert!(pdf.is_pdf() && !pdf.is_image() && !pdf.is_supported_image());
    let none = record("x", None, None);
    assert!(!none.is_image() && !none.is_supported_image() && !none.is_pdf());
}

#[test]
fn names_and_paths_on_disk() {
    let s = service();
    let f = record("abc", Some("png"), None);
    assert_eq!(s.get_filename_on_disk(&f), "abc.png");
    let g = record("abc", None, None);
    assert_eq!(s.get_filename_on_disk(&g), "abc.");
    assert_eq!(s.get_physical_path("abc.png"), "/srv/share/abc.png");
    assert_eq!(s.physical_file(&f), "/srv/share/abc.png");
    let slash = FileService { share_drive_path: "/srv/share/".to_string() };
    assert_eq!(slash.physical_file(&f), "/srv/share/abc.png");
}

#[test]
fn upload_plan_for_a_new_file() {
    let s = service();
    let upl = record("id1", Some("txt"), Some("text/plain"));
    let plan = s.plan_upload_at(upl, None, 99);
    assert_eq!(plan.internal_name, "id1.txt");
    assert_eq!(plan.final_path, "/srv/share/id1.txt");
    assert_eq!(plan.record.name.as_deref(), Some("id1.txt"));
    assert_eq!(plan.record.updated_date, None);
    assert!(plan.old_file.is_none() && plan.old_thumbnail.is_none());
    // the file is stored where a download of the saved record looks for it
    assert_eq!(s.physical_file(&plan.record), plan.final_path);
}

#[test]
fn upload_plan_replacing_a_file() {
    let s = service();
    let upl = record("id1", Some("png"), Some("image/png"));
    let mut old = record("id1", Some("jpg"), Some("image/jpeg"));
    old.thumbnail_id = Some("t9".into());
    let plan = s.plan_upload_at(upl, Some(old), 1234);
    assert_eq!(plan.record.updated_date, Some(1234));
    assert_eq!(plan.old_file.as_deref(), Some("/srv/share/id1.jpg"));
    let (tid, tpath) = plan.old_thumbnail.unwrap();
    assert_eq!(tid, "t9");
    assert_eq!(tpath, "/srv/share/thumb-id1.jpg");
    assert_eq!(plan.final_path, "/srv/share/id1.png");
    let upl2 = record("id2", None, None);
    let plan2 = s.plan_upload(upl2, Some(record("id2", None, None)));
    assert!(plan2.record.updated_date.is_some());
    assert!(plan2.old_thumbnail.is_none());
}

#[test]
fn thumbnail_names_and_records() {
    let s = service();
    let upl = record("u1", Some("jpeg"), Some("image/jpeg"));
    assert_eq!(s.thumbnail_file_name(&upl, "u1.jpeg", "png"), "thumb-u1.jpeg.png");
    let same = record("u1", Some("png"), Some("image/png"));
    assert_eq!(s.thumbnail_file_name(&same, "u1.png", "png"), "thumb-u1.png");
    let mut public = record("u1", Some("pdf"), Some("application/pdf"));
    public.public_resource = true;
    let t = s.thumbnail_record(&public, "u1.pdf", "png", 512);
    assert!(is_uuid_text(&t.id));
    assert_eq!(t.content_type.as_deref(), Some("image/png"));
    assert_eq!(t.original_filename, "thumb-u1.pdf.png");
    assert_eq!(t.name.as_deref(), Some("thumb-u1.pdf.png"));
    assert_eq!(t.thumb, Some(true));
    assert_eq!(t.extension.as_deref(), Some("png"));
    assert_eq!(t.size, 512);
    assert!(t.public_resource);
    assert_eq!(t.correlation_id.as_deref(), Some("u1"));
    assert!(t.thumbnail_id.is_none());
}

#[test]
fn thumbnail_extensions_follow_image_formats() {
    assert_eq!(thumbnail_extension("image/png").as_deref(), Some("png"));
    assert_eq!(thumbnail_extension("image/jpeg").as_deref(), Some("jpg.jpeg"));
    assert_eq!(thumbnail_extension("image/gif").as_deref(), Some("gif"));
    assert_eq!(thumbnail_extension("image/x-tga").as_deref(), Some("tga"));
    assert_eq!(thumbnail_extension("image/jpg"), None);
    assert_eq!(thumbnail_extension("IMAGE/PNG"), None);
    for ct in ["image/png", "image/jpeg", "image/gif", "image/webp", "image/tiff", "image/bmp", "image/jpg", "text/html"] {
        let expected = image::ImageFormat::from_mime_type(ct).map(|f| f.extensions_str().join("."));
        assert_eq!(thumbnail_extension(ct), expected, "{ct}");
    }
}

#[test]
fn thumbnails_are_rendered_from_pictures() {
    let s = service();
    assert!(matches!(s.thumbnail_source(&record("a", None, Some("image/GIF"))), ThumbnailStage::Original));
    assert!(matches!(s.thumbnail_source(&record("a", None, Some("application/pdf"))), ThumbnailStage::Converter));
    let picture = image::DynamicImage::new_rgb8(600, 300);
    let (ext, bytes) = s.render_thumbnail(Some("image/png".into()), &picture, 300, 300).unwrap();
    assert_eq!(ext, "png");
    let back = s.decode_picture(&bytes).unwrap();
    assert_eq!((back.width(), back.height()), (300, 150));
    let missing = s.render_thumbnail(None, &picture, 300, 300).err().unwrap();
    assert_eq!(missing.0, "No Content type! Should not happen");
    let unknown = s.render_thumbnail(Some("image/jpg".into()), &picture, 300, 300).err().unwrap();
    assert_eq!(unknown.0, "Format cannot be transformed to thumbnail");
    assert!(s.decode_picture(b"not an image").is_err());
    let jpeg = s.render_thumbnail(Some("image/jpeg".into()), &picture, 300, 300).unwrap();
    assert_eq!(jpeg.0, "jpg.jpeg");
    let mut expected = std::io::Cursor::new(Vec::new());
    picture.thumbnail(300, 300).write_to(&mut expected, image::ImageFormat::Jpeg).unwrap();
    assert_eq!(jpeg.1, expected.into_inner());
    assert_eq!(image::guess_format(&jpeg.1).unwrap(), image::ImageFormat::Jpeg);
}

#[test]
fn thumbnail_steps_follow_the_fallbacks() {
    let s = service();
    let upl = record("a", Some("gif"), Some("image/gif"));
    let mut png = std::io::Cursor::new(Vec::new());
    image::DynamicImage::new_rgb8(4, 2).write_to(&mut png, image::ImageFormat::Png).unwrap();
    let png = png.into_inner();
    match s.thumbnail_step(&upl, ThumbnailStage::Original, Ok(png.clone())) {
        ThumbnailStep::Picture(ct, p) => {
            assert_eq!(ct.as_deref(), Some("image/gif"));
            assert_eq!((p.width(), p.height()), (4, 2));
        }
        _ => panic!("expected a picture"),
    }
    match s.thumbnail_step(&upl, ThumbnailStage::Converter, Ok(png.clone())) {
        ThumbnailStep::Picture(ct, _) => assert_eq!(ct.as_deref(), Some("image/png")),
        _ => panic!("expected a picture"),
    }
    match s.thumbnail_step(&upl, ThumbnailStage::Office, Ok(png)) {
        ThumbnailStep::Picture(ct, _) => assert_eq!(ct.as_deref(), Some("image/png")),
        _ => panic!("expected a picture"),
    }
    let err = || Err(ServiceError("no".into()));
    assert!(matches!(s.thumbnail_step(&upl, ThumbnailStage::Original, err()), ThumbnailStep::Failed(e) if e.0 == "no"));
    assert!(matches!(s.thumbnail_step(&upl, ThumbnailStage::Converter, err()), ThumbnailStep::TryOffice));
    assert!(matches!(s.thumbnail_step(&upl, ThumbnailStage::Office, err()), ThumbnailStep::GiveUp));
    assert!(matches!(s.thumbnail_step(&upl, ThumbnailStage::Converter, Ok(b"junk".to_vec())), ThumbnailStep::Failed(_)));
    assert!(thumbnail_wanted(true, false));
    assert!(!thumbnail_wanted(true, true));
    assert!(!thumbnail_wanted(false, false));
    assert_eq!(join_with_dots(&vec!["pbm".into(), "pam".into(), "ppm".into()]), "pbm.pam.ppm");
    assert_eq!(join_with_dots(&vec![]), "");
    assert_eq!(join_with_dots(&vec!["png".into()]), "png");
}

#[test]
fn deletion_steps_name_record_file_and_thumbnail() {
    let s = service();
    let mut upl = record("u1", Some("pdf"), Some("application/pdf"));
    upl.thumbnail_id = Some("t1".into());
    let (id, path, thumb) = s.deletion_steps(&upl);
    assert_eq!(id, "u1");
    assert_eq!(path, s.physical_file(&upl));
    assert!(path.ends_with("/u1.pdf"));
    assert_eq!(thumb.as_deref(), Some("t1"));
    assert!(s.deletion_steps(&record("u2", None, None)).2.is_none());
}

#[test]
fn filters_for_deletion_and_listing() {
    let s = service();
    assert!(matches!(s.correlation_filter("t1"), Filter::FieldEquals(f, v) if f == "correlationId" && v == "t1"));
    assert!(matches!(s.id_filter("abc"), Filter::IdOrObjectId(v) if v == "abc"));
    let by_corr = uploads_filter(FindAllQueryParams { correlation_id: Some("c".into()) });
    assert!(matches!(by_corr, Filter::FieldEquals(f, v) if f == "correlationId" && v == "c"));
    assert!(matches!(uploads_filter(FindAllQueryParams { correlation_id: None }), Filter::All));
    let zip = s.bulk_zip_path("/tmp/fs");
    assert!(zip.starts_with("/tmp/fs/") && zip.ends_with(".zip"));
    assert!(is_uuid_text(&zip["/tmp/fs/".len()..zip.len() - 4]));
}

#[test]
fn conversion_command_and_output() {
    assert_eq!(ConvertType::Png.to_str(), "png");
    assert_eq!(convert_args("/in/doc.docx", &ConvertType::Png), vec!["/in/doc.docx".to_string(), "png:-".to_string()]);
    assert_eq!(converted_output_path("/tmp/w", "/in/doc.docx", &ConvertType::Png).unwrap(), "/tmp/w/doc.png");
    assert_eq!(converted_output_path("/tmp/w", "/in/archive.tar.gz", &ConvertType::Png).unwrap(), "/tmp/w/archive.tar.png");
    let err = converted_output_path("/tmp/w", "/", &ConvertType::Png).err().unwrap();
    assert_eq!(err.0, "no file name");
    assert_eq!(conversion_failure("out", "bad").0, "error! stdout: out\nstderr: bad");
    let dir = conversion_dir("/tmp/fs");
    assert!(dir.starts_with("/tmp/fs/") && is_uuid_text(&dir["/tmp/fs/".len()..]));
}

#[test]
fn uploaded_fields_become_records() {
    let f = field_upload(Some("photo.JPG"), None, Some("corr".into())).unwrap();
    assert_eq!(f.content_type.as_deref(), Some("image/jpeg"));
    assert_eq!(f.extension.as_deref(), Some("JPG"));
    assert_eq!(f.original_filename, "photo.JPG");
    assert_eq!(f.name.as_deref(), Some("photo.JPG"));
    assert_eq!(f.correlation_id.as_deref(), Some("corr"));
    let g = field_upload(Some("data.bin"), Some("application/x-custom".into()), None).unwrap();
    assert_eq!(g.content_type.as_deref(), Some("application/x-custom"));
    let e: ServiceError = field_upload(None, None, None).err().unwrap();
    assert_eq!(e.0, "no file name in field");
    assert_eq!(e.reply().status, 500);
}

fn entry(name: &str, size: u64) -> UploadEntry {
    let mut upload = FileUploadV2::default();
    upload.size = size;
    UploadEntry { file_name: name.into(), upload, temp_path: format!("/tmp/{name}") }
}

#[test]
fn later_fields_with_the_same_name_win() {
    let mut batch = UploadBatch::new();
    batch.insert(entry("a.txt", 1));
    batch.insert(entry("b.txt", 2));
    batch.insert(entry("a.txt", 3));
    assert_eq!(batch.len(), 2);
    let entries = batch.into_entries();
    assert_eq!(entries[0].file_name, "a.txt");
    assert_eq!(entries[0].upload.size, 3);
    assert_eq!(entries[1].file_name, "b.txt");
    assert_eq!(entries[1].upload.size, 2);
}

#[test]
fn single_upload_takes_query_id_and_visibility() {
    let upl = record("generated", None, None);
    let r = single_upload(upl, Some("chosen".into()), Some(true));
    assert_eq!(r.id, "chosen");
    assert!(r.public_resource);
    let r2 = single_upload(record("generated", None, None), None, None);
    assert_eq!(r2.id, "generated");
    assert!(!r2.public_resource);
}

#[test]
fn upload_route_replies() {
    let nf = not_found_reply();
    assert_eq!((nf.status, nf.key.as_str(), nf.message.as_str()), (404, "error", "Not found"));
    let ok = delete_reply("u1", true);
    assert_eq!((ok.status, ok.key.as_str(), ok.message.as_str()), (200, "result", "upl with id u1 deleted"));
    let ko = delete_reply("u1", false);
    assert_eq!(ko.status, 500);
    assert_eq!(ko.message, "upl with id u1 could not be deleted, check logs");
    assert_eq!(file_collection_name(None), "fileUpload");
    assert_eq!(file_collection_name(Some("files".into())), "files");
}

#[test]
fn download_headers_for_images_and_documents() {
    let mut img = record("i", Some("png"), Some("image/png"));
    img.size = 1234;
    let h = download_headers(&img);
    assert_eq!((h.content_type.as_str(), h.name.as_str(), h.value.as_str()), ("image/png", "content-length", "1234"));
    let mut doc = record("d", Some("pdf"), None);
    doc.original_filename = "report.pdf".into();
    let h2 = download_headers(&doc);
    assert_eq!(h2.content_type, "application/octet-stream");
    assert_eq!(h2.name, "content-disposition");
    assert_eq!(h2.value, "attachment; filename=\"report.pdf\"");
}
