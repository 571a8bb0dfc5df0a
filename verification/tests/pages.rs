use fileslink::pages::{
    create_app, files_list, health, not_found_handler, root, Endpoint, Method, MAX_BODY_BYTES,
};
use fileslink::record::FileMetadata;
use fileslink::reply::Reply;

fn file(id: &str, name: &str, size: u32) -> FileMetadata {
    FileMetadata {
        unique_id: id.to_string(),
        telegram_file_id: "tg".to_string(),
        file_name: name.to_string(),
        mime_type: None,
        file_size: size,
        uploaded_at: 0,
        message_id: None,
    }
}

fn page(reply: &Reply) -> (u16, String) {
    match reply {
        Reply::Html { status, body } => (*status, body.clone()),
        _ => panic!("not a page"),
    }
}

#[test]
fn list_of_no_files() {
    let reply = files_list(&Vec::new());
    assert_eq!(
        page(&reply),
        (200, "<h1>Files in storage</h1><p>No files uploaded yet.</p>".to_string())
    );
    assert_eq!(reply.headers(), vec![("Content-Type", "text/html; charset=utf-8".to_string())]);
}

#[test]
fn list_of_files_is_escaped_and_in_order() {
    let reply = files_list(&vec![file("ab", "x<y>.txt", 12), file("c\"d", "n&m", 0)]);
    assert_eq!(
        page(&reply).1,
        "<h1>Files in storage</h1><ul>\
         <li><a href=\"/files/ab\">x&lt;y&gt;.txt</a>(12 bytes)</li>\
         <li><a href=\"/files/c&quot;d\">n&amp;m</a>(0 bytes)</li></ul>"
    );
    assert_eq!(reply.status(), 200);
}

#[test]
fn fixed_pages() {
    assert_eq!(health(), "OK");
    assert_eq!(
        page(&root()),
        (
            200,
            "<h1>Server working</h1>\
             <div><a href=\"https://github.com/Pushkar279/fileslink\">GitHub</a></div>"
                .to_string()
        )
    );
    assert_eq!(
        page(&not_found_handler()),
        (
            200,
            "<h1>404 Not Found</h1>\
             <p>The page you are looking for does not exist.</p>\
             <a href=\"/\">Go back to the homepage</a>"
                .to_string()
        )
    );
}

#[test]
fn routes_with_and_without_the_list() {
    let without = create_app(false).routes;
    let with = create_app(true).routes;
    let paths: Vec<&str> = without.iter().map(|r| r.path).collect();
    assert_eq!(paths, vec!["/", "/health", "/files/:id", "/api/files", "/api/files/upload"]);
    assert_eq!(without[4].method, Method::Post);
    assert_eq!(without[4].endpoint, Endpoint::FilesUpload);
    assert!(without.iter().take(4).all(|r| r.method == Method::Get));
    assert_eq!(with.len(), 6);
    assert_eq!((with[5].method, with[5].path, with[5].endpoint), (Method::Get, "/files", Endpoint::FilesList));
}

#[test]
fn limit_and_fallback() {
    for enabled in [true, false] {
        let app = create_app(enabled);
        assert_eq!(app.max_body_bytes, 52_428_800);
        assert_eq!(app.max_body_bytes, MAX_BODY_BYTES);
        assert_eq!(app.fallback, Endpoint::NotFound);
    }
}
