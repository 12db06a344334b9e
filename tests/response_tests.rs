use http_file_server::listing::{get_dir_list, DirEntryInfo};
use http_file_server::mime::{classify, get_mime};
use http_file_server::response::{
    decimal_string, directory_response, file_response_head, not_found_response,
};

#[test]
fn classifies_extensions() {
    assert_eq!(classify("png"), "image/png");
    assert_eq!(classify("unknownext"), "text/plain");
    assert_eq!(classify(""), "text/plain");
    assert_eq!(classify("js"), "application/javascript");
    assert_eq!(classify("htm"), "text/html");
    assert_eq!(classify("pjp"), "image/jpeg");
    assert_eq!(classify("svg"), "image/svg+xml");
    assert_eq!(classify("tif"), "image/tiff");
    assert_eq!(classify("PNG"), "text/plain");
}

#[test]
fn mime_from_path_extension() {
    assert_eq!(get_mime("/srv/www/images/a.png"), "image/png");
    assert_eq!(get_mime("index.html"), "text/html");
    assert_eq!(get_mime("README"), "text/plain");
    assert_eq!(get_mime(".bashrc"), "text/plain");
    assert_eq!(get_mime("archive.tar.webp"), "image/webp");
}

#[test]
fn decimal_forms() {
    assert_eq!(decimal_string(0), "0");
    assert_eq!(decimal_string(12), "12");
    assert_eq!(decimal_string(u64::MAX), "18446744073709551615");
}

#[test]
fn not_found_has_empty_body() {
    assert_eq!(
        not_found_response(),
        "HTTP/1.1 404 NOT FOUND\r\nContent-Type: text/html; charset=UTF-8\r\nContent-Length: 0\r\n\r\n"
    );
}

#[test]
fn file_head_carries_size_and_type() {
    assert_eq!(
        file_response_head("/srv/www/images/a.png", Some(1234)),
        "HTTP/1.1 200 OK\r\nContent-Type: image/png; charset=UTF-8\r\nContent-Length: 1234\r\n\r\n"
    );
    assert_eq!(
        file_response_head("/srv/www/notes", None),
        "HTTP/1.1 200 OK\r\nContent-Type: text/plain; charset=UTF-8\r\nContent-Length: 0\r\n\r\n"
    );
}

#[test]
fn listing_has_one_item_per_child() {
    let entries = vec![
        DirEntryInfo::new("index.html".to_string(), false),
        DirEntryInfo::new("images".to_string(), true),
    ];
    let html = get_dir_list("/srv/www/", &entries);
    assert_eq!(
        html,
        "<html><head><title>Index of /srv/www/</title></head><body><h1>Index of /srv/www/</h1><hr><ul>\
<li><a href=\"index.html\">index.html</a></li>\
<li><a href=\"images/\">images/</a></li>\
</ul><hr></body></html>"
    );
    assert_eq!(html.matches("<li>").count(), 2);
}

#[test]
fn empty_directory_listing() {
    let html = get_dir_list("d", &Vec::new());
    assert_eq!(
        html,
        "<html><head><title>Index of d</title></head><body><h1>Index of d</h1><hr><ul></ul><hr></body></html>"
    );
}

#[test]
fn directory_response_counts_utf8_bytes() {
    let r = directory_response("é<p>");
    assert_eq!(
        r,
        "HTTP/1.1 200 OK\r\nContent-Type: text/html; charset=UTF-8\r\nContent-Length: 5\r\n\r\né<p>\r\n"
    );
}

#[test]
fn serves_sample_tree() {
    let root = get_dir_list(
        "/srv/www/",
        &vec![
            DirEntryInfo::new("index.html".to_string(), false),
            DirEntryInfo::new("images".to_string(), true),
        ],
    );
    assert!(root.contains("<li><a href=\"index.html\">index.html</a></li>"));
    assert!(root.contains("<li><a href=\"images/\">images/</a></li>"));
    let r = directory_response(&root);
    assert!(r.starts_with("HTTP/1.1 200 OK\r\nContent-Type: text/html; charset=UTF-8\r\n"));
    assert!(r.contains(&format!("Content-Length: {}\r\n", root.len())));

    let head = file_response_head("/srv/www/images/a.png", Some(3));
    assert!(head.starts_with("HTTP/1.1 200 OK\r\n"));
    assert!(head.contains("Content-Type: image/png; charset=UTF-8\r\n"));
    assert!(head.contains("Content-Length: 3\r\n"));

    assert!(not_found_response().ends_with("Content-Length: 0\r\n\r\n"));
}
