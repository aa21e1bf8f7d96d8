use typora_image_upload::error::ErrorKind;
use typora_image_upload::loader::{
    fetched_item, is_success_status, last_level_of, load_local, load_remote, named_source, resolve,
    resolve_local, resolve_remote, FetchResponse,
};
use typora_image_upload::mime::DeclaredType;
use typora_image_upload::source::{check_file_name, classify, split_file_name, SourceKind};

#[test]
fn scheme_prefix_selects_the_remote_kind() {
    assert_eq!(classify("http://example.com/a.png"), SourceKind::Remote);
    assert_eq!(classify("https://example.com/a.png"), SourceKind::Remote);
    assert_eq!(classify("photo.png"), SourceKind::Local);
    assert_eq!(classify("/tmp/https://x"), SourceKind::Local);
    assert_eq!(classify("HTTP://example.com"), SourceKind::Local);
    assert_eq!(classify("ftp://example.com/a"), SourceKind::Local);
    assert_eq!(classify(""), SourceKind::Local);
}

#[test]
fn file_name_divides_at_its_last_dot() {
    assert_eq!(split_file_name("photo.png"), ("photo".to_string(), "png".to_string()));
    assert_eq!(split_file_name("archive.tar.gz"), ("archive.tar".to_string(), "gz".to_string()));
    assert_eq!(split_file_name("README"), ("README".to_string(), String::new()));
    assert_eq!(split_file_name(".hidden"), (".hidden".to_string(), String::new()));
    assert_eq!(split_file_name(".hidden.txt"), (".hidden".to_string(), "txt".to_string()));
    assert_eq!(split_file_name("trailing."), ("trailing".to_string(), String::new()));
    assert_eq!(split_file_name("é.ü"), ("é".to_string(), "ü".to_string()));
}

#[test]
fn unusable_file_names_are_told_apart() {
    assert!(check_file_name("photo.png"));
    assert!(check_file_name("..."));
    assert!(!check_file_name(""));
    assert!(!check_file_name("."));
    assert!(!check_file_name(".."));
    assert!(!check_file_name("a/b"));
}

#[test]
fn last_level_follows_the_last_separator() {
    assert_eq!(last_level_of("/pics/cat.jpg"), "cat.jpg");
    assert_eq!(last_level_of("/pics/"), "");
    assert_eq!(last_level_of("cat.jpg"), "cat.jpg");
    assert_eq!(last_level_of(""), "");
}

#[test]
fn local_path_resolves_to_its_file_name() {
    let source = resolve("photo.png".to_string()).unwrap();
    assert_eq!(source.kind, SourceKind::Local);
    assert_eq!(source.location, "photo.png");
    assert_eq!(source.blob_base_name, "photo");
    assert_eq!(source.extension, "png");

    let source = resolve("/tmp/dir/notes".to_string()).unwrap();
    assert_eq!(source.location, "/tmp/dir/notes");
    assert_eq!(source.blob_base_name, "notes");
    assert_eq!(source.extension, "");
}

#[test]
fn local_path_without_file_name_cannot_be_read() {
    assert_eq!(resolve("/".to_string()).unwrap_err(), ErrorKind::IoError);
    assert_eq!(resolve("".to_string()).unwrap_err(), ErrorKind::IoError);
    assert_eq!(resolve("dir/..".to_string()).unwrap_err(), ErrorKind::IoError);
}

#[test]
fn remote_address_resolves_to_its_last_path_segment() {
    let source = resolve("https://example.com/pics/cat.jpg".to_string()).unwrap();
    assert_eq!(source.kind, SourceKind::Remote);
    assert_eq!(source.location, "https://example.com/pics/cat.jpg");
    assert_eq!(source.blob_base_name, "cat");
    assert_eq!(source.extension, "jpg");

    let source = resolve("http://example.com/a/archive.tar.gz?x=1#top".to_string()).unwrap();
    assert_eq!(source.location, "http://example.com/a/archive.tar.gz?x=1#top");
    assert_eq!(source.blob_base_name, "archive.tar");
    assert_eq!(source.extension, "gz");
}

#[test]
fn remote_address_is_written_as_the_url_library_writes_it() {
    let source = resolve("https://EXAMPLE.com/a/../b/logo.svg".to_string()).unwrap();
    assert_eq!(source.location, "https://example.com/b/logo.svg");
    assert_eq!(source.blob_base_name, "logo");
    assert_eq!(source.extension, "svg");
}

#[test]
fn malformed_remote_address_is_an_invalid_url() {
    assert_eq!(resolve("http://[bad".to_string()).unwrap_err(), ErrorKind::InvalidUrl);
    assert_eq!(resolve("https://".to_string()).unwrap_err(), ErrorKind::InvalidUrl);
}

#[test]
fn remote_address_without_file_name_is_an_invalid_url() {
    assert_eq!(resolve("https://example.com/".to_string()).unwrap_err(), ErrorKind::InvalidUrl);
    assert_eq!(resolve("https://example.com".to_string()).unwrap_err(), ErrorKind::InvalidUrl);
    assert_eq!(
        resolve("https://example.com/pics/".to_string()).unwrap_err(),
        ErrorKind::InvalidUrl
    );
}

#[test]
fn local_resolution_depends_on_the_file_name_found() {
    let source = resolve_local("x/y.png".to_string(), Some("y.png".to_string())).unwrap();
    assert_eq!(source.kind, SourceKind::Local);
    assert_eq!(source.location, "x/y.png");
    assert_eq!(source.blob_base_name, "y");
    assert_eq!(source.extension, "png");
    assert_eq!(resolve_local("x".to_string(), None).unwrap_err(), ErrorKind::IoError);
    assert_eq!(
        resolve_local("x".to_string(), Some("a/b".to_string())).unwrap_err(),
        ErrorKind::IoError
    );
    assert_eq!(
        resolve_local("x".to_string(), Some(String::new())).unwrap_err(),
        ErrorKind::IoError
    );
}

#[test]
fn remote_resolution_depends_on_the_last_level_of_the_path() {
    let source = resolve_remote("https://h/p/y.png?q".to_string(), "/p/y.png").unwrap();
    assert_eq!(source.kind, SourceKind::Remote);
    assert_eq!(source.location, "https://h/p/y.png?q");
    assert_eq!(source.blob_base_name, "y");
    assert_eq!(source.extension, "png");
    assert_eq!(
        resolve_remote("https://h/".to_string(), "/").unwrap_err(),
        ErrorKind::InvalidUrl
    );
    assert_eq!(
        resolve_remote("https://h/a/..".to_string(), "/a/..").unwrap_err(),
        ErrorKind::InvalidUrl
    );
    assert_eq!(
        resolve_remote("https://h/a/.".to_string(), "/a/.").unwrap_err(),
        ErrorKind::InvalidUrl
    );
}

#[test]
fn source_is_named_after_the_file_name() {
    let source =
        named_source(SourceKind::Remote, "l".to_string(), Some("a.tar.gz".to_string())).unwrap();
    assert_eq!(source.location, "l");
    assert_eq!(source.blob_base_name, "a.tar");
    assert_eq!(source.extension, "gz");
    assert_eq!(
        named_source(SourceKind::Remote, "l".to_string(), None).unwrap_err(),
        ErrorKind::InvalidUrl
    );
    assert_eq!(
        named_source(SourceKind::Local, "l".to_string(), Some("..".to_string())).unwrap_err(),
        ErrorKind::IoError
    );
}

#[test]
fn success_is_the_two_hundreds() {
    assert!(is_success_status(200));
    assert!(is_success_status(204));
    assert!(is_success_status(299));
    assert!(!is_success_status(199));
    assert!(!is_success_status(300));
    assert!(!is_success_status(404));
    assert!(!is_success_status(500));
}

#[test]
fn local_item_takes_its_type_from_the_extension() {
    let source = resolve("shots/photo.png".to_string()).unwrap();
    let item = load_local(source, vec![1, 2, 3]);
    assert_eq!(item.blob_base_name, "photo");
    assert_eq!(item.extension, "png");
    assert_eq!(item.mime_type, "image/png");
    assert_eq!(item.source, "shots/photo.png");
    assert_eq!(item.bytes, vec![1, 2, 3]);

    let source = resolve("notes".to_string()).unwrap();
    let item = load_local(source, Vec::new());
    assert_eq!(item.mime_type, "application/octet-stream");
    assert_eq!(item.extension, "");
}

#[test]
fn remote_item_takes_its_type_from_the_server() {
    let source = resolve("https://example.com/pics/cat.jpg".to_string()).unwrap();
    let response = FetchResponse {
        status: 200,
        declared: DeclaredType::Text("image/webp".to_string()),
        body: vec![9, 8, 7],
    };
    let item = load_remote(source, response).unwrap();
    assert_eq!(item.blob_base_name, "cat");
    assert_eq!(item.extension, "jpg");
    assert_eq!(item.mime_type, "image/webp");
    assert_eq!(item.source, "https://example.com/pics/cat.jpg");
    assert_eq!(item.bytes, vec![9, 8, 7]);
}

#[test]
fn remote_item_without_declared_type_is_generic_binary() {
    let source = resolve("https://example.com/pics/cat.jpg".to_string()).unwrap();
    let response = FetchResponse { status: 200, declared: DeclaredType::Absent, body: vec![1] };
    assert_eq!(load_remote(source, response).unwrap().mime_type, "application/binary");
}

#[test]
fn refused_fetch_makes_no_item() {
    let source = resolve("https://example.com/pics/cat.jpg".to_string()).unwrap();
    let response = FetchResponse {
        status: 404,
        declared: DeclaredType::Text("text/html".to_string()),
        body: vec![1],
    };
    assert!(load_remote(source, response).is_none());
}

#[test]
fn refused_fetch_is_a_fetch_error() {
    let source = resolve("https://example.com/pics/cat.jpg".to_string()).unwrap();
    let response = FetchResponse { status: 500, declared: DeclaredType::Absent, body: Vec::new() };
    assert_eq!(fetched_item(source, response).unwrap_err(), ErrorKind::FetchError);

    let source = resolve("https://example.com/pics/cat.jpg".to_string()).unwrap();
    let response = FetchResponse { status: 204, declared: DeclaredType::Unreadable, body: Vec::new() };
    let item = fetched_item(source, response).unwrap();
    assert_eq!(item.mime_type, "application/binary");
    assert!(item.bytes.is_empty());
}
