use wascc_provider::actors::{
    blob_exists, greet, route_file_request, strip_leading_slashes, upload_chunks, uppercase,
    FileRequest, HttpResponse, GREETING,
};

#[test]
fn test_greet() {
    let r = greet();
    assert_eq!(r.status_code, 200);
    assert_eq!(r.status, "OK");
    assert_eq!(r.header.len(), 0);
    assert_eq!(r.body, b"Hello, world!\n".to_vec());
    assert_eq!(r.body, GREETING.as_bytes().to_vec());
}

#[test]
fn test_uppercase() {
    let r = uppercase("hello=World&x=1");
    assert_eq!(r.original, "hello=World&x=1");
    assert_eq!(r.uppercased, "HELLO=WORLD&X=1");
    let r = uppercase("straße é");
    assert_eq!(r.uppercased, "STRAßE é");
    let r = uppercase("");
    assert_eq!(r.uppercased, "");
}

#[test]
fn test_uppercase_is_idempotent() {
    let once = uppercase("abc-XYZ-123");
    let twice = uppercase(&once.uppercased);
    assert_eq!(once.uppercased, twice.uppercased);
    assert_eq!(once.uppercased.len(), once.original.len());
}

#[test]
fn test_strip_leading_slashes() {
    assert_eq!(strip_leading_slashes("/file.txt"), "file.txt");
    assert_eq!(strip_leading_slashes("///a/b/"), "a/b/");
    assert_eq!(strip_leading_slashes("a/b"), "a/b");
    assert_eq!(strip_leading_slashes("///"), "");
    assert_eq!(strip_leading_slashes(""), "");
    let once = strip_leading_slashes("//x");
    assert_eq!(strip_leading_slashes(&once), once);
}

#[test]
fn test_route_file_request() {
    match route_file_request("GET", "/docs/readme.md", vec![]) {
        FileRequest::Get { path } => assert_eq!(path, "docs/readme.md"),
        _ => panic!("GET reads a blob"),
    }
    match route_file_request("POST", "//upload.bin", vec![1, 2, 3]) {
        FileRequest::Post { path, body } => {
            assert_eq!(path, "upload.bin");
            assert_eq!(body, vec![1, 2, 3]);
        }
        _ => panic!("POST stores a blob"),
    }
    match route_file_request("DELETE", "/old", vec![]) {
        FileRequest::Delete { path } => assert_eq!(path, "old"),
        _ => panic!("DELETE removes a blob"),
    }
    assert!(matches!(route_file_request("PUT", "/x", vec![]), FileRequest::Unsupported));
    assert!(matches!(route_file_request("get", "/x", vec![]), FileRequest::Unsupported));
}

#[test]
fn test_blob_exists() {
    assert!(!blob_exists("none"));
    assert!(blob_exists("readme.md"));
    assert!(blob_exists(""));
}

#[test]
fn test_upload_chunks() {
    let (start, data) = upload_chunks("file.txt".to_string(), vec![9, 8, 7, 6]);
    assert_eq!(start.id, "file.txt");
    assert_eq!(start.container, "");
    assert_eq!(start.sequence_no, 0);
    assert_eq!(start.total_bytes, 4);
    assert_eq!(start.chunk_size, 4);
    assert!(start.context.is_none());
    assert!(start.chunk_bytes.is_empty());
    assert_eq!(data.id, "file.txt");
    assert_eq!(data.total_bytes, 4);
    assert_eq!(data.chunk_size, 4);
    assert_eq!(data.chunk_bytes, vec![9, 8, 7, 6]);
}

#[test]
fn test_http_responses() {
    let ok = HttpResponse::ok();
    assert_eq!((ok.status_code, ok.status.as_str()), (200, "OK"));
    assert!(ok.body.is_empty());
    let nf = HttpResponse::not_found();
    assert_eq!((nf.status_code, nf.status.as_str()), (404, "Not Found"));
    let br = HttpResponse::bad_request();
    assert_eq!((br.status_code, br.status.as_str()), (400, "Bad Request"));
    assert_eq!(br.header.len(), 0);
}

#[test]
fn test_uppercase_readme_example() {
    // curl http://localhost:8080?hello=world
    let r = uppercase("hello=world");
    assert_eq!(r.original, "hello=world");
    assert_eq!(r.uppercased, "HELLO=WORLD");
}

#[test]
fn test_fileserver_readme_example() {
    // curl -X POST http://localhost:8080/foo -d 'foobar'
    match route_file_request("POST", "/foo", b"foobar".to_vec()) {
        FileRequest::Post { path, body } => {
            let (start, data) = upload_chunks(path, body);
            assert_eq!(start.id, "foo");
            assert_eq!(start.total_bytes, 6);
            assert!(start.chunk_bytes.is_empty());
            assert_eq!(data.id, "foo");
            assert_eq!(data.chunk_bytes, b"foobar".to_vec());
        }
        _ => panic!("POST stores the body"),
    }
    // curl http://localhost:8080/foo
    match route_file_request("GET", "/foo", vec![]) {
        FileRequest::Get { path } => assert_eq!(path, "foo"),
        _ => panic!("GET reads the metadata"),
    }
    // curl -X DELETE http://localhost:8080/foo
    match route_file_request("DELETE", "/foo", vec![]) {
        FileRequest::Delete { path } => assert_eq!(path, "foo"),
        _ => panic!("DELETE removes the file"),
    }
}
