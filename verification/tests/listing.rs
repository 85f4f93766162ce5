use r2_explorer::r2::client::R2Client;
use r2_explorer::r2::listing::list_page;
use r2_explorer::r2::types::{ObjectInfo, R2Error};
use r2_explorer::r2::wire::{ListObjectsPage, RemoteObject, Request};

fn client() -> R2Client {
    R2Client::new("tenant", "key-id", "secret").unwrap()
}

fn object(key: &str, size: i64, modified: &str, etag: &str) -> RemoteObject {
    RemoteObject {
        key: Some(key.to_string()),
        size: Some(size),
        last_modified: Some(modified.to_string()),
        e_tag: Some(etag.to_string()),
    }
}

fn folder(key: &str, name: &str) -> ObjectInfo {
    ObjectInfo {
        key: key.to_string(),
        name: name.to_string(),
        size: 0,
        last_modified: String::new(),
        is_folder: true,
        etag: None,
    }
}

fn file(key: &str, name: &str, size: i64, modified: &str, etag: &str) -> ObjectInfo {
    ObjectInfo {
        key: key.to_string(),
        name: name.to_string(),
        size,
        last_modified: modified.to_string(),
        is_folder: false,
        etag: Some(etag.to_string()),
    }
}

// A bucket with the keys `a/`, `a/b.txt` and `c.txt`, listed at the top with
// the delimiter `/`: the store groups the first two under `a/`.
#[test]
fn top_level_shows_one_folder_and_one_file() {
    let page = ListObjectsPage {
        common_prefixes: vec![Some("a/".to_string())],
        contents: vec![object("c.txt", 12, "2024-05-01T10:00:00Z", "\"e1\"")],
    };
    let listed = client().list_objects(Ok(page)).unwrap();
    assert_eq!(
        listed,
        vec![folder("a/", "a"), file("c.txt", "c.txt", 12, "2024-05-01T10:00:00Z", "\"e1\"")]
    );
}

// The same bucket listed below `a/`: the store reports the marker `a/`
// itself among the objects, and it gives no line.
#[test]
fn folder_marker_gives_no_file_line() {
    let page = ListObjectsPage {
        common_prefixes: vec![],
        contents: vec![
            object("a/", 0, "2024-05-01T09:00:00Z", "\"m\""),
            object("a/b.txt", 7, "2024-05-01T09:30:00Z", "\"e2\""),
        ],
    };
    let listed = list_page(&page);
    assert_eq!(listed, vec![file("a/b.txt", "b.txt", 7, "2024-05-01T09:30:00Z", "\"e2\"")]);
}

#[test]
fn folders_come_before_files_in_the_order_of_the_store() {
    let page = ListObjectsPage {
        common_prefixes: vec![Some("p/z/".to_string()), Some("p/a/".to_string())],
        contents: vec![object("p/2.txt", 2, "t2", "x2"), object("p/1.txt", 1, "t1", "x1")],
    };
    let listed = list_page(&page);
    assert_eq!(
        listed,
        vec![
            folder("p/z/", "z"),
            folder("p/a/", "a"),
            file("p/2.txt", "2.txt", 2, "t2", "x2"),
            file("p/1.txt", "1.txt", 1, "t1", "x1"),
        ]
    );
}

#[test]
fn group_without_prefix_gives_no_line() {
    let page = ListObjectsPage {
        common_prefixes: vec![None, Some("x/".to_string()), None],
        contents: vec![],
    };
    assert_eq!(list_page(&page), vec![folder("x/", "x")]);
}

#[test]
fn folder_name_ignores_every_trailing_delimiter() {
    let page = ListObjectsPage {
        common_prefixes: vec![Some("a/b//".to_string()), Some("/".to_string())],
        contents: vec![],
    };
    assert_eq!(list_page(&page), vec![folder("a/b//", "b"), folder("/", "")]);
}

#[test]
fn missing_fields_of_an_object_take_defaults() {
    let page = ListObjectsPage {
        common_prefixes: vec![],
        contents: vec![
            RemoteObject { key: None, size: None, last_modified: None, e_tag: None },
            RemoteObject {
                key: Some("d/e".to_string()),
                size: None,
                last_modified: None,
                e_tag: None,
            },
        ],
    };
    let listed = list_page(&page);
    assert_eq!(
        listed,
        vec![
            ObjectInfo {
                key: String::new(),
                name: String::new(),
                size: 0,
                last_modified: String::new(),
                is_folder: false,
                etag: None,
            },
            ObjectInfo {
                key: "d/e".to_string(),
                name: "e".to_string(),
                size: 0,
                last_modified: String::new(),
                is_folder: false,
                etag: None,
            },
        ]
    );
}

#[test]
fn empty_page_lists_nothing() {
    let page = ListObjectsPage { common_prefixes: vec![], contents: vec![] };
    assert_eq!(client().list_objects(Ok(page)), Ok(vec![]));
}

#[test]
fn failed_listing_is_an_sdk_error() {
    let r = client().list_objects(Err("access denied".to_string()));
    assert_eq!(r, Err(R2Error::SdkError("access denied".to_string())));
}

#[test]
fn listing_request_closes_the_prefix() {
    let c = client();
    let expected = Request::ListObjects {
        bucket: "media".to_string(),
        delimiter: "/".to_string(),
        prefix: Some("photos/".to_string()),
    };
    assert_eq!(c.list_objects_request("media", Some("photos")), expected);
    assert_eq!(c.list_objects_request("media", Some("photos/")), expected);
}

#[test]
fn listing_request_with_and_without_delimiter_is_one_request() {
    let c = client();
    for prefix in ["a", "a/b", "图片", "x//", "/"] {
        let closed =
            if prefix.ends_with('/') { prefix.to_string() } else { format!("{}/", prefix) };
        assert_eq!(
            c.list_objects_request("b", Some(prefix)),
            c.list_objects_request("b", Some(&closed))
        );
    }
}

#[test]
fn listing_request_without_prefix_sends_none() {
    let c = client();
    let expected = Request::ListObjects {
        bucket: "media".to_string(),
        delimiter: "/".to_string(),
        prefix: None,
    };
    assert_eq!(c.list_objects_request("media", None), expected);
    assert_eq!(c.list_objects_request("media", Some("")), expected);
}
