//! What one page of a delimited listing shows.
//!
//! The store groups the keys below a prefix at the delimiter: keys that go
//! on behind a further delimiter are reported together, as the prefix that
//! they share, and the others one by one. The first become folders, the
//! second files. An object whose key ends with the delimiter is there only to
//! keep an empty folder in sight, and is not shown as a file.

use vstd::prelude::*;
use vstd::string::*;
use crate::r2::keys::{
    ends_with_delimiter, file_name, folder_display_name, folder_name, is_folder_key, last_segment,
};
use crate::r2::types::{ObjectInfo, ObjectInfoView};
use crate::r2::wire::{ListObjectsPage, ListObjectsPageView, RemoteObjectView};

verus! {

/// The listing line of a folder, made up from a prefix that keys share. An
/// entry without a prefix gives no line.
pub open spec fn folder_entry(prefix: Option<Seq<char>>) -> Option<ObjectInfoView> {
    match prefix {
        Some(p) => Some(
            ObjectInfoView {
                key: p,
                name: folder_name(p),
                size: 0,
                last_modified: Seq::empty(),
                is_folder: true,
                etag: None,
            },
        ),
        None => None,
    }
}

/// The listing line of a stored object. A missing key counts as the empty
/// key. An object whose key ends with the delimiter only marks a folder and
/// gives no line.
pub open spec fn file_entry(object: RemoteObjectView) -> Option<ObjectInfoView> {
    let key = match object.key {
        Some(k) => k,
        None => Seq::empty(),
    };
    if ends_with_delimiter(key) {
        None
    } else {
        Some(
            ObjectInfoView {
                key: key,
                name: last_segment(key),
                size: match object.size {
                    Some(n) => n,
                    None => 0,
                },
                last_modified: match object.last_modified {
                    Some(t) => t,
                    None => Seq::empty(),
                },
                is_folder: false,
                etag: object.e_tag,
            },
        )
    }
}

/// The folder lines of a page, in the store's order.
pub open spec fn folder_entries(prefixes: Seq<Option<Seq<char>>>) -> Seq<ObjectInfoView> {
    prefixes.filter_map(|p: Option<Seq<char>>| folder_entry(p))
}

/// The file lines of a page, in the store's order.
pub open spec fn file_entries(contents: Seq<RemoteObjectView>) -> Seq<ObjectInfoView> {
    contents.filter_map(|o: RemoteObjectView| file_entry(o))
}

/// What a page shows: its folders first, then its files.
pub open spec fn listing(page: ListObjectsPageView) -> Seq<ObjectInfoView> {
    folder_entries(page.common_prefixes) + file_entries(page.contents)
}

/// Whether `line` looks like a folder: it is marked as one, is named by the
/// last segment of its trimmed key, and has no size, time or fingerprint.
pub open spec fn is_folder_line(line: ObjectInfoView) -> bool {
    &&& line.is_folder
    &&& line.name == folder_name(line.key)
    &&& line.size == 0
    &&& line.last_modified.len() == 0
    &&& line.etag is None
}

/// Whether `line` looks like a file: it is not marked as a folder, its key
/// does not end with the delimiter, and it is named by the last segment of
/// its key.
pub open spec fn is_file_line(line: ObjectInfoView) -> bool {
    &&& !line.is_folder
    &&& !ends_with_delimiter(line.key)
    &&& line.name == last_segment(line.key)
}

/// A listing shows no more lines than the page has entries. Its folder
/// lines come first and look like folders; the lines behind them look like
/// files, so that no marker of a folder is shown as a file.
pub proof fn lemma_listing_lines(page: ListObjectsPageView)
    ensures
        ({
            let lines = listing(page);
            let folders = folder_entries(page.common_prefixes).len();
            &&& folders <= page.common_prefixes.len()
            &&& lines.len() <= page.common_prefixes.len() + page.contents.len()
            &&& forall|i: int| 0 <= i < folders ==> is_folder_line(#[trigger] lines[i])
            &&& forall|i: int| folders <= i < lines.len() ==> is_file_line(#[trigger] lines[i])
        }),
{
    let to_folder = |p: Option<Seq<char>>| folder_entry(p);
    let to_file = |o: RemoteObjectView| file_entry(o);
    let folders = page.common_prefixes.filter_map(to_folder);
    let files = page.contents.filter_map(to_file);
    lemma_filter_map_len(page.common_prefixes, to_folder);
    lemma_filter_map_len(page.contents, to_file);
    let lines = listing(page);
    assert forall|i: int| 0 <= i < folders.len() implies is_folder_line(#[trigger] lines[i]) by {
        page.common_prefixes.lemma_filter_map_contains(to_folder, folders[i]);
    }
    assert forall|i: int| folders.len() <= i < lines.len() implies is_file_line(
        #[trigger] lines[i],
    ) by {
        let k = i - folders.len();
        page.contents.lemma_filter_map_contains(to_file, files[k]);
    }
}

/// Filtering and mapping gives no more items than it is given.
proof fn lemma_filter_map_len<A, B>(items: Seq<A>, f: spec_fn(A) -> Option<B>)
    ensures
        items.filter_map(f).len() <= items.len(),
    decreases items.len(),
{
    if items.len() > 0 {
        lemma_filter_map_len(items.drop_last(), f);
    }
}

/// The lines of one page of a delimited listing.
pub fn list_page(page: &ListObjectsPage) -> (objects: Vec<ObjectInfo>)
    ensures
        objects.deep_view() == listing(page@),
{
    let mut objects: Vec<ObjectInfo> = Vec::new();
    let ghost prefixes = page@.common_prefixes;
    let ghost contents = page@.contents;
    let mut i: usize = 0;
    while i < page.common_prefixes.len()
        invariant
            i <= page.common_prefixes.len(),
            prefixes == page.common_prefixes.deep_view(),
            objects.deep_view() == folder_entries(prefixes.take(i as int)),
        decreases page.common_prefixes.len() - i,
    {
        proof {
            prefixes.lemma_filter_map_take_succ(|p: Option<Seq<char>>| folder_entry(p), i as int);
        }
        match &page.common_prefixes[i] {
            Some(p) => {
                objects.push(
                    ObjectInfo {
                        key: p.clone(),
                        name: folder_display_name(p.as_str()),
                        size: 0,
                        last_modified: String::new(),
                        is_folder: true,
                        etag: None,
                    },
                );
            },
            None => {},
        }
        i += 1;
    }
    assert(prefixes.take(i as int) =~= prefixes);
    let ghost folders = objects.deep_view();
    let mut j: usize = 0;
    while j < page.contents.len()
        invariant
            j <= page.contents.len(),
            contents == page.contents.deep_view(),
            objects.deep_view() == folders + file_entries(contents.take(j as int)),
        decreases page.contents.len() - j,
    {
        let ghost before = objects.deep_view();
        proof {
            contents.lemma_filter_map_take_succ(|o: RemoteObjectView| file_entry(o), j as int);
        }
        let object = &page.contents[j];
        let key: &str = match &object.key {
            Some(k) => k.as_str(),
            None => "",
        };
        proof {
            reveal_strlit("");
            assert(""@ =~= Seq::<char>::empty());
        }
        if !is_folder_key(key) {
            let entry = ObjectInfo {
                key: String::from_str(key),
                name: file_name(key),
                size: match object.size {
                    Some(n) => n,
                    None => 0,
                },
                last_modified: match &object.last_modified {
                    Some(t) => t.clone(),
                    None => String::new(),
                },
                is_folder: false,
                etag: match &object.e_tag {
                    Some(t) => Some(t.clone()),
                    None => None,
                },
            };
            objects.push(entry);
            assert(objects.deep_view() =~= before.push(file_entry(contents[j as int])->0));
        }
        j += 1;
    }
    assert(contents.take(j as int) =~= contents);
    objects
}

} // verus!
