use std::collections::{HashMap, HashSet};

use fs_extra::dir::{self, DirEntryAttr, DirEntryValue};
use fs_transit::{
    details_result, ls_result, query_request, AttrValue, EntryAttr, ErrorKind, FsError,
    FsErrorKind, SystemTime,
};

fn outside_attr(a: EntryAttr) -> DirEntryAttr {
    match a {
        EntryAttr::Name => DirEntryAttr::Name,
        EntryAttr::Ext => DirEntryAttr::Ext,
        EntryAttr::FullName => DirEntryAttr::FullName,
        EntryAttr::Path => DirEntryAttr::Path,
        EntryAttr::DosPath => DirEntryAttr::DosPath,
        EntryAttr::FileSize => DirEntryAttr::FileSize,
        EntryAttr::Size => DirEntryAttr::Size,
        EntryAttr::IsDir => DirEntryAttr::IsDir,
        EntryAttr::IsFile => DirEntryAttr::IsFile,
        EntryAttr::Modified => DirEntryAttr::Modified,
        EntryAttr::Accessed => DirEntryAttr::Accessed,
        EntryAttr::Created => DirEntryAttr::Created,
        EntryAttr::BaseInfo => DirEntryAttr::BaseInfo,
    }
}

fn own_attr(a: &DirEntryAttr) -> EntryAttr {
    match a {
        DirEntryAttr::Name => EntryAttr::Name,
        DirEntryAttr::Ext => EntryAttr::Ext,
        DirEntryAttr::FullName => EntryAttr::FullName,
        DirEntryAttr::Path => EntryAttr::Path,
        DirEntryAttr::DosPath => EntryAttr::DosPath,
        DirEntryAttr::FileSize => EntryAttr::FileSize,
        DirEntryAttr::Size => EntryAttr::Size,
        DirEntryAttr::IsDir => EntryAttr::IsDir,
        DirEntryAttr::IsFile => EntryAttr::IsFile,
        DirEntryAttr::Modified => EntryAttr::Modified,
        DirEntryAttr::Accessed => EntryAttr::Accessed,
        DirEntryAttr::Created => EntryAttr::Created,
        DirEntryAttr::BaseInfo => EntryAttr::BaseInfo,
    }
}

fn own_value(v: &DirEntryValue) -> AttrValue {
    match v {
        DirEntryValue::String(s) => AttrValue::Str(s.clone()),
        DirEntryValue::Boolean(b) => AttrValue::Bool(*b),
        DirEntryValue::U64(n) => AttrValue::U64(*n),
        DirEntryValue::SystemTime(t) => {
            let d = t.duration_since(std::time::UNIX_EPOCH).unwrap_or_default();
            AttrValue::Time(SystemTime { tv_sec: d.as_secs(), tv_nsec: d.subsec_nanos() })
        }
    }
}

fn own_item(m: &HashMap<DirEntryAttr, DirEntryValue>) -> Vec<(EntryAttr, AttrValue)> {
    m.iter().map(|(a, v)| (own_attr(a), own_value(v))).collect()
}

fn fs_error(e: fs_extra::error::Error) -> FsError {
    let kind = match e.kind {
        fs_extra::error::ErrorKind::NotFound => FsErrorKind::NotFound,
        fs_extra::error::ErrorKind::InvalidFolder => FsErrorKind::InvalidFolder,
        fs_extra::error::ErrorKind::Io(_) => FsErrorKind::Io,
        _ => FsErrorKind::Other,
    };
    FsError { kind, message: e.to_string() }
}

fn config(path: &str, codes: &Vec<u8>) -> (String, HashSet<DirEntryAttr>) {
    let q = query_request(&path.as_bytes().to_vec(), codes).ok().unwrap();
    let set = q.attrs.to_vec().into_iter().map(outside_attr).collect();
    (q.path, set)
}

#[test]
fn query_fills_exactly_requested_fields() {
    let root = "/tmp/fs_transit_query";
    dir::create_all(root, true).unwrap();
    let path = format!("{}/notes.txt", root);
    fs_extra::file::write_all(&path, "0123456789").unwrap();
    // Name, FileSize, IsFile
    let (p, set) = config(&path, &vec![0, 5, 8, 5]);
    let r = details_result(dir::get_details_entry(&p, &set).map(|m| own_item(&m)).map_err(fs_error));
    assert!(r.error.is_none());
    assert_eq!(r.ok.name, "notes");
    assert_eq!(r.ok.file_size, 10);
    assert!(r.ok.is_file);
    assert_eq!(r.ok.ext, "");
    assert_eq!(r.ok.full_name, "");
    assert_eq!(r.ok.path, "");
    assert_eq!(r.ok.size, 0);
    assert!(!r.ok.is_dir);
    assert_eq!(r.ok.modified, SystemTime { tv_sec: 0, tv_nsec: 0 });
    dir::remove(root).unwrap();
}

#[test]
fn query_of_missing_path_is_not_found() {
    let (p, set) = config("/tmp/fs_transit_no_such_entry", &vec![0]);
    let r = details_result(dir::get_details_entry(&p, &set).map(|m| own_item(&m)).map_err(fs_error));
    assert_eq!(r.error.unwrap().kind, ErrorKind::NotFound);
}

#[test]
fn listing_empty_directory() {
    let root = "/tmp/fs_transit_empty";
    dir::create_all(root, true).unwrap();
    // FullName, IsDir, BaseInfo
    let (p, set) = config(root, &vec![2, 7, 12]);
    let read = dir::ls(&p, &set)
        .map(|l| (own_item(&l.base), l.items.iter().map(own_item).collect()))
        .map_err(fs_error);
    let r = ls_result(read);
    assert!(r.error.is_none());
    assert!(r.items.is_empty());
    assert!(r.base.is_dir);
    assert_eq!(r.base.full_name, "fs_transit_empty");
    dir::remove(root).unwrap();
}

#[test]
fn listing_children_are_projected() {
    let root = "/tmp/fs_transit_children";
    dir::create_all(format!("{}/inner", root), true).unwrap();
    fs_extra::file::write_all(format!("{}/x.md", root), "abc").unwrap();
    // Ext, FileSize, IsDir
    let (p, set) = config(root, &vec![1, 5, 7]);
    let read = dir::ls(&p, &set)
        .map(|l| (own_item(&l.base), l.items.iter().map(own_item).collect()))
        .map_err(fs_error);
    let r = ls_result(read);
    assert!(r.error.is_none());
    assert_eq!(r.items.len(), 2);
    let file_entry = r.items.iter().find(|e| !e.is_dir).unwrap();
    assert_eq!(file_entry.ext, "md");
    assert_eq!(file_entry.file_size, 3);
    assert_eq!(file_entry.name, "");
    assert!(r.items.iter().any(|e| e.is_dir));
    assert!(!r.base.is_dir);
    dir::remove(root).unwrap();
}
