use fs_transit::{
    get_enum_entry, get_enum_transit_result, get_enum_transit_state, get_int_transit_state,
    AttrSet, DirTransitProcess, EntryAttr, TransitProcessResult, TransitState,
};

#[test]
fn entry_codes_decode_in_order() {
    let expected = vec![
        EntryAttr::Name,
        EntryAttr::Ext,
        EntryAttr::FullName,
        EntryAttr::Path,
        EntryAttr::DosPath,
        EntryAttr::FileSize,
        EntryAttr::Size,
        EntryAttr::IsDir,
        EntryAttr::IsFile,
        EntryAttr::Modified,
        EntryAttr::Accessed,
        EntryAttr::Created,
        EntryAttr::BaseInfo,
    ];
    for (code, attr) in expected.iter().enumerate() {
        assert_eq!(get_enum_entry(code as u8), *attr);
    }
}

#[test]
fn transit_result_codes_decode_in_order() {
    assert_eq!(get_enum_transit_result(0), TransitProcessResult::Overwrite);
    assert_eq!(get_enum_transit_result(1), TransitProcessResult::OverwriteAll);
    assert_eq!(get_enum_transit_result(2), TransitProcessResult::Skip);
    assert_eq!(get_enum_transit_result(3), TransitProcessResult::SkipAll);
    assert_eq!(get_enum_transit_result(4), TransitProcessResult::Retry);
    assert_eq!(get_enum_transit_result(5), TransitProcessResult::Abort);
    assert_eq!(get_enum_transit_result(6), TransitProcessResult::ContinueOrAbort);
}

#[test]
fn transit_state_codes_round_trip() {
    for code in 0u8..3 {
        assert_eq!(get_int_transit_state(get_enum_transit_state(code)), code);
    }
    assert_eq!(get_enum_transit_state(0), TransitState::Normal);
    assert_eq!(get_enum_transit_state(1), TransitState::Exists);
    assert_eq!(get_enum_transit_state(2), TransitState::NoAccess);
    assert_eq!(get_int_transit_state(TransitState::NoAccess), 2);
}

#[test]
fn attr_set_collapses_duplicates() {
    let s = AttrSet::from_codes(&vec![0, 5, 0, 5, 7]).unwrap();
    assert_eq!(s.to_vec(), vec![EntryAttr::Name, EntryAttr::FileSize, EntryAttr::IsDir]);
    assert!(s.contains(EntryAttr::Name));
    assert!(!s.contains(EntryAttr::Ext));
}

#[test]
fn attr_set_rejects_unknown_code() {
    assert!(AttrSet::from_codes(&vec![1, 13]).is_none());
    assert!(AttrSet::from_codes(&vec![255]).is_none());
}

#[test]
fn attr_set_empty_and_insert() {
    let mut s = AttrSet::new();
    assert!(s.to_vec().is_empty());
    s.insert(EntryAttr::Created);
    s.insert(EntryAttr::Created);
    s.insert(EntryAttr::BaseInfo);
    assert_eq!(s.to_vec(), vec![EntryAttr::Created, EntryAttr::BaseInfo]);
    let all = AttrSet::from_codes(&(0u8..13).collect()).unwrap();
    assert_eq!(all.to_vec().len(), 13);
}

#[test]
fn dir_transit_snapshot_keeps_counters() {
    let p = DirTransitProcess::new(7, 15, 3, 5, "b.txt".to_string(), TransitState::Exists);
    assert_eq!(p.copied_bytes, 7);
    assert_eq!(p.total_bytes, 15);
    assert_eq!(p.file_bytes_copied, 3);
    assert_eq!(p.file_total_bytes, 5);
    assert_eq!(p.file_name, "b.txt");
    assert_eq!(p.state, 1);
    assert_eq!(p.transit_state(), TransitState::Exists);
}
