use vstd::prelude::*;
use crate::attrs::{all_codes_known, attrs_of_codes, AttrSet, EntryAttr};
use crate::entry::{field_is_empty, get_default_entry, parse_entry, projects, AttrValue, Entry};
use crate::error::{decode_path, query_error_kind, transfer_error_kind, utf8_text, Error, ErrorKind, FsError};

verus! {

/// Settings of a copy or move. `skip_exist` is consulted before `overwrite`.
#[derive(Clone, Copy, Debug, PartialEq, Eq, Structural)]
pub struct CopyOptions {
    pub overwrite: bool,
    pub skip_exist: bool,
    pub buffer_size: usize,
}

/// A metadata query whose inputs passed validation.
pub struct QueryRequest {
    pub path: String,
    pub attrs: AttrSet,
}

/// A copy or move whose inputs passed validation.
pub struct TransferRequest {
    pub from: String,
    pub to: String,
    pub options: CopyOptions,
}

/// Outcome of a metadata query: the entry, or the error and an empty entry.
pub struct DetailsEntryResult {
    pub error: Option<Error>,
    pub ok: Entry,
}

/// Outcome of a listing: the directory's own entry and its children, or the
/// error, an empty base entry and no children.
pub struct LsResult {
    pub error: Option<Error>,
    pub base: Entry,
    pub items: Vec<Entry>,
}

/// Outcome of a copy or move: the bytes transferred, or the error and zero.
pub struct MoveResult {
    pub error: Option<Error>,
    pub ok: u64,
}

/// Every field of the entry holds its empty value.
pub open spec fn entry_is_empty(e: Entry) -> bool {
    forall|a: EntryAttr| field_is_empty(e, a)
}

/// Validates a metadata query: the attribute codes and the path as text.
/// Fails, before any filesystem access, only when the path is not UTF-8.
pub fn query_request(path: &Vec<u8>, config: &Vec<u8>) -> (r: Result<QueryRequest, Error>)
    requires
        all_codes_known(config@),
    ensures
        r is Ok <==> utf8_text(path@) is Some,
        r matches Ok(q) ==> utf8_text(path@) == Some(q.path@) && q.attrs.wf() && q.attrs@
            == attrs_of_codes(config@),
        r matches Err(e) ==> e.kind == ErrorKind::InvalidPath && e.message@ == "Invalid path"@,
{
    let attrs = AttrSet::from_codes(config).unwrap();
    match decode_path(path, "Invalid path") {
        Ok(p) => Ok(QueryRequest { path: p, attrs }),
        Err(e) => Err(e),
    }
}

/// The outcome of a metadata query: the projected entry on success; on
/// failure the classified error beside an empty entry.
pub fn details_result(read: Result<Vec<(EntryAttr, AttrValue)>, FsError>) -> (r: DetailsEntryResult)
    ensures
        match read {
            Ok(item) => r.error is None && projects(r.ok, item@),
            Err(f) => r.error matches Some(e) && e.kind == query_error_kind(f.kind)
                && e.message@ == f.message@ && entry_is_empty(r.ok),
        },
{
    match read {
        Ok(item) => DetailsEntryResult { error: None, ok: parse_entry(&item) },
        Err(f) => DetailsEntryResult {
            error: Some(Error::from_query_failure(f)),
            ok: get_default_entry(),
        },
    }
}

/// `r` is the outcome of a listing that read `read`.
pub open spec fn ls_outcome(
    r: LsResult,
    read: Result<(Vec<(EntryAttr, AttrValue)>, Vec<Vec<(EntryAttr, AttrValue)>>), FsError>,
) -> bool {
    match read {
        Ok((base, children)) => {
            &&& r.error is None
            &&& projects(r.base, base@)
            &&& r.items@.len() == children@.len()
            &&& forall|i: int| 0 <= i < children@.len() ==> projects(#[trigger] r.items@[i], children@[i]@)
        },
        Err(f) => {
            &&& r.error matches Some(e) && e.kind == query_error_kind(f.kind) && e.message@
                == f.message@
            &&& entry_is_empty(r.base)
            &&& r.items@.len() == 0
        },
    }
}

/// The outcome of a listing: the projected base entry and each child
/// projected in the order read; on failure the classified error alone.
pub fn ls_result(
    read: Result<(Vec<(EntryAttr, AttrValue)>, Vec<Vec<(EntryAttr, AttrValue)>>), FsError>,
) -> (r: LsResult)
    ensures
        ls_outcome(r, read),
{
    match read {
        Ok((base, children)) => {
            let mut items: Vec<Entry> = Vec::new();
            let mut i: usize = 0;
            while i < children.len()
                invariant
                    i <= children@.len(),
                    items@.len() == i,
                    forall|j: int| 0 <= j < i ==> projects(#[trigger] items@[j], children@[j]@),
                decreases children.len() - i,
            {
                let e = parse_entry(&children[i]);
                items.push(e);
                i = i + 1;
            }
            LsResult { error: None, base: parse_entry(&base), items }
        },
        Err(f) => LsResult {
            error: Some(Error::from_query_failure(f)),
            base: get_default_entry(),
            items: Vec::new(),
        },
    }
}

/// Listing a directory that has no children gives its base entry and no
/// children, and no error.
pub proof fn lemma_empty_listing(
    r: LsResult,
    read: Result<(Vec<(EntryAttr, AttrValue)>, Vec<Vec<(EntryAttr, AttrValue)>>), FsError>,
)
    requires
        ls_outcome(r, read),
        read matches Ok((base, children)) && children@.len() == 0,
    ensures
        r.error is None,
        r.items@.len() == 0,
        projects(r.base, read->Ok_0.0@),
{
}

/// Validates a copy or move: both paths as text and a positive buffer size.
/// Fails, before any filesystem access, with the first of: the source path
/// is not UTF-8; the destination path is not UTF-8; the buffer size is zero.
pub fn transfer_request(from: &Vec<u8>, to: &Vec<u8>, options: CopyOptions) -> (r: Result<TransferRequest, Error>)
    ensures
        r is Ok <==> utf8_text(from@) is Some && utf8_text(to@) is Some && options.buffer_size > 0,
        r matches Ok(t) ==> utf8_text(from@) == Some(t.from@) && utf8_text(to@) == Some(t.to@)
            && t.options == options,
        r matches Err(e) ==> {
            if utf8_text(from@) is None {
                e.kind == ErrorKind::InvalidPath && e.message@ == "Invalid from path"@
            } else if utf8_text(to@) is None {
                e.kind == ErrorKind::InvalidPath && e.message@ == "Invalid to path"@
            } else {
                e.kind == ErrorKind::Other && e.message@ == "Invalid buffer size"@
            }
        },
{
    let from_path = match decode_path(from, "Invalid from path") {
        Ok(p) => p,
        Err(e) => {
            return Err(e);
        },
    };
    let to_path = match decode_path(to, "Invalid to path") {
        Ok(p) => p,
        Err(e) => {
            return Err(e);
        },
    };
    if options.buffer_size == 0 {
        return Err(Error { kind: ErrorKind::Other, message: "Invalid buffer size".to_owned() });
    }
    Ok(TransferRequest { from: from_path, to: to_path, options })
}

/// The outcome of a copy or move: the byte count on success; on failure the
/// classified error and zero bytes.
pub fn move_result(done: Result<u64, FsError>) -> (r: MoveResult)
    ensures
        match done {
            Ok(n) => r.error is None && r.ok == n,
            Err(f) => r.error matches Some(e) && e.kind == transfer_error_kind(f.kind)
                && e.message@ == f.message@ && r.ok == 0,
        },
{
    match done {
        Ok(n) => MoveResult { error: None, ok: n },
        Err(f) => MoveResult { error: Some(Error::from_transfer_failure(f)), ok: 0 },
    }
}

} // verus!
