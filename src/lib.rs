//! Transfer and metadata-query core: attribute selection, entry projection,
//! progress codes, path validation and result envelopes.

mod attrs;
mod entry;
mod error;
mod ops;
mod transit;

pub use attrs::{get_enum_entry, AttrSet, EntryAttr};
pub use entry::{get_default_entry, parse_entry, AttrValue, Entry, SystemTime};
pub use error::{decode_path, Error, ErrorKind, FsError, FsErrorKind};
pub use ops::{
    details_result, ls_result, move_result, query_request, transfer_request, CopyOptions,
    DetailsEntryResult, LsResult, MoveResult, QueryRequest, TransferRequest,
};
pub use transit::{
    get_enum_transit_result, get_enum_transit_state, get_int_transit_state, DirTransitProcess,
    FileTransitProcess, TransitProcessResult, TransitState,
};
