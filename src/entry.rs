use vstd::prelude::*;
use crate::attrs::EntryAttr;

verus! {

/// A point in time as whole seconds and nanoseconds since the Unix epoch.
#[derive(Clone, Copy, Debug, PartialEq, Eq, Structural)]
pub struct SystemTime {
    pub tv_sec: u64,
    pub tv_nsec: u32,
}

/// One metadata value, already decoded, as read for a directory entry.
#[derive(Debug)]
pub enum AttrValue {
    Str(String),
    Bool(bool),
    Time(SystemTime),
    U64(u64),
}

/// A projected view of one filesystem object. Fields that were not requested
/// hold the empty string, zero, `false` or the epoch.
#[derive(Debug)]
pub struct Entry {
    pub name: String,
    pub ext: String,
    pub full_name: String,
    pub path: String,
    pub dos_path: String,
    pub file_size: u64,
    pub size: u64,
    pub is_dir: bool,
    pub is_file: bool,
    pub modified: SystemTime,
    pub accessed: SystemTime,
    pub created: SystemTime,
}

/// The value recorded for `a`: the first pair with that attribute.
pub open spec fn lookup(item: Seq<(EntryAttr, AttrValue)>, a: EntryAttr) -> Option<AttrValue>
    decreases item.len(),
{
    if item.len() == 0 {
        None
    } else if item[0].0 == a {
        Some(item[0].1)
    } else {
        lookup(item.drop_first(), a)
    }
}

pub open spec fn epoch() -> SystemTime {
    SystemTime { tv_sec: 0, tv_nsec: 0 }
}

pub open spec fn text_of(v: Option<AttrValue>) -> Seq<char> {
    match v {
        Some(AttrValue::Str(s)) => s@,
        _ => Seq::empty(),
    }
}

pub open spec fn u64_of(v: Option<AttrValue>) -> u64 {
    match v {
        Some(AttrValue::U64(n)) => n,
        _ => 0,
    }
}

pub open spec fn bool_of(v: Option<AttrValue>) -> bool {
    match v {
        Some(AttrValue::Bool(b)) => b,
        _ => false,
    }
}

pub open spec fn time_of(v: Option<AttrValue>) -> SystemTime {
    match v {
        Some(AttrValue::Time(t)) => t,
        _ => epoch(),
    }
}

/// Each field of `e` holds the value that `item` records for its attribute,
/// or the empty value where none of the right kind is recorded.
pub open spec fn projects(e: Entry, item: Seq<(EntryAttr, AttrValue)>) -> bool {
    &&& e.name@ == text_of(lookup(item, EntryAttr::Name))
    &&& e.ext@ == text_of(lookup(item, EntryAttr::Ext))
    &&& e.full_name@ == text_of(lookup(item, EntryAttr::FullName))
    &&& e.path@ == text_of(lookup(item, EntryAttr::Path))
    &&& e.dos_path@ == text_of(lookup(item, EntryAttr::DosPath))
    &&& e.file_size == u64_of(lookup(item, EntryAttr::FileSize))
    &&& e.size == u64_of(lookup(item, EntryAttr::Size))
    &&& e.is_dir == bool_of(lookup(item, EntryAttr::IsDir))
    &&& e.is_file == bool_of(lookup(item, EntryAttr::IsFile))
    &&& e.modified == time_of(lookup(item, EntryAttr::Modified))
    &&& e.accessed == time_of(lookup(item, EntryAttr::Accessed))
    &&& e.created == time_of(lookup(item, EntryAttr::Created))
}

/// The field that stands for `a` holds its empty value.
pub open spec fn field_is_empty(e: Entry, a: EntryAttr) -> bool {
    match a {
        EntryAttr::Name => e.name@.len() == 0,
        EntryAttr::Ext => e.ext@.len() == 0,
        EntryAttr::FullName => e.full_name@.len() == 0,
        EntryAttr::Path => e.path@.len() == 0,
        EntryAttr::DosPath => e.dos_path@.len() == 0,
        EntryAttr::FileSize => e.file_size == 0,
        EntryAttr::Size => e.size == 0,
        EntryAttr::IsDir => !e.is_dir,
        EntryAttr::IsFile => !e.is_file,
        EntryAttr::Modified => e.modified == epoch(),
        EntryAttr::Accessed => e.accessed == epoch(),
        EntryAttr::Created => e.created == epoch(),
        EntryAttr::BaseInfo => true,
    }
}

/// The value `v` has the kind that the field of `a` holds.
pub open spec fn value_fits(a: EntryAttr, v: AttrValue) -> bool {
    match a {
        EntryAttr::Name | EntryAttr::Ext | EntryAttr::FullName | EntryAttr::Path
        | EntryAttr::DosPath => v is Str,
        EntryAttr::FileSize | EntryAttr::Size => v is U64,
        EntryAttr::IsDir | EntryAttr::IsFile => v is Bool,
        EntryAttr::Modified | EntryAttr::Accessed | EntryAttr::Created => v is Time,
        EntryAttr::BaseInfo => false,
    }
}

/// The field that stands for `a` holds `v`.
pub open spec fn field_holds(e: Entry, a: EntryAttr, v: AttrValue) -> bool {
    match a {
        EntryAttr::Name => e.name@ == text_of(Some(v)),
        EntryAttr::Ext => e.ext@ == text_of(Some(v)),
        EntryAttr::FullName => e.full_name@ == text_of(Some(v)),
        EntryAttr::Path => e.path@ == text_of(Some(v)),
        EntryAttr::DosPath => e.dos_path@ == text_of(Some(v)),
        EntryAttr::FileSize => e.file_size == u64_of(Some(v)),
        EntryAttr::Size => e.size == u64_of(Some(v)),
        EntryAttr::IsDir => e.is_dir == bool_of(Some(v)),
        EntryAttr::IsFile => e.is_file == bool_of(Some(v)),
        EntryAttr::Modified => e.modified == time_of(Some(v)),
        EntryAttr::Accessed => e.accessed == time_of(Some(v)),
        EntryAttr::Created => e.created == time_of(Some(v)),
        EntryAttr::BaseInfo => true,
    }
}

/// An attribute that no pair of `item` names has no value there.
pub proof fn lemma_lookup_absent(item: Seq<(EntryAttr, AttrValue)>, a: EntryAttr)
    requires
        forall|i: int| 0 <= i < item.len() ==> item[i].0 != a,
    ensures
        lookup(item, a) is None,
    decreases item.len(),
{
    if item.len() > 0 {
        assert forall|i: int| 0 <= i < item.drop_first().len() implies item.drop_first()[i].0 != a by {
            assert(item.drop_first()[i] == item[i + 1]);
        }
        lemma_lookup_absent(item.drop_first(), a);
    }
}

/// Projecting the values read for a set of attributes fills exactly the fields
/// of those attributes: every other field keeps its empty value, and each
/// requested attribute whose value was read shows that value.
pub proof fn lemma_projection_fills_requested(
    item: Seq<(EntryAttr, AttrValue)>,
    requested: Set<EntryAttr>,
    e: Entry,
)
    requires
        projects(e, item),
        forall|i: int| 0 <= i < item.len() ==> requested.contains(#[trigger] item[i].0),
    ensures
        forall|a: EntryAttr| !requested.contains(a) ==> field_is_empty(e, a),
        forall|a: EntryAttr|
            requested.contains(a) && lookup(item, a) is Some && value_fits(a, lookup(item, a)->0)
                ==> field_holds(e, a, lookup(item, a)->0),
{
    assert forall|a: EntryAttr| !requested.contains(a) implies field_is_empty(e, a) by {
        assert forall|i: int| 0 <= i < item.len() implies item[i].0 != a by {
            assert(requested.contains(item[i].0));
        }
        lemma_lookup_absent(item, a);
    }
}

/// The entry with every field at its empty value.
pub fn get_default_entry() -> (r: Entry)
    ensures
        forall|a: EntryAttr| field_is_empty(r, a),
        projects(r, Seq::empty()),
{
    Entry {
        name: String::new(),
        ext: String::new(),
        full_name: String::new(),
        path: String::new(),
        dos_path: String::new(),
        file_size: 0,
        size: 0,
        is_dir: false,
        is_file: false,
        modified: SystemTime { tv_sec: 0, tv_nsec: 0 },
        accessed: SystemTime { tv_sec: 0, tv_nsec: 0 },
        created: SystemTime { tv_sec: 0, tv_nsec: 0 },
    }
}

/// Position of the first pair that names `a`.
fn find_attr(item: &Vec<(EntryAttr, AttrValue)>, a: EntryAttr) -> (r: Option<usize>)
    ensures
        match r {
            Some(i) => i < item@.len() && item@[i as int].0 == a && lookup(item@, a) == Some(
                item@[i as int].1,
            ),
            None => lookup(item@, a) is None,
        },
{
    let mut i: usize = 0;
    assert(item@.skip(0) =~= item@);
    while i < item.len()
        invariant
            i <= item@.len(),
            lookup(item@, a) == lookup(item@.skip(i as int), a),
        decreases item.len() - i,
    {
        let ghost rest = item@.skip(i as int);
        assert(rest[0] == item@[i as int]);
        if item[i].0 == a {
            return Some(i);
        }
        assert(rest.drop_first() =~= item@.skip(i + 1));
        i = i + 1;
    }
    None
}

fn str_val(item: &Vec<(EntryAttr, AttrValue)>, a: EntryAttr) -> (r: String)
    ensures
        r@ == text_of(lookup(item@, a)),
{
    match find_attr(item, a) {
        Some(i) => match &item[i].1 {
            AttrValue::Str(s) => s.clone(),
            _ => String::new(),
        },
        None => String::new(),
    }
}

fn u64_val(item: &Vec<(EntryAttr, AttrValue)>, a: EntryAttr) -> (r: u64)
    ensures
        r == u64_of(lookup(item@, a)),
{
    match find_attr(item, a) {
        Some(i) => match &item[i].1 {
            AttrValue::U64(n) => *n,
            _ => 0,
        },
        None => 0,
    }
}

fn bool_val(item: &Vec<(EntryAttr, AttrValue)>, a: EntryAttr) -> (r: bool)
    ensures
        r == bool_of(lookup(item@, a)),
{
    match find_attr(item, a) {
        Some(i) => match &item[i].1 {
            AttrValue::Bool(b) => *b,
            _ => false,
        },
        None => false,
    }
}

fn time_val(item: &Vec<(EntryAttr, AttrValue)>, a: EntryAttr) -> (r: SystemTime)
    ensures
        r == time_of(lookup(item@, a)),
{
    match find_attr(item, a) {
        Some(i) => match &item[i].1 {
            AttrValue::Time(t) => *t,
            _ => SystemTime { tv_sec: 0, tv_nsec: 0 },
        },
        None => SystemTime { tv_sec: 0, tv_nsec: 0 },
    }
}

/// Builds the entry from the values read for it: each field takes the value
/// recorded for its attribute when it is of the field's kind, and its empty
/// value otherwise.
pub fn parse_entry(item: &Vec<(EntryAttr, AttrValue)>) -> (r: Entry)
    ensures
        projects(r, item@),
{
    Entry {
        name: str_val(item, EntryAttr::Name),
        ext: str_val(item, EntryAttr::Ext),
        full_name: str_val(item, EntryAttr::FullName),
        path: str_val(item, EntryAttr::Path),
        dos_path: str_val(item, EntryAttr::DosPath),
        file_size: u64_val(item, EntryAttr::FileSize),
        size: u64_val(item, EntryAttr::Size),
        is_dir: bool_val(item, EntryAttr::IsDir),
        is_file: bool_val(item, EntryAttr::IsFile),
        modified: time_val(item, EntryAttr::Modified),
        accessed: time_val(item, EntryAttr::Accessed),
        created: time_val(item, EntryAttr::Created),
    }
}

} // verus!
