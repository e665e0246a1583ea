use vstd::prelude::*;

verus! {

/// A metadata attribute of a directory entry that a caller can ask for.
#[derive(Clone, Copy, Debug, PartialEq, Eq, Hash, Structural)]
pub enum EntryAttr {
    Name,
    Ext,
    FullName,
    Path,
    DosPath,
    FileSize,
    Size,
    IsDir,
    IsFile,
    Modified,
    Accessed,
    Created,
    BaseInfo,
}

/// Number of distinct attribute codes.
pub const ATTR_COUNT: u8 = 13;

/// The small integer code that stands for an attribute.
pub open spec fn attr_code(a: EntryAttr) -> nat {
    match a {
        EntryAttr::Name => 0,
        EntryAttr::Ext => 1,
        EntryAttr::FullName => 2,
        EntryAttr::Path => 3,
        EntryAttr::DosPath => 4,
        EntryAttr::FileSize => 5,
        EntryAttr::Size => 6,
        EntryAttr::IsDir => 7,
        EntryAttr::IsFile => 8,
        EntryAttr::Modified => 9,
        EntryAttr::Accessed => 10,
        EntryAttr::Created => 11,
        EntryAttr::BaseInfo => 12,
    }
}

/// Decodes an attribute code; codes outside `0..13` are a caller error.
pub fn get_enum_entry(num: u8) -> (r: EntryAttr)
    requires
        num < ATTR_COUNT,
    ensures
        attr_code(r) == num as nat,
{
    match num {
        0 => EntryAttr::Name,
        1 => EntryAttr::Ext,
        2 => EntryAttr::FullName,
        3 => EntryAttr::Path,
        4 => EntryAttr::DosPath,
        5 => EntryAttr::FileSize,
        6 => EntryAttr::Size,
        7 => EntryAttr::IsDir,
        8 => EntryAttr::IsFile,
        9 => EntryAttr::Modified,
        10 => EntryAttr::Accessed,
        11 => EntryAttr::Created,
        _ => EntryAttr::BaseInfo,
    }
}

/// Distinct attributes have distinct codes.
pub proof fn lemma_attr_code_injective(a: EntryAttr, b: EntryAttr)
    ensures
        attr_code(a) == attr_code(b) ==> a == b,
        attr_code(a) < ATTR_COUNT,
{
}

/// A set of requested attributes, one flag per attribute code.
pub struct AttrSet {
    flags: Vec<bool>,
}

impl View for AttrSet {
    type V = Set<EntryAttr>;

    closed spec fn view(&self) -> Set<EntryAttr> {
        Set::new(|a: EntryAttr| attr_code(a) < self.flags@.len() && self.flags@[attr_code(a) as int])
    }
}

/// Every code in `codes` names an attribute.
pub open spec fn all_codes_known(codes: Seq<u8>) -> bool {
    forall|i: int| 0 <= i < codes.len() ==> codes[i] < ATTR_COUNT
}

/// The attributes that a sequence of known codes names.
pub open spec fn attrs_of_codes(codes: Seq<u8>) -> Set<EntryAttr> {
    Set::new(|a: EntryAttr| exists|i: int| 0 <= i < codes.len() && codes[i] as nat == attr_code(a))
}

impl AttrSet {
    pub closed spec fn wf(&self) -> bool {
        self.flags@.len() == ATTR_COUNT
    }

    /// The empty set.
    pub fn new() -> (r: AttrSet)
        ensures
            r.wf(),
            r@ == Set::<EntryAttr>::empty(),
    {
        let flags: Vec<bool> = vec![false; 13];
        let r = AttrSet { flags };
        assert(r@ =~= Set::<EntryAttr>::empty());
        r
    }

    /// Adds one attribute; adding one already present changes nothing.
    pub fn insert(&mut self, a: EntryAttr)
        requires
            old(self).wf(),
        ensures
            final(self).wf(),
            final(self)@ == old(self)@.insert(a),
    {
        let i: usize = Self::index_of(a);
        self.flags.set(i, true);
        proof {
            lemma_attr_code_injective(a, a);
            assert forall|b: EntryAttr| #[trigger] self@.contains(b) == old(self)@.insert(a).contains(b) by {
                lemma_attr_code_injective(a, b);
            }
        }
        assert(self@ =~= old(self)@.insert(a));
    }

    /// Whether the attribute was requested.
    pub fn contains(&self, a: EntryAttr) -> (r: bool)
        requires
            self.wf(),
        ensures
            r == self@.contains(a),
    {
        let i: usize = Self::index_of(a);
        self.flags[i]
    }

    fn index_of(a: EntryAttr) -> (r: usize)
        ensures
            r as nat == attr_code(a),
            r < ATTR_COUNT,
    {
        match a {
            EntryAttr::Name => 0,
            EntryAttr::Ext => 1,
            EntryAttr::FullName => 2,
            EntryAttr::Path => 3,
            EntryAttr::DosPath => 4,
            EntryAttr::FileSize => 5,
            EntryAttr::Size => 6,
            EntryAttr::IsDir => 7,
            EntryAttr::IsFile => 8,
            EntryAttr::Modified => 9,
            EntryAttr::Accessed => 10,
            EntryAttr::Created => 11,
            EntryAttr::BaseInfo => 12,
        }
    }

    /// Builds the set named by a list of codes. Repeated codes collapse into
    /// one member; `None` when some code names no attribute.
    pub fn from_codes(codes: &Vec<u8>) -> (r: Option<AttrSet>)
        ensures
            r is Some <==> all_codes_known(codes@),
            r matches Some(s) ==> s.wf() && s@ == attrs_of_codes(codes@),
    {
        let mut s = AttrSet::new();
        let mut i: usize = 0;
        while i < codes.len()
            invariant
                i <= codes.len(),
                s.wf(),
                all_codes_known(codes@.take(i as int)),
                s@ == attrs_of_codes(codes@.take(i as int)),
            decreases codes.len() - i,
        {
            let c = codes[i];
            if c >= ATTR_COUNT {
                assert(!all_codes_known(codes@)) by {
                    assert(!(codes@[i as int] < ATTR_COUNT));
                }
                return None;
            }
            let a = get_enum_entry(c);
            let ghost before = s@;
            s.insert(a);
            proof {
                let prev = codes@.take(i as int);
                let next = codes@.take(i + 1);
                assert(next =~= prev.push(c));
                assert forall|b: EntryAttr| #[trigger] s@.contains(b) == attrs_of_codes(next).contains(b) by {
                    if attrs_of_codes(next).contains(b) {
                        let j = choose|j: int| 0 <= j < next.len() && next[j] as nat == attr_code(b);
                        if j < prev.len() {
                            assert(prev[j] == next[j]);
                            assert(attrs_of_codes(prev).contains(b));
                        } else {
                            lemma_attr_code_injective(a, b);
                        }
                    }
                    if s@.contains(b) && b != a {
                        assert(attrs_of_codes(prev).contains(b));
                        let j = choose|j: int| 0 <= j < prev.len() && prev[j] as nat == attr_code(b);
                        assert(next[j] == prev[j]);
                    }
                    if b == a {
                        assert(next[i as int] as nat == attr_code(b));
                    }
                }
                assert(s@ =~= attrs_of_codes(next));
                assert forall|k: int| 0 <= k < next.len() implies next[k] < ATTR_COUNT by {
                    if k < prev.len() {
                        assert(next[k] == prev[k]);
                    }
                }
            }
            i = i + 1;
        }
        assert(codes@.take(codes.len() as int) =~= codes@);
        Some(s)
    }

    /// The members, in code order.
    pub fn to_vec(&self) -> (r: Vec<EntryAttr>)
        requires
            self.wf(),
        ensures
            forall|a: EntryAttr| self@.contains(a) <==> r@.contains(a),
            forall|i: int, j: int| 0 <= i < j < r@.len() ==> attr_code(r@[i]) < attr_code(r@[j]),
    {
        let mut r: Vec<EntryAttr> = Vec::new();
        let mut c: u8 = 0;
        while c < ATTR_COUNT
            invariant
                c <= ATTR_COUNT,
                self.wf(),
                forall|a: EntryAttr| (self@.contains(a) && attr_code(a) < c) <==> r@.contains(a),
                forall|i: int, j: int| 0 <= i < j < r@.len() ==> attr_code(r@[i]) < attr_code(r@[j]),
                forall|i: int| 0 <= i < r@.len() ==> attr_code(#[trigger] r@[i]) < c,
            decreases ATTR_COUNT - c,
        {
            let a = get_enum_entry(c);
            let ghost prev = r@;
            if self.contains(a) {
                r.push(a);
            }
            proof {
                assert forall|b: EntryAttr| (self@.contains(b) && attr_code(b) < c + 1) <==> #[trigger] r@.contains(b) by {
                    lemma_attr_code_injective(a, b);
                    if r@.contains(b) && b != a {
                        let k = choose|k: int| 0 <= k < r@.len() && r@[k] == b;
                        assert(prev[k] == b);
                    }
                    if prev.contains(b) {
                        let k = choose|k: int| 0 <= k < prev.len() && prev[k] == b;
                        assert(r@[k] == b);
                    }
                    if b == a && self@.contains(a) {
                        assert(r@[r@.len() - 1] == a);
                    }
                }
            }
            c = c + 1;
        }
        r
    }
}

} // verus!
