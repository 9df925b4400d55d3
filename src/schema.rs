//! Schema helper types: system space ids, index metadata, the map of
//! entities unique by both id and name, and handles bound to an executor.
use vstd::prelude::*;
use vstd::string::StringSliceAdditionalSpecFns;

verus! {

/// The first id of a user space.
pub const USER_SPACE_MIN_ID: u32 = 512;

/// The id of a space's primary index.
pub const PRIMARY_INDEX_ID: u32 = 0;

/// Ids of the system views that the schema is read from.
#[derive(Copy, Clone, Debug, PartialEq, Eq, Structural)]
pub enum SystemSpacesId {
    VSpace,
    VIndex,
}

impl SystemSpacesId {
    pub open spec fn spec_id(self) -> u32 {
        match self {
            SystemSpacesId::VSpace => 281,
            SystemSpacesId::VIndex => 289,
        }
    }

    pub fn id(self) -> (r: u32)
        ensures
            r == self.spec_id(),
    {
        match self {
            SystemSpacesId::VSpace => 281,
            SystemSpacesId::VIndex => 289,
        }
    }
}

/// A space or an index, by name or by id.
#[derive(Clone, Debug)]
pub enum SchemaEntityKey {
    Name(String),
    Id(u32),
}

impl SchemaEntityKey {
    /// The index of the system view to look the entity up by: 2 is the
    /// name index, 0 the primary (id) index.
    pub fn space_index_id(&self) -> (r: u32)
        ensures
            self is Name ==> r == 2,
            self is Id ==> r == 0,
    {
        match self {
            SchemaEntityKey::Name(_) => 2,
            SchemaEntityKey::Id(_) => 0,
        }
    }
}

/// An entity with an id and a name, each unique among its kind.
pub trait UniqueIdName {
    spec fn spec_id(&self) -> u32;

    spec fn spec_name(&self) -> Seq<char>;

    fn id(&self) -> (r: u32)
        ensures
            r == self.spec_id(),
    ;

    fn name(&self) -> (r: &str)
        ensures
            r@ == self.spec_name(),
    ;
}

/// The metadata of one index.
#[derive(Clone, Debug)]
pub struct IndexMetadata {
    pub space_id: u32,
    pub index_id: u32,
    pub name: String,
    pub type_: String,
}

impl IndexMetadata {
    pub fn space_id(&self) -> (r: u32)
        ensures
            r == self.space_id,
    {
        self.space_id
    }

    pub fn is_primary(&self) -> (r: bool)
        ensures
            r == (self.index_id == PRIMARY_INDEX_ID),
    {
        self.index_id == PRIMARY_INDEX_ID
    }

    pub fn type_(&self) -> (r: &str)
        ensures
            r@ == self.type_@,
    {
        self.type_.as_str()
    }
}

impl UniqueIdName for IndexMetadata {
    open spec fn spec_id(&self) -> u32 {
        self.index_id
    }

    open spec fn spec_name(&self) -> Seq<char> {
        self.name@
    }

    fn id(&self) -> (r: u32) {
        self.index_id
    }

    fn name(&self) -> (r: &str) {
        self.name.as_str()
    }
}

/// Why an entity could not be inserted.
#[derive(Copy, Clone, Debug, PartialEq, Eq, Structural)]
pub enum UniqueIdNameError {
    /// Its name and its id belong to two different entries.
    TwoEntries,
    /// Its name belongs to an entry with another id.
    NameOnly,
    /// Its id belongs to an entry with another name.
    IdOnly,
}

/// Entities unique by both name and id.
pub struct UniqueIdNameMap<T> {
    items: Vec<T>,
}

/// The position of the entry with name `n`, if any.
pub open spec fn find_name<T: UniqueIdName>(s: Seq<T>, n: Seq<char>) -> Option<int> {
    if exists|i: int| 0 <= i < s.len() && #[trigger] s[i].spec_name() == n {
        Some(choose|i: int| 0 <= i < s.len() && #[trigger] s[i].spec_name() == n)
    } else {
        None
    }
}

/// The position of the entry with id `k`, if any.
pub open spec fn find_id<T: UniqueIdName>(s: Seq<T>, k: u32) -> Option<int> {
    if exists|i: int| 0 <= i < s.len() && #[trigger] s[i].spec_id() == k {
        Some(choose|i: int| 0 <= i < s.len() && #[trigger] s[i].spec_id() == k)
    } else {
        None
    }
}

/// Inserting `value` into the entries `s`: the new entries and the entry
/// it replaced, or why it was refused.
pub open spec fn spec_insert<T: UniqueIdName>(s: Seq<T>, value: T) -> Result<(Seq<T>, Option<T>), UniqueIdNameError> {
    match (find_name(s, value.spec_name()), find_id(s, value.spec_id())) {
        (None, None) => Ok((s.push(value), None)),
        (Some(i), Some(j)) => if i == j {
            Ok((s.update(i, value), Some(s[i])))
        } else {
            Err(UniqueIdNameError::TwoEntries)
        },
        (Some(_), None) => Err(UniqueIdNameError::NameOnly),
        (None, Some(_)) => Err(UniqueIdNameError::IdOnly),
    }
}

/// Inserting `items` in order into the entries `s`, stopping at the first
/// refusal.
pub open spec fn spec_insert_all<T: UniqueIdName>(s: Seq<T>, items: Seq<T>) -> Result<Seq<T>, UniqueIdNameError>
    decreases items.len(),
{
    if items.len() == 0 {
        Ok(s)
    } else {
        match spec_insert(s, items[0]) {
            Err(e) => Err(e),
            Ok((m, _)) => spec_insert_all(m, items.drop_first()),
        }
    }
}

impl<T: UniqueIdName> UniqueIdNameMap<T> {
    pub closed spec fn view(&self) -> Seq<T> {
        self.items@
    }

    /// No two entries share a name or an id.
    pub open spec fn wf(&self) -> bool {
        &&& forall|i: int, j: int|
            0 <= i < self.view().len() && 0 <= j < self.view().len() && i != j
                ==> #[trigger] self.view()[i].spec_name() != #[trigger] self.view()[j].spec_name()
        &&& forall|i: int, j: int|
            0 <= i < self.view().len() && 0 <= j < self.view().len() && i != j
                ==> #[trigger] self.view()[i].spec_id() != #[trigger] self.view()[j].spec_id()
    }

    pub fn new() -> (r: Self)
        ensures
            r.wf(),
            r.view() == Seq::<T>::empty(),
    {
        Self::with_capacity(1)
    }

    pub fn with_capacity(capacity: usize) -> (r: Self)
        ensures
            r.wf(),
            r.view() == Seq::<T>::empty(),
    {
        UniqueIdNameMap { items: Vec::with_capacity(capacity) }
    }

    /// The number of entries.
    pub fn len(&self) -> (r: usize)
        ensures
            r == self.view().len(),
    {
        self.items.len()
    }

    fn position_by_name(&self, n: &str) -> (r: Option<usize>)
        ensures
            match r {
                Some(i) => i < self.view().len() && self.view()[i as int].spec_name() == n@,
                None => forall|i: int| 0 <= i < self.view().len() ==> #[trigger] self.view()[i].spec_name() != n@,
            },
    {
        let mut i: usize = 0;
        while i < self.items.len()
            invariant
                i <= self.items@.len(),
                forall|j: int| 0 <= j < i ==> #[trigger] self.items@[j].spec_name() != n@,
            decreases self.items@.len() - i,
        {
            if str_eq(self.items[i].name(), n) {
                return Some(i);
            }
            i += 1;
        }
        None
    }

    fn position_by_id(&self, k: u32) -> (r: Option<usize>)
        ensures
            match r {
                Some(i) => i < self.view().len() && self.view()[i as int].spec_id() == k,
                None => forall|i: int| 0 <= i < self.view().len() ==> #[trigger] self.view()[i].spec_id() != k,
            },
    {
        let mut i: usize = 0;
        while i < self.items.len()
            invariant
                i <= self.items@.len(),
                forall|j: int| 0 <= j < i ==> #[trigger] self.items@[j].spec_id() != k,
            decreases self.items@.len() - i,
        {
            if self.items[i].id() == k {
                return Some(i);
            }
            i += 1;
        }
        None
    }

    /// Inserts `value`. A value whose name and id both belong to one entry
    /// replaces it, and that entry is returned; a value that shares only its
    /// name, only its id, or its name with one entry and its id with
    /// another, is refused and the map stays as it was.
    pub fn insert(&mut self, value: T) -> (r: Result<Option<T>, UniqueIdNameError>)
        requires
            old(self).wf(),
        ensures
            final(self).wf(),
            match spec_insert(old(self).view(), value) {
                Ok((s2, prev)) => r == Ok::<Option<T>, UniqueIdNameError>(prev) && final(self).view() == s2,
                Err(e) => r == Err::<Option<T>, UniqueIdNameError>(e) && final(self).view() == old(self).view(),
            },
    {
        let ghost s = self.view();
        let by_name = self.position_by_name(value.name());
        let by_id = self.position_by_id(value.id());
        proof {
            match by_name {
                Some(i) => {
                    assert(find_name(s, value.spec_name()) == Some(i as int));
                },
                None => {},
            }
            match by_id {
                Some(j) => {
                    assert(find_id(s, value.spec_id()) == Some(j as int));
                },
                None => {},
            }
        }
        match (by_name, by_id) {
            (None, None) => {
                self.items.push(value);
                assert forall|i: int, j: int|
                    0 <= i < self.view().len() && 0 <= j < self.view().len() && i != j implies #[trigger] self.view()[i].spec_name()
                        != #[trigger] self.view()[j].spec_name() by {
                    if i < s.len() && j < s.len() {
                        assert(s[i] == self.view()[i] && s[j] == self.view()[j]);
                    }
                }
                assert forall|i: int, j: int|
                    0 <= i < self.view().len() && 0 <= j < self.view().len() && i != j implies #[trigger] self.view()[i].spec_id()
                        != #[trigger] self.view()[j].spec_id() by {
                    if i < s.len() && j < s.len() {
                        assert(s[i] == self.view()[i] && s[j] == self.view()[j]);
                    }
                }
                Ok(None)
            },
            (Some(i), Some(j)) => {
                if i == j {
                    let mut old_value = value;
                    core::mem::swap(&mut self.items[i], &mut old_value);
                    Ok(Some(old_value))
                } else {
                    Err(UniqueIdNameError::TwoEntries)
                }
            },
            (Some(_), None) => Err(UniqueIdNameError::NameOnly),
            (None, Some(_)) => Err(UniqueIdNameError::IdOnly),
        }
    }

    /// Builds the map from `items`, inserting them in order; fails at the
    /// first item that is refused.
    pub fn try_from_iter(items: Vec<T>) -> (r: Result<Self, UniqueIdNameError>)
        ensures
            match spec_insert_all(Seq::<T>::empty(), items@) {
                Ok(s) => r is Ok && r->Ok_0.wf() && r->Ok_0.view() == s,
                Err(e) => r matches Err(f) && f == e,
            },
    {
        let ghost all = items@;
        let mut map = Self::with_capacity(items.len());
        let mut rest = items;
        while rest.len() > 0
            invariant
                map.wf(),
                all == items@,
                spec_insert_all(Seq::<T>::empty(), all) == spec_insert_all(map.view(), rest@),
            decreases rest@.len(),
        {
            let ghost before = rest@;
            let x = rest.remove(0);
            assert(rest@ =~= before.drop_first());
            match map.insert(x) {
                Ok(_) => {},
                Err(e) => return Err(e),
            }
        }
        Ok(map)
    }
}

/// Whether two strings are equal.
fn str_eq(a: &str, b: &str) -> (r: bool)
    ensures
        r == (a@ == b@),
{
    let ab = a.as_bytes();
    let bb = b.as_bytes();
    if ab.len() != bb.len() {
        proof {
            if a@ == b@ {
                assert(ab@ == bb@);
            }
        }
        return false;
    }
    let mut i: usize = 0;
    while i < ab.len()
        invariant
            i <= ab@.len(),
            ab@.len() == bb@.len(),
            ab@ == a.spec_bytes(),
            bb@ == b.spec_bytes(),
            forall|j: int| 0 <= j < i ==> ab@[j] == bb@[j],
        decreases ab@.len() - i,
    {
        if ab[i] != bb[i] {
            proof {
                if a@ == b@ {
                    assert(ab@ == bb@);
                }
            }
            return false;
        }
        i += 1;
    }
    assert(ab@ =~= bb@);
    proof {
        vstd::utf8::encode_utf8_decode_utf8(a@);
        vstd::utf8::encode_utf8_decode_utf8(b@);
    }
    true
}

/// A handle on one index of a space, bound to an executor.
pub struct GenericIndex<E, M, S> {
    executor: E,
    metadata: M,
    space_metadata: S,
}

impl<E, M, S> GenericIndex<E, M, S> {
    pub closed spec fn spec_executor(&self) -> E {
        self.executor
    }

    pub closed spec fn spec_metadata(&self) -> M {
        self.metadata
    }

    pub closed spec fn spec_space_metadata(&self) -> S {
        self.space_metadata
    }

    pub fn new(executor: E, metadata: M, space_metadata: S) -> (r: Self)
        ensures
            r.spec_executor() == executor,
            r.spec_metadata() == metadata,
            r.spec_space_metadata() == space_metadata,
    {
        GenericIndex { executor, metadata, space_metadata }
    }

    pub fn into_executor(self) -> (r: E)
        ensures
            r == self.spec_executor(),
    {
        self.executor
    }

    pub fn executor(&self) -> (r: &E)
        ensures
            *r == self.spec_executor(),
    {
        &self.executor
    }

    pub fn metadata(&self) -> (r: &M)
        ensures
            *r == self.spec_metadata(),
    {
        &self.metadata
    }

    pub fn space_metadata(&self) -> (r: &S)
        ensures
            *r == self.spec_space_metadata(),
    {
        &self.space_metadata
    }
}

/// A statement prepared on the server, bound to the executor it was
/// prepared through.
pub struct PreparedSqlStatement<E> {
    stmt_id: u64,
    executor: E,
}

impl<E> PreparedSqlStatement<E> {
    pub closed spec fn spec_stmt_id(&self) -> u64 {
        self.stmt_id
    }

    pub closed spec fn spec_executor(&self) -> E {
        self.executor
    }

    pub fn new(stmt_id: u64, executor: E) -> (r: Self)
        ensures
            r.spec_stmt_id() == stmt_id,
            r.spec_executor() == executor,
    {
        PreparedSqlStatement { stmt_id, executor }
    }

    pub fn stmt_id(&self) -> (r: u64)
        ensures
            r == self.spec_stmt_id(),
    {
        self.stmt_id
    }

    pub fn executor(&self) -> (r: &E)
        ensures
            *r == self.spec_executor(),
    {
        &self.executor
    }
}

impl<'a, E: Clone> PreparedSqlStatement<&'a E> {
    /// The same statement with its own copy of the executor.
    pub fn with_cloned_executor(&self) -> (r: PreparedSqlStatement<E>)
        ensures
            r.spec_stmt_id() == self.spec_stmt_id(),
    {
        PreparedSqlStatement { stmt_id: self.stmt_id, executor: self.executor.clone() }
    }
}

} // verus!
