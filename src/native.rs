use vstd::prelude::*;

verus! {

broadcast use vstd::seq_lib::group_seq_properties;

/// Ledger of the blocks that the native side has allocated and that nobody
/// has released yet.
///
/// Every natively allocated block carries the id that the ledger gave it.
/// Releasing a block hands it back to the native allocator (or hands its
/// bytes over to a host value); a block can be released only while it is
/// live, so no block is ever released twice.
pub struct NativeHeap {
    live: Vec<bool>,
    released: Ghost<Seq<usize>>,
}

/// A NUL-terminated string allocated by the native side (its bytes, without
/// the terminator).
#[derive(Debug)]
pub struct NativeCString {
    pub id: usize,
    pub bytes: Vec<u8>,
}

/// A native owned byte string.
#[derive(Debug)]
pub struct NativeString {
    pub id: usize,
    pub bytes: Vec<u8>,
}

/// A natively allocated array block.
#[derive(Debug)]
pub struct NativeBlock<T> {
    pub id: usize,
    pub items: Vec<T>,
}

/// One field → value entry of a native array; a null value pointer is `None`.
#[derive(Debug)]
pub struct NativeFieldValue {
    pub field: NativeCString,
    pub value: Option<NativeString>,
}

/// A native field → value array; the null sentinel is `block == None`.
#[derive(Debug)]
pub struct NativeFieldValueArray {
    pub block: Option<NativeBlock<NativeFieldValue>>,
}

/// One key / operation / field-values entry of a native array.
#[derive(Debug)]
pub struct NativeKeyOpFieldValues {
    pub key: NativeCString,
    pub operation: u32,
    pub field_values: NativeFieldValueArray,
}

/// A native key / operation / field-values array; the null sentinel is
/// `block == None`.
#[derive(Debug)]
pub struct NativeKeyOpFieldValuesArray {
    pub block: Option<NativeBlock<NativeKeyOpFieldValues>>,
}

/// A native string array; the null sentinel is `block == None`.
#[derive(Debug)]
pub struct NativeStringArray {
    pub block: Option<NativeBlock<NativeCString>>,
}

/// The ids that a sequence of entries owns, entry after entry.
pub open spec fn ids_of<T>(s: Seq<T>, f: spec_fn(T) -> Seq<usize>) -> Seq<usize>
    decreases s.len(),
{
    if s.len() == 0 {
        Seq::empty()
    } else {
        ids_of(s.drop_last(), f) + f(s.last())
    }
}

/// The ids that a field → value entry owns.
pub open spec fn field_value_ids(e: NativeFieldValue) -> Seq<usize> {
    match e.value {
        Some(v) => seq![e.field.id, v.id],
        None => seq![e.field.id],
    }
}

/// [`field_value_ids`] as a function value.
pub open spec fn field_value_ids_fn() -> spec_fn(NativeFieldValue) -> Seq<usize> {
    |e: NativeFieldValue| field_value_ids(e)
}

/// The ids that a field → value array owns: its entries', then its block's.
pub open spec fn field_value_array_ids(a: NativeFieldValueArray) -> Seq<usize> {
    match a.block {
        Some(b) => ids_of(b.items@, field_value_ids_fn()) + seq![b.id],
        None => Seq::empty(),
    }
}

/// The ids that a key / operation / field-values entry owns.
pub open spec fn key_op_ids(e: NativeKeyOpFieldValues) -> Seq<usize> {
    seq![e.key.id] + field_value_array_ids(e.field_values)
}

/// [`key_op_ids`] as a function value.
pub open spec fn key_op_ids_fn() -> spec_fn(NativeKeyOpFieldValues) -> Seq<usize> {
    |e: NativeKeyOpFieldValues| key_op_ids(e)
}

/// The ids that a key / operation / field-values array owns.
pub open spec fn key_op_array_ids(a: NativeKeyOpFieldValuesArray) -> Seq<usize> {
    match a.block {
        Some(b) => ids_of(b.items@, key_op_ids_fn()) + seq![b.id],
        None => Seq::empty(),
    }
}

/// The id of a native C string, as a one-element sequence.
pub open spec fn cstring_ids_fn() -> spec_fn(NativeCString) -> Seq<usize> {
    |e: NativeCString| seq![e.id]
}

/// The ids that a string array owns.
pub open spec fn string_array_ids(a: NativeStringArray) -> Seq<usize> {
    match a.block {
        Some(b) => ids_of(b.items@, cstring_ids_fn()) + seq![b.id],
        None => Seq::empty(),
    }
}

/// The live set once the given ids have been released.
pub open spec fn without(live: Set<usize>, ids: Seq<usize>) -> Set<usize> {
    Set::new(|x: usize| live.contains(x) && !ids.contains(x))
}

/// Ids owned by the first `i` entries, then the `i`th, then the rest.
pub proof fn lemma_ids_of_split<T>(s: Seq<T>, f: spec_fn(T) -> Seq<usize>, i: int)
    requires
        0 <= i < s.len(),
    ensures
        ids_of(s, f) == ids_of(s.subrange(0, i), f) + f(s[i]) + ids_of(s.subrange(i + 1, s.len() as int), f),
    decreases s.len(),
{
    let n = s.len() as int;
    if i == n - 1 {
        assert(s.subrange(0, i) =~= s.drop_last());
        assert(s.subrange(i + 1, n) =~= Seq::<T>::empty());
        assert(ids_of(s.subrange(i + 1, n), f) =~= Seq::<usize>::empty());
        assert(ids_of(s, f) =~= ids_of(s.subrange(0, i), f) + f(s[i]) + Seq::<usize>::empty());
    } else {
        let p = s.drop_last();
        lemma_ids_of_split(p, f, i);
        assert(p.subrange(0, i) =~= s.subrange(0, i));
        assert(s.subrange(i + 1, n).drop_last() =~= p.subrange(i + 1, n - 1));
        assert(s.subrange(i + 1, n).last() == s.last());
        assert(ids_of(s, f) =~= ids_of(s.subrange(0, i), f) + f(s[i]) + ids_of(s.subrange(i + 1, n), f));
    }
}

/// Ids owned by the first `i + 1` entries.
pub proof fn lemma_ids_of_prefix<T>(s: Seq<T>, f: spec_fn(T) -> Seq<usize>, i: int)
    requires
        0 <= i < s.len(),
    ensures
        ids_of(s.subrange(0, i + 1), f) == ids_of(s.subrange(0, i), f) + f(s[i]),
{
    assert(s.subrange(0, i + 1).drop_last() =~= s.subrange(0, i));
}

/// In a duplicate-free `a + b + c` whose ids are all live, the ids of `b`
/// are live, distinct, and none of them is among those of `a`.
pub proof fn lemma_middle_fresh(a: Seq<usize>, b: Seq<usize>, c: Seq<usize>, live: Set<usize>)
    requires
        (a + b + c).no_duplicates(),
        forall|k: int| 0 <= k < (a + b + c).len() ==> live.contains(#[trigger] (a + b + c)[k]),
    ensures
        b.no_duplicates(),
        forall|k: int| 0 <= k < b.len() ==> live.contains(#[trigger] b[k]) && !a.contains(b[k]),
{
    let s = a + b + c;
    assert forall|k: int| 0 <= k < b.len() implies live.contains(#[trigger] b[k]) && !a.contains(b[k]) by {
        assert(s[a.len() + k] == b[k]);
        if a.contains(b[k]) {
            let j = choose|j: int| 0 <= j < a.len() && a[j] == b[k];
            assert(s[j] == b[k]);
        }
    }
    assert forall|x: int, y: int| 0 <= x < b.len() && 0 <= y < b.len() && x != y implies b[x] != b[y] by {
        assert(s[a.len() + x] == b[x]);
        assert(s[a.len() + y] == b[y]);
    }
}

impl NativeHeap {
    /// The ids of the blocks that are allocated and not yet released.
    pub closed spec fn live_ids(&self) -> Set<usize> {
        Set::new(|id: usize| id < self.live@.len() && self.live@[id as int])
    }

    /// The ids released so far, in the order of their release.
    pub closed spec fn release_log(&self) -> Seq<usize> {
        self.released@
    }

    /// How many more blocks can still be allocated.
    pub closed spec fn spare(&self) -> nat {
        (usize::MAX - self.live@.len()) as nat
    }

    /// Whether the heap holds every id of `ids`, each once.
    pub open spec fn owns_all(&self, ids: Seq<usize>) -> bool {
        &&& ids.no_duplicates()
        &&& forall|k: int| 0 <= k < ids.len() ==> self.live_ids().contains(#[trigger] ids[k])
    }

    /// A ledger with nothing allocated.
    pub fn new() -> (r: NativeHeap)
        ensures
            r.live_ids() == Set::<usize>::empty(),
            r.spare() == usize::MAX,
            r.release_log() == Seq::<usize>::empty(),
    {
        let r = NativeHeap { live: Vec::new(), released: Ghost(Seq::empty()) };
        assert(r.live_ids() =~= Set::<usize>::empty());
        r
    }

    /// Records a new allocation and returns its id.
    pub fn allocate(&mut self) -> (id: usize)
        requires
            old(self).spare() > 0,
        ensures
            !old(self).live_ids().contains(id),
            final(self).live_ids() == old(self).live_ids().insert(id),
            final(self).spare() == old(self).spare() - 1,
            final(self).release_log() == old(self).release_log(),
    {
        let id = self.live.len();
        self.live.push(true);
        assert(self.live_ids() =~= old(self).live_ids().insert(id));
        id
    }

    /// Releases a live block.
    pub fn release(&mut self, id: usize)
        requires
            old(self).live_ids().contains(id),
        ensures
            final(self).live_ids() == old(self).live_ids().remove(id),
            final(self).spare() == old(self).spare(),
            final(self).release_log() == old(self).release_log().push(id),
    {
        self.live.set(id, false);
        self.released = Ghost(self.released@.push(id));
        assert(self.live_ids() =~= old(self).live_ids().remove(id));
    }

    /// Whether the block `id` is allocated and not yet released.
    pub fn is_live(&self, id: usize) -> (r: bool)
        ensures
            r == self.live_ids().contains(id),
    {
        id < self.live.len() && self.live[id]
    }

    /// Allocates a NUL-terminated string holding `bytes`.
    pub fn new_cstring(&mut self, bytes: Vec<u8>) -> (r: NativeCString)
        requires
            old(self).spare() > 0,
        ensures
            r.bytes@ == bytes@,
            !old(self).live_ids().contains(r.id),
            final(self).live_ids() == old(self).live_ids().insert(r.id),
            final(self).spare() == old(self).spare() - 1,
    {
        let id = self.allocate();
        NativeCString { id, bytes }
    }

    /// Allocates an owned byte string holding `bytes`.
    pub fn new_string(&mut self, bytes: Vec<u8>) -> (r: NativeString)
        requires
            old(self).spare() > 0,
        ensures
            r.bytes@ == bytes@,
            !old(self).live_ids().contains(r.id),
            final(self).live_ids() == old(self).live_ids().insert(r.id),
            final(self).spare() == old(self).spare() - 1,
    {
        let id = self.allocate();
        NativeString { id, bytes }
    }

    /// Allocates an array block holding `items`.
    pub fn new_block<T>(&mut self, items: Vec<T>) -> (r: NativeBlock<T>)
        requires
            old(self).spare() > 0,
        ensures
            r.items@ == items@,
            !old(self).live_ids().contains(r.id),
            final(self).live_ids() == old(self).live_ids().insert(r.id),
            final(self).spare() == old(self).spare() - 1,
    {
        let id = self.allocate();
        NativeBlock { id, items }
    }
}

} // verus!
