use vstd::prelude::*;
use crate::bind::GetBytes;
use std::collections::HashMap;
use std::marker::PhantomData;

verus! {

/// The id of the asset that a table holds as its default.
pub const DEFAULT_HANDLE_ID: u128 = 240940089166493627844978703213080810552;

/// The number that bytes spell in base 256, most significant byte first.
pub open spec fn be_value(s: Seq<u8>) -> nat
    decreases s.len(),
{
    if s.len() == 0 {
        0
    } else {
        be_value(s.drop_last()) * 256 + s.last() as nat
    }
}

/// `256` to the power `n`.
pub open spec fn radix_pow(n: nat) -> nat
    decreases n,
{
    if n == 0 {
        1
    } else {
        radix_pow((n - 1) as nat) * 256
    }
}

/// A stable reference to an asset of type `T` in an asset table, addressed
/// by a 128-bit id. Two handles made from the same id name the same asset;
/// the type keeps a mesh handle from standing where a texture is meant.
#[derive(Debug)]
pub struct Handle<T> {
    pub id: u128,
    pub marker: PhantomData<T>,
}

impl<T> Clone for Handle<T> {
    fn clone(&self) -> (r: Handle<T>)
        ensures
            r == *self,
    {
        Handle { id: self.id, marker: PhantomData }
    }
}

impl<T> Copy for Handle<T> {
}

impl<T> PartialEq for Handle<T> {
    /// Handles are equal when their ids are.
    fn eq(&self, o: &Handle<T>) -> (r: bool) {
        self.id == o.id
    }
}

impl<T> Eq for Handle<T> {
}

impl<T> vstd::std_specs::cmp::PartialEqSpecImpl for Handle<T> {
    open spec fn obeys_eq_spec() -> bool {
        true
    }

    open spec fn eq_spec(&self, o: &Handle<T>) -> bool {
        self.id == o.id
    }
}

proof fn lemma_radix_pow_mono(a: nat, b: nat)
    requires
        a <= b,
    ensures
        radix_pow(a) <= radix_pow(b),
    decreases b,
{
    if a < b {
        lemma_radix_pow_mono(a, (b - 1) as nat);
    }
}

impl<T> Handle<T> {
    /// The handle of the given id; a fixed id gives a handle that every
    /// module can name without sharing a value.
    pub fn from_u128(id: u128) -> (h: Handle<T>)
        ensures
            h.id == id,
    {
        Handle { id, marker: PhantomData }
    }

    /// The handle whose id is spelled by sixteen bytes, most significant
    /// first; the same bytes always give the same handle.
    pub fn from_bytes(bytes: [u8; 16]) -> (h: Handle<T>)
        ensures
            h.id as nat == be_value(bytes@),
    {
        let mut acc: u128 = 0;
        let mut i: usize = 0;
        while i < 16
            invariant
                i <= 16,
                acc as nat == be_value(bytes@.subrange(0, i as int)),
                (acc as nat) < radix_pow(i as nat),
            decreases 16 - i,
        {
            proof {
                reveal_with_fuel(radix_pow, 17);
                assert(radix_pow(16) == 0x1_0000_0000_0000_0000_0000_0000_0000_0000);
                lemma_radix_pow_mono(i as nat + 1, 16);
                assert(bytes@.subrange(0, i + 1).drop_last() =~= bytes@.subrange(0, i as int));
                assert((acc as nat) * 256 + 255 < radix_pow(i as nat) * 256) by (nonlinear_arith)
                    requires
                        (acc as nat) < radix_pow(i as nat),
                ;
            }
            acc = acc * 256 + bytes[i] as u128;
            i = i + 1;
        }
        assert(bytes@.subrange(0, 16) =~= bytes@);
        Handle { id: acc, marker: PhantomData }
    }

    /// The handle under which a table keeps its default asset.
    pub fn default_handle() -> (h: Handle<T>)
        ensures
            h.id == DEFAULT_HANDLE_ID,
    {
        Handle { id: DEFAULT_HANDLE_ID, marker: PhantomData }
    }
}

impl<T> GetBytes for Handle<T> {
    /// A handle is no uniform: it has no bytes of its own.
    open spec fn payload(&self) -> Seq<u8> {
        Seq::empty()
    }

    fn get_bytes(&self) -> (r: Vec<u8>) {
        Vec::new()
    }

    /// A handle has no stable view of bytes either.
    fn get_bytes_ref(&self) -> (r: Option<&[u8]>)
        ensures
            r is None,
    {
        None
    }
}

/// An asset table: assets of one kind stored under handles. Inserting under
/// a handle that is already taken replaces what was there and reports it.
pub struct AssetStorage<T> {
    assets: HashMap<u128, T>,
}

impl<T> View for AssetStorage<T> {
    type V = Map<u128, T>;

    /// What the table holds: the asset under each handle id.
    closed spec fn view(&self) -> Map<u128, T> {
        self.assets@
    }
}

impl<T> AssetStorage<T> {
    /// An empty table.
    pub fn new() -> (r: AssetStorage<T>)
        ensures
            r@ == Map::<u128, T>::empty(),
    {
        AssetStorage { assets: HashMap::new() }
    }

    /// Stores `asset` under `handle`, replacing any asset kept there; the
    /// result tells whether the handle was already taken, so that two
    /// modules writing different assets under one fixed handle can notice.
    pub fn add_with_handle(&mut self, handle: Handle<T>, asset: T) -> (taken: bool)
        ensures
            final(self)@ == old(self)@.insert(handle.id, asset),
            taken == old(self)@.contains_key(handle.id),
    {
        broadcast use vstd::std_specs::hash::group_hash_axioms;

        self.assets.insert(handle.id, asset).is_some()
    }

    /// Stores `asset` as the table's default, under the default handle.
    pub fn add_default(&mut self, asset: T) -> (taken: bool)
        ensures
            final(self)@ == old(self)@.insert(DEFAULT_HANDLE_ID, asset),
            taken == old(self)@.contains_key(DEFAULT_HANDLE_ID),
    {
        self.add_with_handle(Handle::default_handle(), asset)
    }

    /// Whether an asset is stored under `handle`.
    pub fn contains(&self, handle: Handle<T>) -> (r: bool)
        ensures
            r == self@.contains_key(handle.id),
    {
        broadcast use vstd::std_specs::hash::group_hash_axioms;

        self.assets.contains_key(&handle.id)
    }

    /// The asset stored under `handle`, if any.
    pub fn get(&self, handle: Handle<T>) -> (r: Option<&T>)
        ensures
            r is None == !self@.contains_key(handle.id),
            r matches Some(a) ==> *a == self@[handle.id],
    {
        broadcast use vstd::std_specs::hash::group_hash_axioms;

        self.assets.get(&handle.id)
    }
}

/// Two insertions under one handle: the second asset is the one the table
/// holds afterwards, and the second insertion reports the handle as taken.
pub proof fn lemma_second_insert_wins<T>(before: Map<u128, T>, h: Handle<T>, first: T, second: T)
    ensures
        before.insert(h.id, first).insert(h.id, second)[h.id] == second,
        before.insert(h.id, first).contains_key(h.id),
        before.insert(h.id, first).insert(h.id, second) == before.insert(h.id, second),
{
    assert(before.insert(h.id, first).insert(h.id, second) =~= before.insert(h.id, second));
}

} // verus!
