//! The lease-tracked texture pool.
//!
//! The pool keeps one list of entries per texture class. Every entry is a
//! square buffer whose side is a power of two, and within a class the sides
//! grow along the list, so a class never holds two buffers of one bucket.
//! An entry is created when a request finds no buffer that covers it, moves
//! between free and leased, and is never removed.
//!
//! The pool decides; it does not touch the GPU. When a request misses, the
//! pool says which buffer is to be allocated, and the thread that owns the
//! GPU context allocates it and registers the identifier it got.

use crate::error::BrokerError;
use crate::sizing::{alloc_size, bucket, larger, lemma_bucket_covers, lemma_bucket_is_power};
use crate::texture::{TextureHandle, TextureType};
use vstd::arithmetic::power2::is_pow2;
use vstd::prelude::*;

verus! {

/// Whether an entry is available or held by a caller.
#[derive(Debug, Clone, Copy, PartialEq, Eq, Structural)]
pub enum LeaseState {
    Free,
    Leased,
}

/// One buffer of the pool.
#[derive(Debug, Clone, Copy, PartialEq, Eq, Structural)]
pub struct PoolEntry {
    pub handle: TextureHandle,
    pub class: TextureType,
    pub lease: LeaseState,
}

/// How a request to lease a texture ended.
#[derive(Debug, Clone, Copy, PartialEq, Eq, Structural)]
pub enum Acquire {
    /// A free buffer covers the request; it is leased now.
    Leased(TextureHandle),
    /// The buffer that covers the request is leased: none is available, and
    /// the caller is to come back later.
    Exhausted,
    /// No buffer covers the request. A square buffer of this side is to be
    /// allocated and registered.
    Miss(usize),
    /// No buffer can cover the request: its bucket has no side that fits in
    /// `usize`.
    Oversize,
}

/// Pixel data that passed the pool's checks and is ready to be written to
/// the GPU.
#[derive(Debug, PartialEq, Eq)]
pub struct Upload {
    pub texture: TextureHandle,
    pub width: usize,
    pub height: usize,
    pub pixels: Vec<u16>,
}

/// The pool as a mathematical value: the two lists, in order of creation.
pub struct PoolView {
    pub images: Seq<PoolEntry>,
    pub luts: Seq<PoolEntry>,
}

/// `i` is the position of the first entry that covers the size.
pub open spec fn is_first_covering(
    entries: Seq<PoolEntry>,
    width: nat,
    height: nat,
    i: int,
) -> bool {
    &&& 0 <= i < entries.len()
    &&& entries[i].handle.covers(width, height)
    &&& forall|j: int| 0 <= j < i ==> !(#[trigger] entries[j]).handle.covers(width, height)
}

/// The position of the first entry that covers the size, whatever its lease
/// state; `None` when no entry covers it.
pub open spec fn covering_index(entries: Seq<PoolEntry>, width: nat, height: nat) -> Option<int> {
    if exists|i: int| is_first_covering(entries, width, height, i) {
        Some(choose|i: int| is_first_covering(entries, width, height, i))
    } else {
        None
    }
}

/// `i` is the position of the first entry with the identifier.
pub open spec fn is_first_with_id(entries: Seq<PoolEntry>, id: u32, i: int) -> bool {
    &&& 0 <= i < entries.len()
    &&& entries[i].handle.id == id
    &&& forall|j: int| 0 <= j < i ==> (#[trigger] entries[j]).handle.id != id
}

/// The position of the first entry with the identifier; `None` when the list
/// holds no such entry.
pub open spec fn index_of_id(entries: Seq<PoolEntry>, id: u32) -> Option<int> {
    if exists|i: int| is_first_with_id(entries, id, i) {
        Some(choose|i: int| is_first_with_id(entries, id, i))
    } else {
        None
    }
}

/// The entry with its lease state replaced.
pub open spec fn with_lease(entry: PoolEntry, lease: LeaseState) -> PoolEntry {
    PoolEntry { handle: entry.handle, class: entry.class, lease }
}

/// What every entry of the list of `class` satisfies: it belongs to that
/// class and is a square whose side is a power of two.
pub open spec fn entry_wf(entry: PoolEntry, class: TextureType) -> bool {
    &&& entry.class == class
    &&& entry.handle.width == entry.handle.height
    &&& is_pow2(entry.handle.width as int)
}

/// Sides grow strictly along a list.
pub open spec fn sides_grow(entries: Seq<PoolEntry>) -> bool {
    forall|i: int, j: int|
        0 <= i < j < entries.len() ==> (#[trigger] entries[i]).handle.width < (
        #[trigger] entries[j]).handle.width
}

/// No identifier occurs at two positions of a list.
pub open spec fn ids_differ(entries: Seq<PoolEntry>) -> bool {
    forall|i: int, j: int|
        0 <= i < j < entries.len() ==> (#[trigger] entries[i]).handle.id != (
        #[trigger] entries[j]).handle.id
}

impl PoolView {
    /// The pool without any buffer.
    pub open spec fn empty() -> PoolView {
        PoolView { images: Seq::empty(), luts: Seq::empty() }
    }

    /// The list of a class.
    pub open spec fn entries(self, class: TextureType) -> Seq<PoolEntry> {
        match class {
            TextureType::Mono => self.images,
            TextureType::Lut => self.luts,
        }
    }

    /// The pool with the list of a class replaced.
    pub open spec fn with_entries(self, class: TextureType, entries: Seq<PoolEntry>) -> PoolView {
        match class {
            TextureType::Mono => PoolView { images: entries, luts: self.luts },
            TextureType::Lut => PoolView { images: self.images, luts: entries },
        }
    }

    /// Whether the pool holds a buffer with the identifier.
    pub open spec fn holds(self, id: u32) -> bool {
        index_of_id(self.images, id) is Some || index_of_id(self.luts, id) is Some
    }

    /// The entry with the identifier, looked for among the images first.
    pub open spec fn entry_of(self, id: u32) -> Option<PoolEntry> {
        match index_of_id(self.images, id) {
            Some(i) => Some(self.images[i]),
            None => match index_of_id(self.luts, id) {
                Some(i) => Some(self.luts[i]),
                None => None,
            },
        }
    }

    /// Whether the buffer with the identifier is in the pool and leased.
    pub open spec fn leased(self, id: u32) -> bool {
        self.entry_of(id) matches Some(entry) && entry.lease == LeaseState::Leased
    }

    /// The pool's invariant: each list holds entries of its own class only,
    /// every entry is a power-of-two square, sides grow along each list, and
    /// no identifier occurs twice in the whole pool.
    pub open spec fn wf(self) -> bool {
        &&& forall|i: int|
            0 <= i < self.images.len() ==> entry_wf(#[trigger] self.images[i], TextureType::Mono)
        &&& forall|i: int|
            0 <= i < self.luts.len() ==> entry_wf(#[trigger] self.luts[i], TextureType::Lut)
        &&& sides_grow(self.images)
        &&& sides_grow(self.luts)
        &&& ids_differ(self.images)
        &&& ids_differ(self.luts)
        &&& forall|i: int, j: int|
            0 <= i < self.images.len() && 0 <= j < self.luts.len() ==> (
            #[trigger] self.images[i]).handle.id != (#[trigger] self.luts[j]).handle.id
    }

    /// A request to lease a texture of `class` that covers `width` by
    /// `height`: the pool afterwards, and the outcome.
    ///
    /// The first entry of the class that covers the size decides, whatever
    /// its lease state: free, it is leased; leased, the request is refused.
    /// Only when no entry covers the size is a new buffer asked for, of the
    /// bucket of the larger side.
    pub open spec fn acquire(self, class: TextureType, width: nat, height: nat) -> (
        PoolView,
        Acquire,
    ) {
        let entries = self.entries(class);
        match covering_index(entries, width, height) {
            Some(i) => if entries[i].lease == LeaseState::Free {
                (
                    self.with_entries(
                        class,
                        entries.update(i, with_lease(entries[i], LeaseState::Leased)),
                    ),
                    Acquire::Leased(entries[i].handle),
                )
            } else {
                (self, Acquire::Exhausted)
            },
            None => if bucket(larger(width, height)) <= usize::MAX {
                (self, Acquire::Miss(bucket(larger(width, height)) as usize))
            } else {
                (self, Acquire::Oversize)
            },
        }
    }

    /// A freshly allocated buffer with identifier `id` is offered to the
    /// pool for a request of `class` for `width` by `height`: the pool
    /// afterwards and the handle of the new, leased entry, or the error.
    ///
    /// The offer is refused with `CapacityMismatch` when the request has no
    /// bucket, and with `DoubleLease` when an entry of the class covers the
    /// request already or when the identifier is in the pool already.
    pub open spec fn register(self, class: TextureType, width: nat, height: nat, id: u32) -> Result<
        (PoolView, TextureHandle),
        BrokerError,
    > {
        let side = bucket(larger(width, height));
        if side > usize::MAX {
            Err(BrokerError::CapacityMismatch)
        } else if covering_index(self.entries(class), width, height) is Some || self.holds(id) {
            Err(BrokerError::DoubleLease)
        } else {
            let handle = TextureHandle { id, width: side as usize, height: side as usize };
            let entry = PoolEntry { handle, class, lease: LeaseState::Leased };
            Ok((self.with_entries(class, self.entries(class).push(entry)), handle))
        }
    }

    /// The lease of `handle` is given back: the pool afterwards, or the
    /// error.
    ///
    /// The entry is found by the handle's identifier alone. The release is
    /// refused with `ReleaseOfFreeTexture` when the pool holds no such entry
    /// or the entry is free.
    pub open spec fn release(self, handle: TextureHandle) -> Result<PoolView, BrokerError> {
        match index_of_id(self.images, handle.id) {
            Some(i) => if self.images[i].lease == LeaseState::Leased {
                Ok(
                    PoolView {
                        images: self.images.update(i, with_lease(self.images[i], LeaseState::Free)),
                        luts: self.luts,
                    },
                )
            } else {
                Err(BrokerError::ReleaseOfFreeTexture)
            },
            None => match index_of_id(self.luts, handle.id) {
                Some(i) => if self.luts[i].lease == LeaseState::Leased {
                    Ok(
                        PoolView {
                            images: self.images,
                            luts: self.luts.update(i, with_lease(self.luts[i], LeaseState::Free)),
                        },
                    )
                } else {
                    Err(BrokerError::ReleaseOfFreeTexture)
                },
                None => Err(BrokerError::ReleaseOfFreeTexture),
            },
        }
    }
}

/// What `TexturePool::load` returns.
pub open spec fn checked_upload(
    handle: TextureHandle,
    width: usize,
    height: usize,
    data: Vec<u16>,
) -> Result<Upload, BrokerError> {
    if handle.admits(width as nat, height as nat, data@.len()) {
        Ok(Upload { texture: handle, width, height, pixels: data })
    } else {
        Err(BrokerError::CapacityMismatch)
    }
}

/// The first covering entry is the only one that `covering_index` can name.
pub proof fn lemma_covering_index_is(entries: Seq<PoolEntry>, width: nat, height: nat, i: int)
    requires
        is_first_covering(entries, width, height, i),
    ensures
        covering_index(entries, width, height) == Some(i),
{
    let k = choose|k: int| is_first_covering(entries, width, height, k);
    assert(is_first_covering(entries, width, height, k));
    if k < i {
        assert(!entries[k].handle.covers(width, height));
    }
    if i < k {
        assert(!entries[i].handle.covers(width, height));
    }
}

/// Where no entry covers the size, `covering_index` names none.
pub proof fn lemma_covering_index_none(entries: Seq<PoolEntry>, width: nat, height: nat)
    requires
        forall|j: int|
            0 <= j < entries.len() ==> !(#[trigger] entries[j]).handle.covers(width, height),
    ensures
        covering_index(entries, width, height) is None,
{
    if exists|i: int| is_first_covering(entries, width, height, i) {
        let k = choose|k: int| is_first_covering(entries, width, height, k);
        assert(entries[k].handle.covers(width, height));
    }
}

/// Where `covering_index` names none, no entry covers the size.
pub proof fn lemma_uncovered(entries: Seq<PoolEntry>, width: nat, height: nat)
    requires
        covering_index(entries, width, height) is None,
    ensures
        forall|j: int|
            0 <= j < entries.len() ==> !(#[trigger] entries[j]).handle.covers(width, height),
    decreases entries.len(),
{
    assert forall|j: int| 0 <= j < entries.len() implies !(#[trigger] entries[j]).handle.covers(
        width,
        height,
    ) by {
        if entries[j].handle.covers(width, height) {
            lemma_some_first_covering(entries, width, height, j);
        }
    }
}

/// Below any covering entry there is a first one.
proof fn lemma_some_first_covering(entries: Seq<PoolEntry>, width: nat, height: nat, j: int)
    requires
        0 <= j < entries.len(),
        entries[j].handle.covers(width, height),
    ensures
        exists|i: int| is_first_covering(entries, width, height, i),
    decreases j,
{
    if exists|k: int| 0 <= k < j && (#[trigger] entries[k]).handle.covers(width, height) {
        let k = choose|k: int| 0 <= k < j && (#[trigger] entries[k]).handle.covers(width, height);
        lemma_some_first_covering(entries, width, height, k);
    } else {
        assert(is_first_covering(entries, width, height, j));
    }
}

/// The first entry with an identifier is the only one that `index_of_id`
/// can name.
pub proof fn lemma_index_of_id_is(entries: Seq<PoolEntry>, id: u32, i: int)
    requires
        is_first_with_id(entries, id, i),
    ensures
        index_of_id(entries, id) == Some(i),
{
    let k = choose|k: int| is_first_with_id(entries, id, k);
    assert(is_first_with_id(entries, id, k));
    if k < i {
        assert(entries[k].handle.id != id);
    }
    if i < k {
        assert(entries[i].handle.id != id);
    }
}

/// Where no entry has the identifier, `index_of_id` names none.
pub proof fn lemma_index_of_id_none(entries: Seq<PoolEntry>, id: u32)
    requires
        forall|j: int| 0 <= j < entries.len() ==> (#[trigger] entries[j]).handle.id != id,
    ensures
        index_of_id(entries, id) is None,
{
    if exists|i: int| is_first_with_id(entries, id, i) {
        let k = choose|k: int| is_first_with_id(entries, id, k);
        assert(entries[k].handle.id == id);
    }
}

/// Where `index_of_id` names none, no entry has the identifier.
pub proof fn lemma_id_absent(entries: Seq<PoolEntry>, id: u32)
    requires
        index_of_id(entries, id) is None,
    ensures
        forall|j: int| 0 <= j < entries.len() ==> (#[trigger] entries[j]).handle.id != id,
{
    assert forall|j: int| 0 <= j < entries.len() implies (#[trigger] entries[j]).handle.id
        != id by {
        if entries[j].handle.id == id {
            lemma_some_first_with_id(entries, id, j);
        }
    }
}

/// Below any entry with an identifier there is a first one.
proof fn lemma_some_first_with_id(entries: Seq<PoolEntry>, id: u32, j: int)
    requires
        0 <= j < entries.len(),
        entries[j].handle.id == id,
    ensures
        exists|i: int| is_first_with_id(entries, id, i),
    decreases j,
{
    if exists|k: int| 0 <= k < j && (#[trigger] entries[k]).handle.id == id {
        let k = choose|k: int| 0 <= k < j && (#[trigger] entries[k]).handle.id == id;
        lemma_some_first_with_id(entries, id, k);
    } else {
        assert(is_first_with_id(entries, id, j));
    }
}

/// Changing the lease state of an entry changes no answer of
/// `covering_index` and none of `index_of_id`: both look at handles only.
pub proof fn lemma_lease_change_keeps_positions(
    entries: Seq<PoolEntry>,
    i: int,
    lease: LeaseState,
    width: nat,
    height: nat,
    id: u32,
)
    requires
        0 <= i < entries.len(),
    ensures
        covering_index(entries.update(i, with_lease(entries[i], lease)), width, height)
            == covering_index(entries, width, height),
        index_of_id(entries.update(i, with_lease(entries[i], lease)), id) == index_of_id(
            entries,
            id,
        ),
{
    let changed = entries.update(i, with_lease(entries[i], lease));
    assert forall|j: int| 0 <= j < entries.len() implies (#[trigger] changed[j]).handle
        == entries[j].handle by {}
    match covering_index(entries, width, height) {
        Some(k) => {
            assert(is_first_covering(entries, width, height, k));
            assert forall|j: int| 0 <= j < k implies !(#[trigger] changed[j]).handle.covers(
                width,
                height,
            ) by {
                assert(!entries[j].handle.covers(width, height));
            }
            lemma_covering_index_is(changed, width, height, k);
        },
        None => {
            lemma_uncovered(entries, width, height);
            assert forall|j: int| 0 <= j < changed.len() implies !(
            #[trigger] changed[j]).handle.covers(width, height) by {
                assert(!entries[j].handle.covers(width, height));
            }
            lemma_covering_index_none(changed, width, height);
        },
    }
    match index_of_id(entries, id) {
        Some(k) => {
            assert(is_first_with_id(entries, id, k));
            assert forall|j: int| 0 <= j < k implies (#[trigger] changed[j]).handle.id != id by {
                assert(entries[j].handle.id != id);
            }
            lemma_index_of_id_is(changed, id, k);
        },
        None => {
            lemma_id_absent(entries, id);
            assert forall|j: int| 0 <= j < changed.len() implies (#[trigger] changed[j]).handle.id
                != id by {
                assert(entries[j].handle.id != id);
            }
            lemma_index_of_id_none(changed, id);
        },
    }
}

/// The pool's invariant survives every operation.
pub proof fn lemma_operations_keep_invariant(
    pool: PoolView,
    class: TextureType,
    width: nat,
    height: nat,
    id: u32,
    handle: TextureHandle,
)
    requires
        pool.wf(),
    ensures
        PoolView::empty().wf(),
        pool.acquire(class, width, height).0.wf(),
        pool.register(class, width, height, id) matches Ok((after, _)) ==> after.wf(),
        pool.release(handle) matches Ok(after) ==> after.wf(),
{
    if let Ok((after, granted)) = pool.register(class, width, height, id) {
        let entries = pool.entries(class);
        lemma_bucket_is_power(larger(width, height));
        lemma_bucket_covers(larger(width, height));
        lemma_uncovered(entries, width, height);
        lemma_id_absent(pool.images, id);
        lemma_id_absent(pool.luts, id);
        assert forall|j: int| 0 <= j < entries.len() implies (#[trigger] entries[j]).handle.width
            < granted.width by {
            assert(entry_wf(entries[j], class));
            assert(!entries[j].handle.covers(width, height));
        }
    }
}

/// Every operation keeps the entries that were there, in their places, with
/// their handles and classes: a buffer never changes size, class or
/// identifier, and the pool never shrinks.
pub proof fn lemma_entries_persist(
    pool: PoolView,
    class: TextureType,
    width: nat,
    height: nat,
    id: u32,
    handle: TextureHandle,
    of: TextureType,
    i: int,
)
    requires
        0 <= i < pool.entries(of).len(),
    ensures
        ({
            let after = pool.acquire(class, width, height).0;
            &&& i < after.entries(of).len()
            &&& after.entries(of)[i].handle == pool.entries(of)[i].handle
            &&& after.entries(of)[i].class == pool.entries(of)[i].class
        }),
        pool.register(class, width, height, id) matches Ok((after, _)) ==> {
            &&& i < after.entries(of).len()
            &&& after.entries(of)[i] == pool.entries(of)[i]
        },
        pool.release(handle) matches Ok(after) ==> {
            &&& i < after.entries(of).len()
            &&& after.entries(of)[i].handle == pool.entries(of)[i].handle
            &&& after.entries(of)[i].class == pool.entries(of)[i].class
        },
{
}

/// Asking twice gives one lease. When a request was served, by a free buffer
/// or by a buffer that was registered for it, the same request made again
/// before any release is refused as exhausted, and the pool stays as it is:
/// no second buffer of that bucket is asked for.
pub proof fn lemma_repeated_request_is_refused(
    pool: PoolView,
    class: TextureType,
    width: nat,
    height: nat,
    id: u32,
)
    ensures
        pool.acquire(class, width, height).1 is Leased ==> {
            let after = pool.acquire(class, width, height).0;
            after.acquire(class, width, height) == (after, Acquire::Exhausted)
        },
        pool.register(class, width, height, id) matches Ok((after, _)) ==> after.acquire(
            class,
            width,
            height,
        ) == (after, Acquire::Exhausted),
{
    let entries = pool.entries(class);
    if pool.acquire(class, width, height).1 is Leased {
        let i = covering_index(entries, width, height)->0;
        assert(is_first_covering(entries, width, height, i));
        lemma_lease_change_keeps_positions(entries, i, LeaseState::Leased, width, height, id);
    }
    if let Ok((after, granted)) = pool.register(class, width, height, id) {
        lemma_bucket_covers(larger(width, height));
        lemma_uncovered(entries, width, height);
        let grown = after.entries(class);
        assert(grown == entries.push(grown[entries.len() as int]));
        assert forall|j: int| 0 <= j < entries.len() implies !(#[trigger] grown[j]).handle.covers(
            width,
            height,
        ) by {
            assert(!entries[j].handle.covers(width, height));
        }
        lemma_covering_index_is(grown, width, height, entries.len() as int);
    }
}

/// What is handed out covers the request. A texture that a request is
/// served with, leased from the pool or registered for the request, is a
/// square whose side is a power of two and at least the larger of the
/// requested width and height; a registered one has exactly the side of the
/// request's bucket, which is also the side that a miss asks for.
pub proof fn lemma_granted_texture_covers(
    pool: PoolView,
    class: TextureType,
    width: nat,
    height: nat,
    id: u32,
)
    requires
        pool.wf(),
    ensures
        pool.acquire(class, width, height).1 matches Acquire::Leased(handle) ==> {
            &&& is_pow2(handle.width as int)
            &&& is_pow2(handle.height as int)
            &&& handle.width >= larger(width, height)
            &&& handle.height >= larger(width, height)
        },
        pool.acquire(class, width, height).1 matches Acquire::Miss(side) ==> {
            &&& side == bucket(larger(width, height))
            &&& is_pow2(side as int)
            &&& side >= larger(width, height)
        },
        pool.register(class, width, height, id) matches Ok((_, handle)) ==> {
            &&& handle.id == id
            &&& handle.width == bucket(larger(width, height))
            &&& handle.height == handle.width
            &&& is_pow2(handle.width as int)
            &&& handle.width >= larger(width, height)
        },
{
    lemma_bucket_is_power(larger(width, height));
    lemma_bucket_covers(larger(width, height));
    let entries = pool.entries(class);
    if let Some(i) = covering_index(entries, width, height) {
        assert(is_first_covering(entries, width, height, i));
        assert(entry_wf(entries[i], class));
    }
}

/// A release needs a lease. It is accepted exactly when the pool holds the
/// texture and the texture is leased, and its only error is
/// `ReleaseOfFreeTexture`. An accepted release ends the lease, so releasing
/// the same handle once more is refused.
pub proof fn lemma_release_needs_lease(pool: PoolView, handle: TextureHandle)
    ensures
        pool.release(handle) is Ok <==> pool.leased(handle.id),
        !pool.holds(handle.id) ==> pool.release(handle) == Err::<PoolView, BrokerError>(
            BrokerError::ReleaseOfFreeTexture,
        ),
        pool.release(handle) matches Err(error) ==> error == BrokerError::ReleaseOfFreeTexture,
        pool.release(handle) matches Ok(after) ==> {
            &&& !after.leased(handle.id)
            &&& after.holds(handle.id)
            &&& after.release(handle) == Err::<PoolView, BrokerError>(
                BrokerError::ReleaseOfFreeTexture,
            )
        },
{
    if let Ok(after) = pool.release(handle) {
        match index_of_id(pool.images, handle.id) {
            Some(i) => {
                assert(is_first_with_id(pool.images, handle.id, i));
                lemma_lease_change_keeps_positions(
                    pool.images,
                    i,
                    LeaseState::Free,
                    0,
                    0,
                    handle.id,
                );
            },
            None => {
                let i = index_of_id(pool.luts, handle.id)->0;
                assert(is_first_with_id(pool.luts, handle.id, i));
                lemma_lease_change_keeps_positions(
                    pool.luts,
                    i,
                    LeaseState::Free,
                    0,
                    0,
                    handle.id,
                );
            },
        }
    }
}

/// A released texture is used again. When a request was served with a
/// texture and that texture is released, the same request is served with
/// the same texture, and the pool holds as many buffers as before.
pub proof fn lemma_released_texture_is_reused(
    pool: PoolView,
    class: TextureType,
    width: nat,
    height: nat,
    handle: TextureHandle,
)
    requires
        pool.wf(),
        covering_index(pool.entries(class), width, height) matches Some(i) && pool.entries(
            class,
        )[i].handle == handle && pool.entries(class)[i].lease == LeaseState::Leased,
    ensures
        pool.release(handle) matches Ok(freed) && freed.acquire(class, width, height) == (
            pool,
            Acquire::Leased(handle),
        ),
{
    let entries = pool.entries(class);
    let i = covering_index(entries, width, height)->0;
    assert(is_first_covering(entries, width, height, i));
    assert(is_first_with_id(entries, handle.id, i)) by {
        assert forall|j: int| 0 <= j < i implies (#[trigger] entries[j]).handle.id
            != handle.id by {}
    }
    lemma_index_of_id_is(entries, handle.id, i);
    match class {
        TextureType::Mono => {},
        TextureType::Lut => {
            assert forall|j: int| 0 <= j < pool.images.len() implies (
            #[trigger] pool.images[j]).handle.id != handle.id by {
                assert(pool.luts[i].handle.id == handle.id);
            }
            lemma_index_of_id_none(pool.images, handle.id);
        },
    }
    lemma_lease_change_keeps_positions(entries, i, LeaseState::Free, width, height, handle.id);
    let freed = pool.release(handle)->Ok_0;
    let freed_entries = freed.entries(class);
    assert(freed_entries == entries.update(i, with_lease(entries[i], LeaseState::Free)));
    assert(freed_entries.update(i, with_lease(freed_entries[i], LeaseState::Leased)) == entries);
    assert(freed.with_entries(class, entries) == pool);
}

/// Finds the first entry that covers the size.
fn find_covering(entries: &Vec<PoolEntry>, width: usize, height: usize) -> (found: Option<usize>)
    ensures
        match found {
            Some(i) => covering_index(entries@, width as nat, height as nat) == Some(i as int),
            None => covering_index(entries@, width as nat, height as nat) is None,
        },
{
    let mut i: usize = 0;
    while i < entries.len()
        invariant
            i <= entries.len(),
            forall|j: int|
                0 <= j < i ==> !(#[trigger] entries@[j]).handle.covers(width as nat, height as nat),
        decreases entries.len() - i,
    {
        let handle = entries[i].handle;
        if width <= handle.width && height <= handle.height {
            proof {
                lemma_covering_index_is(entries@, width as nat, height as nat, i as int);
            }
            return Some(i);
        }
        i += 1;
    }
    proof {
        lemma_covering_index_none(entries@, width as nat, height as nat);
    }
    None
}

/// Finds the first entry with the identifier.
fn find_id(entries: &Vec<PoolEntry>, id: u32) -> (found: Option<usize>)
    ensures
        match found {
            Some(i) => index_of_id(entries@, id) == Some(i as int),
            None => index_of_id(entries@, id) is None,
        },
{
    let mut i: usize = 0;
    while i < entries.len()
        invariant
            i <= entries.len(),
            forall|j: int| 0 <= j < i ==> (#[trigger] entries@[j]).handle.id != id,
        decreases entries.len() - i,
    {
        if entries[i].handle.id == id {
            proof {
                lemma_index_of_id_is(entries@, id, i as int);
            }
            return Some(i);
        }
        i += 1;
    }
    proof {
        lemma_index_of_id_none(entries@, id);
    }
    None
}

/// The pool of GPU buffers, with the lease state of each.
pub struct TexturePool {
    images: Vec<PoolEntry>,
    luts: Vec<PoolEntry>,
}

impl View for TexturePool {
    type V = PoolView;

    closed spec fn view(&self) -> PoolView {
        PoolView { images: self.images@, luts: self.luts@ }
    }
}

impl TexturePool {
    /// A pool without any buffer.
    pub fn new() -> (pool: Self)
        ensures
            pool@ == PoolView::empty(),
            pool@.wf(),
    {
        TexturePool { images: Vec::new(), luts: Vec::new() }
    }

    /// Asks for the lease of a texture of `class` that covers `width` by
    /// `height`. The pool never waits and never allocates by itself.
    pub fn acquire(&mut self, class: TextureType, width: usize, height: usize) -> (outcome: Acquire)
        requires
            old(self)@.wf(),
        ensures
            (final(self)@, outcome) == old(self)@.acquire(class, width as nat, height as nat),
            final(self)@.wf(),
            outcome matches Acquire::Leased(handle) ==> {
                &&& is_pow2(handle.width as int)
                &&& is_pow2(handle.height as int)
                &&& handle.width >= larger(width as nat, height as nat)
                &&& handle.height >= larger(width as nat, height as nat)
            },
            outcome matches Acquire::Miss(side) ==> {
                &&& is_pow2(side as int)
                &&& side == bucket(larger(width as nat, height as nat))
                &&& side >= larger(width as nat, height as nat)
            },
    {
        proof {
            lemma_granted_texture_covers(self@, class, width as nat, height as nat, 0);
        }
        let found = match class {
            TextureType::Mono => find_covering(&self.images, width, height),
            TextureType::Lut => find_covering(&self.luts, width, height),
        };
        match found {
            Some(i) => {
                let entry = match class {
                    TextureType::Mono => self.images[i],
                    TextureType::Lut => self.luts[i],
                };
                match entry.lease {
                    LeaseState::Free => {
                        let leased = PoolEntry {
                            handle: entry.handle,
                            class: entry.class,
                            lease: LeaseState::Leased,
                        };
                        match class {
                            TextureType::Mono => self.images.set(i, leased),
                            TextureType::Lut => self.luts.set(i, leased),
                        }
                        Acquire::Leased(entry.handle)
                    },
                    LeaseState::Leased => Acquire::Exhausted,
                }
            },
            None => match alloc_size(width, height) {
                Some((side, _)) => Acquire::Miss(side),
                None => Acquire::Oversize,
            },
        }
    }

    /// Takes a freshly allocated buffer into the pool, as a leased entry of
    /// `class`, for the request of `width` by `height` that missed.
    pub fn register(&mut self, class: TextureType, width: usize, height: usize, id: u32) -> (result:
        Result<TextureHandle, BrokerError>)
        requires
            old(self)@.wf(),
        ensures
            match old(self)@.register(class, width as nat, height as nat, id) {
                Ok((pool, handle)) => result == Ok::<TextureHandle, BrokerError>(handle) && final(self)@ == pool,
                Err(error) => result == Err::<TextureHandle, BrokerError>(error) && final(self)@
                    == old(self)@,
            },
            final(self)@.wf(),
            result matches Ok(handle) ==> {
                &&& handle.id == id
                &&& is_pow2(handle.width as int)
                &&& handle.height == handle.width
                &&& handle.width == bucket(larger(width as nat, height as nat))
                &&& handle.width >= larger(width as nat, height as nat)
            },
    {
        proof {
            lemma_granted_texture_covers(self@, class, width as nat, height as nat, id);
        }
        let side = match alloc_size(width, height) {
            Some((side, _)) => side,
            None => {
                return Err(BrokerError::CapacityMismatch);
            },
        };
        let covered = match class {
            TextureType::Mono => find_covering(&self.images, width, height),
            TextureType::Lut => find_covering(&self.luts, width, height),
        };
        if covered.is_some() {
            return Err(BrokerError::DoubleLease);
        }
        if find_id(&self.images, id).is_some() || find_id(&self.luts, id).is_some() {
            return Err(BrokerError::DoubleLease);
        }
        let handle = TextureHandle { id, width: side, height: side };
        let entry = PoolEntry { handle, class, lease: LeaseState::Leased };
        proof {
            let w = width as nat;
            let h = height as nat;
            lemma_bucket_is_power(larger(w, h));
            lemma_bucket_covers(larger(w, h));
            lemma_uncovered(old(self)@.entries(class), w, h);
            lemma_id_absent(self.images@, id);
            lemma_id_absent(self.luts@, id);
            assert forall|j: int| 0 <= j < old(self)@.entries(class).len() implies (
            #[trigger] old(self)@.entries(class)[j]).handle.width < side by {
                let other = old(self)@.entries(class)[j];
                assert(entry_wf(other, class));
                assert(!other.handle.covers(w, h));
            }
        }
        match class {
            TextureType::Mono => self.images.push(entry),
            TextureType::Lut => self.luts.push(entry),
        }
        Ok(handle)
    }

    /// Ends the lease of `handle`; the buffer stays in the pool, free.
    pub fn release(&mut self, handle: TextureHandle) -> (result: Result<(), BrokerError>)
        requires
            old(self)@.wf(),
        ensures
            match old(self)@.release(handle) {
                Ok(pool) => result == Ok::<(), BrokerError>(()) && final(self)@ == pool,
                Err(error) => result == Err::<(), BrokerError>(error) && final(self)@ == old(self)@,
            },
            result is Ok <==> old(self)@.leased(handle.id),
            final(self)@.wf(),
    {
        match find_id(&self.images, handle.id) {
            Some(i) => {
                let entry = self.images[i];
                match entry.lease {
                    LeaseState::Leased => {
                        let freed = PoolEntry {
                            handle: entry.handle,
                            class: entry.class,
                            lease: LeaseState::Free,
                        };
                        self.images.set(i, freed);
                        Ok(())
                    },
                    LeaseState::Free => Err(BrokerError::ReleaseOfFreeTexture),
                }
            },
            None => match find_id(&self.luts, handle.id) {
                Some(i) => {
                    let entry = self.luts[i];
                    match entry.lease {
                        LeaseState::Leased => {
                            let freed = PoolEntry {
                                handle: entry.handle,
                                class: entry.class,
                                lease: LeaseState::Free,
                            };
                            self.luts.set(i, freed);
                            Ok(())
                        },
                        LeaseState::Free => Err(BrokerError::ReleaseOfFreeTexture),
                    }
                },
                None => Err(BrokerError::ReleaseOfFreeTexture),
            },
        }
    }

    /// Checks pixel data against the capacity of the texture it is meant
    /// for. The data is accepted exactly when the region lies within the
    /// handle's capacity and the number of samples is the region's area;
    /// anything else is a `CapacityMismatch`.
    pub fn load(&self, handle: TextureHandle, width: usize, height: usize, data: Vec<u16>) -> (result:
        Result<Upload, BrokerError>)
        ensures
            result == checked_upload(handle, width, height, data),
    {
        if handle.accepts(width, height, data.len()) {
            Ok(Upload { texture: handle, width, height, pixels: data })
        } else {
            Err(BrokerError::CapacityMismatch)
        }
    }

    /// The number of buffers that were ever allocated for a class.
    pub fn allocated(&self, class: TextureType) -> (count: usize)
        ensures
            count == self@.entries(class).len(),
    {
        match class {
            TextureType::Mono => self.images.len(),
            TextureType::Lut => self.luts.len(),
        }
    }

    /// The lease state of the buffer with the identifier, if the pool holds
    /// it.
    pub fn lease_of(&self, id: u32) -> (state: Option<LeaseState>)
        ensures
            state == match self@.entry_of(id) {
                Some(entry) => Some(entry.lease),
                None => None,
            },
    {
        match find_id(&self.images, id) {
            Some(i) => Some(self.images[i].lease),
            None => match find_id(&self.luts, id) {
                Some(i) => Some(self.luts[i].lease),
                None => None,
            },
        }
    }
}

} // verus!
