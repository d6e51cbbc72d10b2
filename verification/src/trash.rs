//! The trash table: inert fixed-size entries under sequential keys, kept only
//! so that reading them has a predictable witness cost.

use vstd::prelude::*;

verus! {

/// The size in bytes of every entry of the trash table.
pub const BLOB_LEN: usize = 1024;

/// The largest number of entries the table is meant to hold. More are
/// accepted, but declared witness costs may then fall short of the real ones.
pub const MAX_ENTRIES: u32 = 65_000;

/// The content of the entry that the initializer writes under `key`: the
/// key's lowest byte, [`BLOB_LEN`] times.
pub open spec fn trash_blob(key: u32) -> Seq<u8> {
    Seq::new(BLOB_LEN as nat, |i: int| (key % 256) as u8)
}

/// A mapping from small sequential integers to blobs of [`BLOB_LEN`] bytes.
///
/// Entries are only ever written by [`TrashTable::initialize`], in key order
/// from zero, and never removed: the keys present are always `0..len`.
pub struct TrashTable {
    blobs: Vec<[u8; 1024]>,
}

impl View for TrashTable {
    type V = Map<u32, Seq<u8>>;

    /// The entries as a map: key `k` is present where `k < len`, and maps to
    /// the bytes stored under it.
    open spec fn view(&self) -> Map<u32, Seq<u8>> {
        Map::new(|k: u32| k < self.entries().len(), |k: u32| self.entries()[k as int])
    }
}

impl TrashTable {
    /// The stored blobs in key order: the blob under key `k` is at index `k`.
    pub closed spec fn entries(self) -> Seq<Seq<u8>> {
        blob_views(self.blobs@)
    }

    /// Whether every key of the table is a `u32`. Every table that executable
    /// code holds is so.
    #[verifier::type_invariant]
    pub open spec fn wf(self) -> bool {
        self.entries().len() <= 0x1_0000_0000
    }

    /// The number of entries.
    pub open spec fn spec_len(self) -> nat {
        self.entries().len()
    }

    /// An empty table.
    pub fn new() -> (table: TrashTable)
        ensures
            table.entries() == Seq::<Seq<u8>>::empty(),
            table@ == Map::<u32, Seq<u8>>::empty(),
    {
        let table = TrashTable { blobs: Vec::new() };
        assert(table.entries() =~= Seq::<Seq<u8>>::empty());
        assert(table@ =~= Map::<u32, Seq<u8>>::empty());
        table
    }

    /// The number of entries.
    pub fn len(&self) -> (n: usize)
        ensures
            n == self.spec_len(),
            n <= 0x1_0000_0000,
    {
        proof {
            use_type_invariant(self);
        }
        self.blobs.len()
    }

    /// Whether the table has no entry.
    pub fn is_empty(&self) -> (b: bool)
        ensures
            b == (self.spec_len() == 0),
    {
        self.blobs.len() == 0
    }

    /// Whether an entry is stored under `key`.
    pub fn contains_key(&self, key: u32) -> (b: bool)
        ensures
            b == self@.contains_key(key),
            b == (key < self.spec_len()),
    {
        (key as usize) < self.blobs.len()
    }

    /// The entry stored under `key`, if there is one.
    pub fn get(&self, key: u32) -> (r: Option<&[u8; 1024]>)
        ensures
            r is Some == self@.contains_key(key),
            r matches Some(blob) ==> blob@ == self@[key],
    {
        if (key as usize) < self.blobs.len() {
            Some(&self.blobs[key as usize])
        } else {
            None
        }
    }

    /// Writes the entries under keys `0..count`, each with its
    /// [`trash_blob`]. Entries that are there already are overwritten;
    /// entries under other keys stay as they are, and none is removed.
    pub fn initialize(&mut self, count: u32)
        ensures
            final(self)@ == initialized(old(self)@, count),
            final(self).spec_len() == grown_len(old(self).spec_len(), count),
    {
        proof {
            use_type_invariant(&*self);
        }
        let ghost before = self.entries();
        let mut blobs: Vec<[u8; 1024]> = Vec::new();
        core::mem::swap(&mut self.blobs, &mut blobs);
        assert(blob_views(blobs@) =~= before);
        let mut key: u32 = 0;
        while key < count
            invariant
                key <= count,
                before.len() <= 0x1_0000_0000,
                blobs@.len() == if before.len() >= key {
                    before.len()
                } else {
                    key as nat
                },
                forall|i: int|
                    0 <= i < blobs@.len() ==> #[trigger] blobs@[i]@ == if i < key {
                        trash_blob(i as u32)
                    } else {
                        before[i]
                    },
            decreases count - key,
        {
            let fill: u8 = (key % 256) as u8;
            let blob: [u8; 1024] = [fill; 1024];
            assert(blob@ =~= trash_blob(key));
            if (key as usize) < blobs.len() {
                blobs.set(key as usize, blob);
            } else {
                blobs.push(blob);
            }
            key = key + 1;
        }
        self.blobs = blobs;
        assert(self@ =~= initialized(old(self)@, count));
    }
}

/// The number of entries after the initializer has run with `count` on a
/// table of `len` entries: the larger of the two.
pub open spec fn grown_len(len: nat, count: u32) -> nat {
    if len >= count {
        len
    } else {
        count as nat
    }
}

/// The table after the initializer has run with `count` on a table that held
/// `before`: keys below `count` hold their [`trash_blob`], and every other
/// key holds what it held before, if anything.
pub open spec fn initialized(before: Map<u32, Seq<u8>>, count: u32) -> Map<u32, Seq<u8>> {
    Map::new(
        |k: u32| k < count || before.contains_key(k),
        |k: u32|
            if k < count {
                trash_blob(k)
            } else {
                before[k]
            },
    )
}

/// The byte strings that a vector of blobs holds, in order.
pub open spec fn blob_views(blobs: Seq<[u8; 1024]>) -> Seq<Seq<u8>> {
    Seq::new(blobs.len(), |i: int| blobs[i]@)
}

} // verus!
