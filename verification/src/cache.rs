//! The pixmap cache.
//!
//! A resolved background is cached under the target surface, the desktop
//! name, and the geometry it was decoded for, and served from memory on every
//! later request for the same key.  Entries are never evicted and never
//! replaced: the process is driven by one serial event loop, and a run is
//! short enough that the cache only grows.  Only successful resolutions are
//! stored; failures are never recorded, so a missing wallpaper file can be
//! dropped in later and found on the next attempt.

use vstd::prelude::*;

verus! {

/// The value of a cache key: the tuple that uniquely determines one cached
/// background for the lifetime of the process.
pub struct KeyV {
    pub surface: u32,
    pub name: Seq<u8>,
    pub width: u16,
    pub height: u16,
}

/// The key a resolution for desktop `name` on `surface` at `width`x`height`
/// is cached under.
pub open spec fn key_of(surface: u32, name: Seq<u8>, width: u16, height: u16) -> KeyV {
    KeyV { surface, name, width, height }
}

/// One stored resolution: a key and the pixmap that holds its image.
struct Entry {
    surface: u32,
    name: Vec<u8>,
    width: u16,
    height: u16,
    pixmap: u32,
}

impl Entry {
    spec fn key(&self) -> KeyV {
        key_of(self.surface, self.name@, self.width, self.height)
    }
}

/// The map an entry list denotes, later entries taking precedence (the cache
/// never stores a key twice, so precedence never matters).
spec fn entries_map(s: Seq<Entry>) -> Map<KeyV, u32>
    decreases s.len(),
{
    if s.len() == 0 {
        Map::empty()
    } else {
        entries_map(s.drop_last()).insert(s.last().key(), s.last().pixmap)
    }
}

/// No key occurs twice.
spec fn entries_distinct(s: Seq<Entry>) -> bool {
    forall|i: int, j: int| 0 <= i < j < s.len() ==> s[i].key() != s[j].key()
}

/// A key is in the map exactly when some entry carries it.
proof fn lemma_entries_map_domain(s: Seq<Entry>, k: KeyV)
    ensures
        entries_map(s).contains_key(k) <==> exists|i: int| 0 <= i < s.len() && s[i].key() == k,
    decreases s.len(),
{
    if s.len() > 0 {
        lemma_entries_map_domain(s.drop_last(), k);
        if s.last().key() == k {
            assert(s[s.len() - 1].key() == k);
        } else if entries_map(s).contains_key(k) {
            let i = choose|i: int| 0 <= i < s.drop_last().len() && s.drop_last()[i].key() == k;
            assert(s[i].key() == k);
        } else {
            assert(forall|i: int|
                0 <= i < s.drop_last().len() ==> s.drop_last()[i] == s[i]);
        }
    }
}

/// With distinct keys, the map sends each entry's key to its pixmap.
proof fn lemma_entries_map_at(s: Seq<Entry>, i: int)
    requires
        entries_distinct(s),
        0 <= i < s.len(),
    ensures
        entries_map(s).contains_key(s[i].key()),
        entries_map(s)[s[i].key()] == s[i].pixmap,
    decreases s.len(),
{
    if i == s.len() - 1 {
        assert(s.last() == s[i]);
    } else {
        assert(forall|a: int, b: int|
            0 <= a < b < s.drop_last().len() ==> s.drop_last()[a] == s[a] && s.drop_last()[b]
                == s[b]);
        lemma_entries_map_at(s.drop_last(), i);
        assert(s.drop_last()[i] == s[i]);
        assert(s.last().key() != s[i].key());
    }
}

/// Byte-string equality.
fn bytes_eq(a: &Vec<u8>, b: &Vec<u8>) -> (r: bool)
    ensures
        r == (a@ == b@),
{
    if a.len() != b.len() {
        return false;
    }
    let mut i: usize = 0;
    while i < a.len()
        invariant
            i <= a@.len(),
            a@.len() == b@.len(),
            forall|j: int| 0 <= j < i ==> a@[j] == b@[j],
        decreases a@.len() - i,
    {
        if a[i] != b[i] {
            return false;
        }
        i += 1;
    }
    proof {
        assert(a@ =~= b@);
    }
    true
}

/// The decode-and-convert-on-demand cache, keyed by (surface, name, width,
/// height), its value the drawable holding the uploaded image.
pub struct Cache {
    entries: Vec<Entry>,
}

impl View for Cache {
    type V = Map<KeyV, u32>;

    closed spec fn view(&self) -> Map<KeyV, u32> {
        entries_map(self.entries@)
    }
}

impl Cache {
    /// Each key stored at most once.
    pub closed spec fn wf(&self) -> bool {
        entries_distinct(self.entries@)
    }

    /// An empty cache.
    pub fn new() -> (c: Cache)
        ensures
            c.wf(),
            c@ == Map::<KeyV, u32>::empty(),
    {
        Cache { entries: Vec::new() }
    }

    /// Look the key up; no side effect of any kind on the cache.
    pub fn get(&self, surface: u32, name: &Vec<u8>, width: u16, height: u16) -> (r: Option<u32>)
        requires
            self.wf(),
        ensures
            r == (if self@.contains_key(key_of(surface, name@, width, height)) {
                Some(self@[key_of(surface, name@, width, height)])
            } else {
                None::<u32>
            }),
    {
        let ghost k = key_of(surface, name@, width, height);
        let mut i: usize = 0;
        while i < self.entries.len()
            invariant
                self.wf(),
                k == key_of(surface, name@, width, height),
                i <= self.entries@.len(),
                forall|j: int| 0 <= j < i ==> self.entries@[j].key() != k,
            decreases self.entries@.len() - i,
        {
            let e = &self.entries[i];
            if e.surface == surface && e.width == width && e.height == height && bytes_eq(
                &e.name,
                name,
            ) {
                proof {
                    assert(self.entries@[i as int].key() == k);
                    lemma_entries_map_at(self.entries@, i as int);
                }
                return Some(e.pixmap);
            }
            i += 1;
        }
        proof {
            lemma_entries_map_domain(self.entries@, k);
        }
        None
    }

    /// Store a freshly uploaded background under its key.  A key already
    /// present keeps its first image: entries are never replaced (and the
    /// resolver only stores after a miss, so the case does not arise there).
    pub fn store(&mut self, surface: u32, name: Vec<u8>, width: u16, height: u16, pixmap: u32)
        requires
            old(self).wf(),
        ensures
            final(self).wf(),
            final(self)@ == (if old(self)@.contains_key(key_of(surface, name@, width, height)) {
                old(self)@
            } else {
                old(self)@.insert(key_of(surface, name@, width, height), pixmap)
            }),
    {
        let ghost k = key_of(surface, name@, width, height);
        if self.get(surface, &name, width, height).is_some() {
            return;
        }
        proof {
            lemma_entries_map_domain(self.entries@, k);
        }
        let entry = Entry { surface, name, width, height, pixmap };
        self.entries.push(entry);
        proof {
            assert(self.entries@.drop_last() =~= old(self).entries@);
            assert(self.entries@.last().key() == k);
            assert forall|a: int, b: int| 0 <= a < b < self.entries@.len() implies self.entries@[a].key()
                != self.entries@[b].key() by {
                if b < self.entries@.len() - 1 {
                    assert(old(self).entries@[a] == self.entries@[a]);
                    assert(old(self).entries@[b] == self.entries@[b]);
                } else {
                    assert(old(self).entries@[a] == self.entries@[a]);
                }
            }
        }
    }
}

} // verus!
