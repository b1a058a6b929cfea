//! Resolution of a desktop name to a ready-to-draw background.
//!
//! `resolve` answers from the cache when it can; otherwise it builds the
//! wallpaper file path from the managed directory, the desktop name and the
//! requested geometry, and asks the decoder.  A successful decode is accepted
//! only at exactly the requested size (no scaling).  Resolution itself never
//! writes the cache — in particular a failure leaves no trace, so the next
//! request for the same key decodes afresh; the caller stores the pixmap with
//! `store` once the image has been uploaded.

use vstd::prelude::*;

use crate::cache::{key_of, Cache, KeyV};
use crate::decode::{decode_file, decoded_wf, DecodedImage, DecodedImageV};
use crate::path::wallpaper_path;

verus! {

/// The outcome of one resolution request.
pub enum Resolution {
    /// Cache hit: this pixmap already holds the image; apply it directly.
    Cached(u32),
    /// Fresh decode at the requested size: upload the image, `store` the
    /// pixmap it went to, then apply it.
    Decoded(DecodedImage),
    /// No usable wallpaper at the moment; leave the background as it is.
    NoImage,
}

/// The mathematical value of an outcome.
pub enum ResolutionV {
    Cached(u32),
    Decoded(DecodedImageV),
    NoImage,
}

impl View for Resolution {
    type V = ResolutionV;

    open spec fn view(&self) -> ResolutionV {
        match self {
            Resolution::Cached(p) => ResolutionV::Cached(*p),
            Resolution::Decoded(img) => ResolutionV::Decoded(img@),
            Resolution::NoImage => ResolutionV::NoImage,
        }
    }
}

/// A decode attempt's outcome is either a failure or a well-formed image.
pub open spec fn decode_outcome_ok(d: Option<DecodedImageV>) -> bool {
    d matches Some(img) ==> decoded_wf(img)
}

/// The value of a decode attempt's outcome.
pub open spec fn outcome_view(d: Option<DecodedImage>) -> Option<DecodedImageV> {
    match d {
        Some(img) => Some(img@),
        None => None,
    }
}

/// What a cache miss resolves to, given the outcome of the decode attempt:
/// a fresh image is accepted only at exactly the requested size (no
/// scaling), anything else yields no image.
pub open spec fn miss_outcome(d: Option<DecodedImageV>, width: u16, height: u16) -> ResolutionV {
    match d {
        Some(img) => if img.width == width as u32 && img.height == height as u32 {
            ResolutionV::Decoded(img)
        } else {
            ResolutionV::NoImage
        },
        None => ResolutionV::NoImage,
    }
}

/// What one resolution yields, as a function of the cache contents, the key,
/// and the outcome of the decode attempt made on a miss: a hit serves the
/// cached pixmap and consults no decoder, a miss is judged by `miss_outcome`.
pub open spec fn resolve_model(
    cache: Map<KeyV, u32>,
    key: KeyV,
    d: Option<DecodedImageV>,
) -> ResolutionV {
    if cache.contains_key(key) {
        ResolutionV::Cached(cache[key])
    } else {
        miss_outcome(d, key.width, key.height)
    }
}

/// Judge a decode attempt against the geometry the resolution ran with: for
/// every possible outcome `d`, the result is exactly `miss_outcome`.
pub fn screen_decoded(d: Option<DecodedImage>, width: u16, height: u16) -> (r: Resolution)
    ensures
        r@ == miss_outcome(outcome_view(d), width, height),
{
    match d {
        Some(img) => {
            if img.width == width as u32 && img.height == height as u32 {
                Resolution::Decoded(img)
            } else {
                Resolution::NoImage
            }
        },
        None => Resolution::NoImage,
    }
}

/// The resolver: the managed wallpaper directory and the pixmap cache.
pub struct Resolver {
    dir: Vec<u8>,
    cache: Cache,
}

impl Resolver {
    /// The cache's own invariant holds.
    pub closed spec fn wf(&self) -> bool {
        self.cache.wf()
    }

    /// The managed wallpaper directory.
    pub closed spec fn dir_spec(&self) -> Seq<u8> {
        self.dir@
    }

    /// The cached resolutions.
    pub closed spec fn cache_spec(&self) -> Map<KeyV, u32> {
        self.cache@
    }

    /// A fresh resolver over `dir`, with an empty cache.
    pub fn new(dir: Vec<u8>) -> (r: Resolver)
        ensures
            r.wf(),
            r.dir_spec() == dir@,
            r.cache_spec() == Map::<KeyV, u32>::empty(),
    {
        Resolver { dir, cache: Cache::new() }
    }

    /// Resolve `name` on `surface` at `width`x`height`.  Takes `&self`: a
    /// resolution writes nothing, whichever way it ends — the caller stores
    /// an uploaded image afterwards.  The result is `resolve_model` for the
    /// cache as it stands and for the decode attempt this call made, if any.
    pub fn resolve(&self, surface: u32, name: &Vec<u8>, width: u16, height: u16) -> (r: Resolution)
        requires
            self.wf(),
        ensures
            exists|d: Option<DecodedImageV>|
                #![auto]
                decode_outcome_ok(d) && r@ == resolve_model(
                    self.cache_spec(),
                    key_of(surface, name@, width, height),
                    d,
                ),
            self.cache_spec().contains_key(key_of(surface, name@, width, height)) ==> r@
                == ResolutionV::Cached(self.cache_spec()[key_of(surface, name@, width, height)]),
            !self.cache_spec().contains_key(key_of(surface, name@, width, height)) ==> !(r@
                is Cached),
            r@ matches ResolutionV::Decoded(img) ==> img.width == width as u32 && img.height
                == height as u32 && decoded_wf(img),
    {
        let ghost key = key_of(surface, name@, width, height);
        if let Some(pixmap) = self.cache.get(surface, name, width, height) {
            proof {
                assert(decode_outcome_ok(None::<DecodedImageV>) && Resolution::Cached(pixmap)@
                    == resolve_model(self.cache_spec(), key, None::<DecodedImageV>));
            }
            return Resolution::Cached(pixmap);
        }
        let path = wallpaper_path(&self.dir, name, width, height);
        let attempt = decode_file(&path);
        let ghost d = outcome_view(attempt);
        let r = screen_decoded(attempt, width, height);
        proof {
            assert(decode_outcome_ok(d) && r@ == resolve_model(self.cache_spec(), key, d));
        }
        r
    }

    /// Record that the image decoded for this key now lives in `pixmap`.
    /// A key already present keeps its first pixmap.
    pub fn store(&mut self, surface: u32, name: Vec<u8>, width: u16, height: u16, pixmap: u32)
        requires
            old(self).wf(),
        ensures
            final(self).wf(),
            final(self).dir_spec() == old(self).dir_spec(),
            final(self).cache_spec() == (if old(self).cache_spec().contains_key(
                key_of(surface, name@, width, height),
            ) {
                old(self).cache_spec()
            } else {
                old(self).cache_spec().insert(key_of(surface, name@, width, height), pixmap)
            }),
    {
        self.cache.store(surface, name, width, height, pixmap);
    }
}

/// Cache idempotence.  For a key the cache holds, resolution returns the
/// cached handle and its outcome does not depend on any decode attempt: two
/// consecutive resolutions of the same key with no intervening store return
/// the identical handle, and the decoder need not be consulted for either.
pub proof fn lemma_cache_idempotence(
    cache: Map<KeyV, u32>,
    key: KeyV,
    d1: Option<DecodedImageV>,
    d2: Option<DecodedImageV>,
)
    requires
        cache.contains_key(key),
    ensures
        resolve_model(cache, key, d1) == ResolutionV::Cached(cache[key]),
        resolve_model(cache, key, d1) == resolve_model(cache, key, d2),
{
}

/// Once an image has been uploaded and stored for a key that missed, the very
/// next resolution of that key serves the stored handle.
pub proof fn lemma_store_then_resolve(
    cache: Map<KeyV, u32>,
    key: KeyV,
    pixmap: u32,
    d: Option<DecodedImageV>,
)
    ensures
        resolve_model(cache.insert(key, pixmap), key, d) == ResolutionV::Cached(pixmap),
{
}

/// Miss-is-not-cached.  A failed decode resolves to no image, and since
/// resolution never writes the cache, a second resolution for the same key
/// consults the decoder afresh: its outcome is decided by the new attempt
/// alone, not by the earlier failure — there is no negative cache.
pub proof fn lemma_miss_not_cached(cache: Map<KeyV, u32>, key: KeyV, d2: Option<DecodedImageV>)
    requires
        !cache.contains_key(key),
    ensures
        resolve_model(cache, key, None) == ResolutionV::NoImage,
        resolve_model(cache, key, d2) == miss_outcome(d2, key.width, key.height),
{
}

} // verus!
