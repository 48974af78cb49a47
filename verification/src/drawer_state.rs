//! The registry of paints and fonts a drawer hands out ids for.
//!
//! The registry is generic in what a paint and a font are (a backend's
//! paint and font objects); it decides which id each gets and where it is
//! kept.

use vstd::prelude::*;
use std::collections::HashMap;

verus! {

broadcast use vstd::std_specs::hash::group_hash_axioms;

/// Identifies a paint: fast paints live until the next frame's clear,
/// static ones until they are removed.
#[derive(PartialEq, Eq, Structural, PartialOrd, Ord, Hash, Clone, Copy, Debug)]
pub struct PaintId {
    pub id: usize,
    pub is_static: bool,
}

/// Identifies a font.
#[derive(PartialEq, Eq, Structural, PartialOrd, Ord, Hash, Clone, Copy, Debug)]
pub struct FontId {
    pub id: usize,
}

/// The font used when none is given for serif text.
pub fn fallback_serif_font() -> (r: FontId)
    ensures
        r.id == 0,
{
    FontId { id: 0 }
}

/// The font used when none is given for monospace text.
pub fn fallback_monospace_font() -> (r: FontId)
    ensures
        r.id == 1,
{
    FontId { id: 1 }
}

/// Why a paint or a font could not be found.
#[derive(Clone, Copy, Debug, PartialEq, Eq, Structural)]
pub enum DrawerError {
    NoPaint(PaintId),
    NoFont(FontId),
}

/// Every key of `m` is below `n`.
pub open spec fn keys_below<V>(m: Map<usize, V>, n: nat) -> bool {
    forall|k: usize| #[trigger] m.contains_key(k) ==> k < n
}

/// The paints and fonts of a drawer, by id.
pub struct DrawerState<P, F> {
    fast_paints: HashMap<usize, P>,
    static_paints: HashMap<usize, P>,
    fonts: HashMap<usize, F>,
    last_fast_paint_id: usize,
    last_static_paint_id: usize,
    last_font_id: usize,
}

impl<P, F> DrawerState<P, F> {
    /// The fast paints, by id.
    pub closed spec fn fast(&self) -> Map<usize, P> {
        self.fast_paints@
    }

    /// The static paints, by key.
    pub closed spec fn statics(&self) -> Map<usize, P> {
        self.static_paints@
    }

    /// The fonts, by id.
    pub closed spec fn font_map(&self) -> Map<usize, F> {
        self.fonts@
    }

    /// How many fast paints were created.
    pub closed spec fn fast_count(&self) -> nat {
        self.last_fast_paint_id as nat
    }

    /// How many static paints were created.
    pub closed spec fn static_count(&self) -> nat {
        self.last_static_paint_id as nat
    }

    /// How many fonts were created.
    pub closed spec fn font_count(&self) -> nat {
        self.last_font_id as nat
    }

    /// Every fast paint and every font has an id below the number created.
    pub open spec fn wf(&self) -> bool {
        &&& keys_below(self.fast(), self.fast_count())
        &&& keys_below(self.font_map(), self.font_count())
    }

    /// The paint `paint` names, if it is kept.
    pub open spec fn paint_of(&self, paint: PaintId) -> Option<P> {
        let m = if paint.is_static { self.statics() } else { self.fast() };
        if m.contains_key(paint.id) {
            Some(m[paint.id])
        } else {
            None
        }
    }

    /// No paints, no fonts.
    pub fn new() -> (r: Self)
        ensures
            r.wf(),
            r.fast() == Map::<usize, P>::empty(),
            r.statics() == Map::<usize, P>::empty(),
            r.font_map() == Map::<usize, F>::empty(),
            r.fast_count() == 0,
            r.static_count() == 0,
            r.font_count() == 0,
    {
        Self {
            fast_paints: HashMap::new(),
            static_paints: HashMap::new(),
            last_fast_paint_id: 0,
            last_static_paint_id: 0,
            fonts: HashMap::new(),
            last_font_id: 0,
        }
    }

    /// Drops the fast paints (done every frame); ids keep counting up.
    pub fn clear(&mut self)
        requires
            old(self).wf(),
        ensures
            final(self).wf(),
            final(self).fast() == Map::<usize, P>::empty(),
            final(self).statics() == old(self).statics(),
            final(self).font_map() == old(self).font_map(),
            final(self).fast_count() == old(self).fast_count(),
            final(self).static_count() == old(self).static_count(),
            final(self).font_count() == old(self).font_count(),
    {
        self.fast_paints.clear();
        assert(keys_below(self.fast(), self.fast_count()));
    }

    /// The paint `paint` names.
    pub fn get_paint(&self, paint: PaintId) -> (r: Result<&P, DrawerError>)
        ensures
            match self.paint_of(paint) {
                Some(p) => r matches Ok(q) && *q == p,
                None => r == Err::<&P, DrawerError>(DrawerError::NoPaint(paint)),
            },
    {
        if paint.is_static {
            match self.static_paints.get(&paint.id) {
                None => Err(DrawerError::NoPaint(paint)),
                Some(p) => Ok(p),
            }
        } else {
            match self.fast_paints.get(&paint.id) {
                None => Err(DrawerError::NoPaint(paint)),
                Some(p) => Ok(p),
            }
        }
    }

    /// Keeps `paint` as a fast paint under a fresh id, which it returns.
    pub fn create_fast_paint(&mut self, paint: P) -> (r: Result<PaintId, DrawerError>)
        requires
            old(self).wf(),
            old(self).fast_count() < usize::MAX,
        ensures
            final(self).wf(),
            r == Ok::<PaintId, DrawerError>(PaintId { id: old(self).fast_count() as usize, is_static: false }),
            !old(self).fast().contains_key(old(self).fast_count() as usize),
            final(self).fast() == old(self).fast().insert(old(self).fast_count() as usize, paint),
            final(self).fast_count() == old(self).fast_count() + 1,
            final(self).statics() == old(self).statics(),
            final(self).static_count() == old(self).static_count(),
            final(self).font_map() == old(self).font_map(),
            final(self).font_count() == old(self).font_count(),
    {
        let _ = self.fast_paints.insert(self.last_fast_paint_id, paint);
        self.last_fast_paint_id = self.last_fast_paint_id + 1;
        assert(keys_below(self.fast(), self.fast_count()));
        Ok(PaintId { id: self.last_fast_paint_id - 1, is_static: false })
    }

    /// Keeps `paint` as a static paint. It is stored under the number of
    /// fast paints created so far, and the id returned carries the number of
    /// static paints created before it: the two agree only while as many
    /// fast as static paints were created.
    pub fn create_static_paint(&mut self, paint: P) -> (r: Result<PaintId, DrawerError>)
        requires
            old(self).wf(),
            old(self).static_count() < usize::MAX,
        ensures
            final(self).wf(),
            r == Ok::<PaintId, DrawerError>(PaintId { id: old(self).static_count() as usize, is_static: true }),
            final(self).statics() == old(self).statics().insert(old(self).fast_count() as usize, paint),
            final(self).static_count() == old(self).static_count() + 1,
            final(self).fast() == old(self).fast(),
            final(self).fast_count() == old(self).fast_count(),
            final(self).font_map() == old(self).font_map(),
            final(self).font_count() == old(self).font_count(),
    {
        let _ = self.static_paints.insert(self.last_fast_paint_id, paint);
        self.last_static_paint_id = self.last_static_paint_id + 1;
        Ok(PaintId { id: self.last_static_paint_id - 1, is_static: true })
    }

    /// Drops the static paint kept under `paint`'s id.
    pub fn remove_static_paint(&mut self, paint: PaintId) -> (r: Result<(), DrawerError>)
        requires
            old(self).wf(),
        ensures
            final(self).wf(),
            r == (if old(self).statics().contains_key(paint.id) {
                Ok::<(), DrawerError>(())
            } else {
                Err(DrawerError::NoPaint(paint))
            }),
            final(self).statics() == old(self).statics().remove(paint.id),
            final(self).static_count() == old(self).static_count(),
            final(self).fast() == old(self).fast(),
            final(self).fast_count() == old(self).fast_count(),
            final(self).font_map() == old(self).font_map(),
            final(self).font_count() == old(self).font_count(),
    {
        match self.static_paints.remove(&paint.id) {
            None => Err(DrawerError::NoPaint(paint)),
            Some(_) => Ok(()),
        }
    }

    /// Keeps `font` under a fresh id, which it returns.
    pub fn create_font(&mut self, font: F) -> (r: Result<FontId, DrawerError>)
        requires
            old(self).wf(),
            old(self).font_count() < usize::MAX,
        ensures
            final(self).wf(),
            r == Ok::<FontId, DrawerError>(FontId { id: old(self).font_count() as usize }),
            !old(self).font_map().contains_key(old(self).font_count() as usize),
            final(self).font_map() == old(self).font_map().insert(old(self).font_count() as usize, font),
            final(self).font_count() == old(self).font_count() + 1,
            final(self).fast() == old(self).fast(),
            final(self).fast_count() == old(self).fast_count(),
            final(self).statics() == old(self).statics(),
            final(self).static_count() == old(self).static_count(),
    {
        let _ = self.fonts.insert(self.last_font_id, font);
        self.last_font_id = self.last_font_id + 1;
        assert(keys_below(self.font_map(), self.font_count()));
        Ok(FontId { id: self.last_font_id - 1 })
    }

    /// Drops the font `font`.
    pub fn remove_font(&mut self, font: FontId) -> (r: Result<(), DrawerError>)
        requires
            old(self).wf(),
        ensures
            final(self).wf(),
            r == (if old(self).font_map().contains_key(font.id) {
                Ok::<(), DrawerError>(())
            } else {
                Err(DrawerError::NoFont(font))
            }),
            final(self).font_map() == old(self).font_map().remove(font.id),
            final(self).font_count() == old(self).font_count(),
            final(self).fast() == old(self).fast(),
            final(self).fast_count() == old(self).fast_count(),
            final(self).statics() == old(self).statics(),
            final(self).static_count() == old(self).static_count(),
    {
        let removed = self.fonts.remove(&font.id);
        assert(keys_below(self.font_map(), self.font_count()));
        match removed {
            None => Err(DrawerError::NoFont(font)),
            Some(_) => Ok(()),
        }
    }

    /// The font `font`.
    pub fn get_font(&self, font: FontId) -> (r: Result<&F, DrawerError>)
        ensures
            self.font_map().contains_key(font.id) ==> (r matches Ok(f) && *f == self.font_map()[font.id]),
            !self.font_map().contains_key(font.id) ==> r == Err::<&F, DrawerError>(DrawerError::NoFont(font)),
    {
        match self.fonts.get(&font.id) {
            None => Err(DrawerError::NoFont(font)),
            Some(f) => Ok(f),
        }
    }
}

/// A paint created fast can be found again by the id it was given, until the
/// next clear; creating it disturbs no other paint.
pub proof fn lemma_fast_paint_found<P, F>(s0: DrawerState<P, F>, s1: DrawerState<P, F>, paint: P, id: PaintId)
    requires
        s0.wf(),
        !s0.fast().contains_key(s0.fast_count() as usize),
        s1.fast() == s0.fast().insert(s0.fast_count() as usize, paint),
        id == (PaintId { id: s0.fast_count() as usize, is_static: false }),
    ensures
        s1.paint_of(id) == Some(paint),
        forall|k: usize| k != id.id && s0.fast().contains_key(k) ==> s1.fast()[k] == s0.fast()[k],
{
}

/// A static paint can be found again by the id it was given exactly when as
/// many fast as static paints had been created before it.
pub proof fn lemma_static_paint_found<P, F>(s0: DrawerState<P, F>, s1: DrawerState<P, F>, paint: P, id: PaintId)
    requires
        s0.fast_count() < usize::MAX,
        s0.static_count() < usize::MAX,
        s1.statics() == s0.statics().insert(s0.fast_count() as usize, paint),
        id == (PaintId { id: s0.static_count() as usize, is_static: true }),
        s0.fast_count() == s0.static_count(),
    ensures
        s1.paint_of(id) == Some(paint),
{
}

/// Fast paint ids are never given twice, not even across a clear: a paint
/// created, then a clear, then another paint created get consecutive ids;
/// the clear forgets the first paint while static paints and fonts stay.
pub proof fn lemma_fast_ids_across_clear<P, F>(
    s0: DrawerState<P, F>,
    s1: DrawerState<P, F>,
    s2: DrawerState<P, F>,
    s3: DrawerState<P, F>,
    p: P,
    q: P,
    a: PaintId,
    b: PaintId,
)
    requires
        s0.fast_count() < usize::MAX,
        a == (PaintId { id: s0.fast_count() as usize, is_static: false }),
        s1.fast() == s0.fast().insert(a.id, p),
        s1.fast_count() == s0.fast_count() + 1,
        s1.statics() == s0.statics(),
        s2.fast() == Map::<usize, P>::empty(),
        s2.fast_count() == s1.fast_count(),
        s2.statics() == s1.statics(),
        s2.font_map() == s1.font_map(),
        s2.fast_count() < usize::MAX,
        b == (PaintId { id: s2.fast_count() as usize, is_static: false }),
        s3.fast() == s2.fast().insert(b.id, q),
    ensures
        b.id == a.id + 1,
        a != b,
        s2.paint_of(a) is None,
        s3.paint_of(a) is None,
        s3.paint_of(b) == Some(q),
        s2.statics() == s0.statics(),
{
}

} // verus!
