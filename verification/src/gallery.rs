//! The multi-canvas registry: frames composed into one scene, each holding
//! a canvas variant and a placement offset, keyed by generated identifiers
//! that are never reused.

use vstd::prelude::*;
use crate::geometry::ScreenPos;

verus! {

/// Filters looked-up identifier-canvas pairs: keeps, in order, each
/// identifier that resolved to a canvas, with that canvas.
pub open spec fn present_of<I, V>(entries: Seq<(I, Option<V>)>) -> Seq<(I, V)>
    decreases entries.len(),
{
    if entries.len() == 0 {
        Seq::empty()
    } else {
        let rest = present_of(entries.drop_last());
        match entries.last().1 {
            Some(v) => rest.push((entries.last().0, v)),
            None => rest,
        }
    }
}

/// Read access to a registry of canvases for layers (layout, hit-testing,
/// rendering) that need not know how the registry stores them.
pub trait Gallery: Sized {
    /// Some sort of variant type the client can use to determine how to
    /// render canvases.
    type CanvasVariant;

    /// The identifier canvases are registered under.
    type CanvasID: Copy;

    /// The identifiers of all registered canvases, in the order `all_ids`
    /// hands them out.
    spec fn spec_ids(&self) -> Seq<Self::CanvasID>;

    /// The canvas registered under an identifier, if any.
    spec fn spec_canvas(&self, id: Self::CanvasID) -> Option<Self::CanvasVariant>;

    /// All registered identifiers.
    fn all_ids(&self) -> (r: Vec<Self::CanvasID>)
        ensures
            r@ == self.spec_ids(),
    ;

    /// The canvas registered under the identifier; "not found" for an
    /// identifier that was never issued.
    fn get_canvas<'a>(&'a self, id: Self::CanvasID) -> (r: Option<&'a Self::CanvasVariant>)
        ensures
            match r {
                Some(v) => self.spec_canvas(id) == Some(*v),
                None => self.spec_canvas(id) is None,
            },
    ;

    /// Every registered identifier with the canvas it resolves to, derived
    /// by filtering `all_ids` through `get_canvas`.
    fn get_all_canvases<'a>(&'a self) -> (r: Vec<(Self::CanvasID, &'a Self::CanvasVariant)>)
        ensures
            r@.map_values(|p: (Self::CanvasID, &'a Self::CanvasVariant)| (p.0, *p.1))
                == present_of(
                self.spec_ids().map_values(|id: Self::CanvasID| (id, self.spec_canvas(id))),
            ),
    {
        let ids = self.all_ids();
        let mut r: Vec<(Self::CanvasID, &'a Self::CanvasVariant)> = Vec::new();
        let mut i: usize = 0;
        let ghost lookups = self.spec_ids().map_values(
            |id: Self::CanvasID| (id, self.spec_canvas(id)),
        );
        proof {
            assert(r@.map_values(|p: (Self::CanvasID, &'a Self::CanvasVariant)| (p.0, *p.1))
                =~= present_of(lookups.take(0)));
        }
        while i < ids.len()
            invariant
                i <= ids.len(),
                ids@ == self.spec_ids(),
                lookups == self.spec_ids().map_values(
                    |id: Self::CanvasID| (id, self.spec_canvas(id)),
                ),
                r@.map_values(|p: (Self::CanvasID, &'a Self::CanvasVariant)| (p.0, *p.1))
                    == present_of(lookups.take(i as int)),
            decreases ids.len() - i,
        {
            let id = ids[i];
            match self.get_canvas(id) {
                Some(v) => {
                    r.push((id, v));
                },
                None => {
                },
            }
            proof {
                let f = |p: (Self::CanvasID, &'a Self::CanvasVariant)| (p.0, *p.1);
                assert(lookups.take(i + 1).drop_last() =~= lookups.take(i as int));
                assert(lookups.take(i + 1).last() == lookups[i as int]);
                assert(lookups[i as int] == (ids@[i as int], self.spec_canvas(ids@[i as int])));
                assert(r@.map_values(f) =~= present_of(lookups.take(i + 1)));
            }
            i = i + 1;
        }
        proof {
            assert(lookups.take(lookups.len() as int) =~= lookups);
        }
        r
    }
}

/// An environment that owns the gallery the application loop drives.
pub struct Environment<G> {
    #[allow(dead_code)]
    gallery: G,
}

/// A registered canvas variant together with the screen position its frame
/// is rendered at.
pub struct Frame<V> {
    /// Where the frame is placed on screen.
    pub position: ScreenPos,
    /// The canvas variant the frame renders.
    pub contents: V,
}

/// The frame stored under the identifier, scanning entries in order.
pub open spec fn lookup_frames<V>(s: Seq<(u32, Frame<V>)>, id: u32) -> Option<Frame<V>>
    decreases s.len(),
{
    if s.len() == 0 {
        None
    } else if s[0].0 == id {
        Some(s[0].1)
    } else {
        lookup_frames(s.skip(1), id)
    }
}

/// Scanning may start past any prefix that does not hold the identifier.
proof fn lemma_lookup_skip<V>(s: Seq<(u32, Frame<V>)>, id: u32, i: int)
    requires
        0 <= i <= s.len(),
        forall|j: int| 0 <= j < i ==> (#[trigger] s[j]).0 != id,
    ensures
        lookup_frames(s, id) == lookup_frames(s.skip(i), id),
    decreases i,
{
    if i == 0 {
        assert(s.skip(0) =~= s);
    } else {
        lemma_lookup_skip(s, id, i - 1);
        assert(s.skip(i - 1).skip(1) =~= s.skip(i));
        assert(s.skip(i - 1)[0] == s[i - 1]);
    }
}

/// An identifier that no entry holds is not found.
proof fn lemma_lookup_absent<V>(s: Seq<(u32, Frame<V>)>, id: u32)
    requires
        forall|j: int| 0 <= j < s.len() ==> (#[trigger] s[j]).0 != id,
    ensures
        lookup_frames(s, id) is None,
    decreases s.len(),
{
    if s.len() > 0 {
        assert(forall|j: int|
            0 <= j < s.skip(1).len() ==> (#[trigger] s.skip(1)[j]) == s[j + 1]);
        lemma_lookup_absent(s.skip(1), id);
    }
}

/// How one registration changes the registry: the canvas is stored in a new
/// frame at the zero offset, under the identifier the registry was about to
/// issue, and the next identifier moves past it.
pub open spec fn added<V>(
    pre: FrameRegistry<V>,
    post: FrameRegistry<V>,
    id: u32,
    contents: V,
) -> bool {
    &&& id == pre.spec_next_id()
    &&& post.spec_next_id() == id + 1
    &&& post.spec_entries() == pre.spec_entries().push(
        (id, Frame { position: ScreenPos { x: 0, y: 0 }, contents }),
    )
}

/// Holds frames keyed by a generated numeric identifier. Identifiers count
/// up from one and are never reused within the registry's lifetime;
/// insertion order carries no meaning, the registry is addressed by
/// identifier or by full iteration.
pub struct FrameRegistry<V> {
    id_base: u32,
    frames: Vec<(u32, Frame<V>)>,
}

impl<V> FrameRegistry<V> {
    /// The identifier the next registration will be issued.
    pub closed spec fn spec_next_id(&self) -> u32 {
        self.id_base
    }

    /// The stored entries, oldest first.
    pub closed spec fn spec_entries(&self) -> Seq<(u32, Frame<V>)> {
        self.frames@
    }

    /// Identifiers were issued in increasing order and all precede the next
    /// one to issue.
    pub open spec fn wf(&self) -> bool {
        &&& forall|i: int, j: int|
            0 <= i < j < self.spec_entries().len() ==> (#[trigger] self.spec_entries()[i]).0 < (
            #[trigger] self.spec_entries()[j]).0
        &&& forall|i: int|
            0 <= i < self.spec_entries().len() ==> (#[trigger] self.spec_entries()[i]).0
                < self.spec_next_id()
    }

    /// An empty registry; the first canvas registered gets identifier one.
    pub fn new() -> (g: Self)
        ensures
            g.spec_entries() == Seq::<(u32, Frame<V>)>::empty(),
            g.spec_next_id() == 1,
            g.wf(),
    {
        Self { id_base: 1, frames: Vec::new() }
    }

    /// Issues the next identifier.
    fn pick_id(&mut self) -> (id: u32)
        requires
            old(self).spec_next_id() < u32::MAX,
        ensures
            id == old(self).spec_next_id(),
            final(self).spec_next_id() == id + 1,
            final(self).spec_entries() == old(self).spec_entries(),
    {
        let id = self.id_base;
        self.id_base = self.id_base + 1;
        id
    }

    /// Registers a canvas variant under a fresh identifier and returns the
    /// identifier. The frame starts at the zero screen offset.
    pub fn add(&mut self, contents: V) -> (id: u32)
        requires
            old(self).wf(),
            old(self).spec_next_id() < u32::MAX,
        ensures
            added(*old(self), *final(self), id, contents),
            final(self).wf(),
    {
        let id = self.pick_id();
        self.frames.push((id, Frame { position: ScreenPos { x: 0, y: 0 }, contents }));
        id
    }

    /// The whole frame stored under the identifier: its contents and its
    /// placement.
    pub fn get_frame<'a>(&'a self, id: u32) -> (r: Option<&'a Frame<V>>)
        ensures
            match r {
                Some(f) => lookup_frames(self.spec_entries(), id) == Some(*f),
                None => lookup_frames(self.spec_entries(), id) is None,
            },
    {
        let mut i: usize = 0;
        while i < self.frames.len()
            invariant
                i <= self.frames.len(),
                forall|j: int| 0 <= j < i ==> (#[trigger] self.spec_entries()[j]).0 != id,
            decreases self.frames.len() - i,
        {
            if self.frames[i].0 == id {
                proof {
                    lemma_lookup_skip(self.spec_entries(), id, i as int);
                    assert(self.spec_entries().skip(i as int)[0] == self.spec_entries()[
                        i as int]);
                }
                return Some(&self.frames[i].1);
            }
            i = i + 1;
        }
        proof {
            lemma_lookup_absent(self.spec_entries(), id);
        }
        None
    }

    /// Moves the frame stored under the identifier to a new screen
    /// position; reports whether such a frame exists. Nothing else changes.
    pub fn set_position(&mut self, id: u32, position: ScreenPos) -> (found: bool)
        requires
            old(self).wf(),
        ensures
            found == (lookup_frames(old(self).spec_entries(), id) is Some),
            final(self).spec_next_id() == old(self).spec_next_id(),
            final(self).spec_entries().len() == old(self).spec_entries().len(),
            forall|j: int|
                0 <= j < old(self).spec_entries().len() ==> {
                    let pre = #[trigger] old(self).spec_entries()[j];
                    let post = final(self).spec_entries()[j];
                    &&& pre.0 != id ==> post == pre
                    &&& pre.0 == id ==> post.0 == pre.0 && post.1.contents == pre.1.contents
                        && post.1.position == position
                },
            final(self).wf(),
    {
        let mut i: usize = 0;
        while i < self.frames.len()
            invariant
                i <= self.frames.len(),
                old(self).wf(),
                self.spec_next_id() == old(self).spec_next_id(),
                self.spec_entries().len() == old(self).spec_entries().len(),
                forall|j: int| 0 <= j < i ==> (#[trigger] old(self).spec_entries()[j]).0 != id,
                forall|j: int|
                    0 <= j < self.spec_entries().len() ==> #[trigger] self.spec_entries()[j]
                        == old(self).spec_entries()[j],
            decreases self.frames.len() - i,
        {
            if self.frames[i].0 == id {
                proof {
                    lemma_lookup_skip(old(self).spec_entries(), id, i as int);
                    assert(old(self).spec_entries().skip(i as int)[0] == old(
                        self,
                    ).spec_entries()[i as int]);
                }
                let entry = &mut self.frames[i];
                entry.1.position = position;
                return true;
            }
            i = i + 1;
        }
        proof {
            lemma_lookup_absent(old(self).spec_entries(), id);
        }
        false
    }
}

impl<V> Gallery for FrameRegistry<V> {
    type CanvasVariant = V;

    type CanvasID = u32;

    open spec fn spec_ids(&self) -> Seq<u32> {
        Seq::new(self.spec_entries().len(), |i: int| self.spec_entries()[i].0)
    }

    open spec fn spec_canvas(&self, id: u32) -> Option<V> {
        match lookup_frames(self.spec_entries(), id) {
            Some(f) => Some(f.contents),
            None => None,
        }
    }

    fn all_ids(&self) -> (r: Vec<u32>) {
        let mut r: Vec<u32> = Vec::new();
        let mut i: usize = 0;
        while i < self.frames.len()
            invariant
                i <= self.frames.len(),
                r@.len() == i,
                forall|j: int| 0 <= j < i ==> r@[j] == (#[trigger] self.spec_entries()[j]).0,
            decreases self.frames.len() - i,
        {
            r.push(self.frames[i].0);
            i = i + 1;
        }
        proof {
            assert(r@ =~= self.spec_ids());
        }
        r
    }

    fn get_canvas<'a>(&'a self, id: u32) -> (r: Option<&'a V>) {
        match self.get_frame(id) {
            Some(f) => Some(&f.contents),
            None => None,
        }
    }
}

/// Law: three successive registrations yield three distinct, monotonically
/// increasing identifiers.
pub proof fn lemma_ids_increase<V>(
    g0: FrameRegistry<V>,
    g1: FrameRegistry<V>,
    g2: FrameRegistry<V>,
    g3: FrameRegistry<V>,
    v1: V,
    v2: V,
    v3: V,
    id1: u32,
    id2: u32,
    id3: u32,
)
    requires
        added(g0, g1, id1, v1),
        added(g1, g2, id2, v2),
        added(g2, g3, id3, v3),
    ensures
        id1 < id2 < id3,
{
}

/// Law: an identifier the registry has not issued yet resolves to nothing —
/// looking it up reports "not found" rather than failing.
pub proof fn lemma_unissued_id_not_found<V>(g: FrameRegistry<V>, id: u32)
    requires
        g.wf(),
        id >= g.spec_next_id(),
    ensures
        g.spec_canvas(id) is None,
{
    assert(forall|j: int|
        0 <= j < g.spec_entries().len() ==> (#[trigger] g.spec_entries()[j]).0 != id);
    lemma_lookup_absent(g.spec_entries(), id);
}

} // verus!
