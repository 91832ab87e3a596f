//! The data model of output units: chunks with their compiled module
//! entries, chunk groups, asset identities, and module placeables (the
//! modules a runtime may instantiate or export).

use vstd::prelude::*;

use crate::ids::{ModuleId, ModuleIdView};
use crate::text::{clone_str_vec, views_of_strs};

verus! {

/// One compiled module held by a chunk: its id, its factory code, and its
/// own source map when the module pipeline produced one.
#[derive(Debug)]
pub struct ChunkEntry {
    pub id: ModuleId,
    pub code: String,
    pub source_map: Option<String>,
}

/// The mathematical value of a [`ChunkEntry`].
pub struct ChunkEntryView {
    pub id: ModuleIdView,
    pub code: Seq<char>,
    pub source_map: Option<Seq<char>>,
}

impl View for ChunkEntry {
    type V = ChunkEntryView;

    open spec fn view(&self) -> ChunkEntryView {
        ChunkEntryView {
            id: self.id@,
            code: self.code@,
            source_map: match self.source_map {
                Some(ref m) => Some(m@),
                None => None,
            },
        }
    }
}

impl DeepView for ChunkEntry {
    type V = ChunkEntryView;

    open spec fn deep_view(&self) -> ChunkEntryView {
        self.view()
    }
}

/// An output unit: a logical output path and the modules it carries, in
/// the chunk's own content order.
#[derive(Debug)]
pub struct Chunk {
    pub path: String,
    pub entries: Vec<ChunkEntry>,
}

/// The mathematical value of a [`Chunk`].
pub struct ChunkView {
    pub path: Seq<char>,
    pub entries: Seq<ChunkEntryView>,
}

impl View for Chunk {
    type V = ChunkView;

    open spec fn view(&self) -> ChunkView {
        ChunkView { path: self.path@, entries: self.entries.deep_view() }
    }
}

impl ChunkEntry {
    /// Duplicates the entry, preserving its value.
    pub fn duplicate(&self) -> (r: ChunkEntry)
        ensures
            r@ == self@,
    {
        ChunkEntry {
            id: self.id.duplicate(),
            code: self.code.clone(),
            source_map: match &self.source_map {
                Some(m) => Some(m.clone()),
                None => None,
            },
        }
    }
}

impl Chunk {
    /// Duplicates the chunk, preserving its value.
    pub fn duplicate(&self) -> (r: Chunk)
        ensures
            r@ == self@,
    {
        let mut entries: Vec<ChunkEntry> = Vec::new();
        let mut i: usize = 0;
        while i < self.entries.len()
            invariant
                i <= self.entries.len(),
                entries@.len() == i,
                forall|j: int| 0 <= j < i ==> entries@[j]@ == self.entries@[j]@,
            decreases self.entries.len() - i,
        {
            entries.push(self.entries[i].duplicate());
            i = i + 1;
        }
        let r = Chunk { path: self.path.clone(), entries };
        proof {
            assert forall|j: int|
                0 <= j < self.entries@.len() implies r.entries.deep_view()[j]
                == self.entries.deep_view()[j] by {
                assert(r.entries@[j]@ == self.entries@[j]@);
            }
            assert(r.entries.deep_view() =~= self.entries.deep_view());
        }
        r
    }
}

/// The set of chunks that must all load together to satisfy one entry
/// point or one dynamic import, named by their output paths, and the path
/// of the group's entry chunk.
#[derive(Debug)]
pub struct ChunkGroup {
    pub chunks: Vec<String>,
    pub entry: String,
}

/// The mathematical value of a [`ChunkGroup`].
pub struct ChunkGroupView {
    pub chunks: Seq<Seq<char>>,
    pub entry: Seq<char>,
}

impl View for ChunkGroup {
    type V = ChunkGroupView;

    open spec fn view(&self) -> ChunkGroupView {
        ChunkGroupView { chunks: views_of_strs(self.chunks@), entry: self.entry@ }
    }
}

impl ChunkGroup {
    /// The group holding just the given chunk, with that chunk as entry.
    pub fn from_chunk(chunk: &Chunk) -> (r: ChunkGroup)
        ensures
            r@.chunks == seq![chunk@.path],
            r@.entry == chunk@.path,
    {
        let mut chunks: Vec<String> = Vec::new();
        chunks.push(chunk.path.clone());
        let r = ChunkGroup { chunks, entry: chunk.path.clone() };
        assert(r@.chunks =~= seq![chunk@.path]);
        r
    }

    /// Duplicates the group, preserving its value.
    pub fn duplicate(&self) -> (r: ChunkGroup)
        ensures
            r@ == self@,
    {
        ChunkGroup { chunks: clone_str_vec(&self.chunks), entry: self.entry.clone() }
    }

    /// Compares two groups by value.
    pub fn same_group(&self, other: &ChunkGroup) -> (r: bool)
        ensures
            r == (self@ == other@),
    {
        let chunks_eq = crate::text::str_vecs_eq(&self.chunks, &other.chunks);
        let r = chunks_eq && self.entry == other.entry;
        assert(r == (self@ == other@));
        r
    }
}

/// A unique identity for an asset: a path qualified by an ordered list of
/// modifier tags.
#[derive(Debug)]
pub struct AssetIdent {
    pub path: String,
    pub modifiers: Vec<String>,
}

/// The mathematical value of an [`AssetIdent`].
pub struct AssetIdentView {
    pub path: Seq<char>,
    pub modifiers: Seq<Seq<char>>,
}

impl View for AssetIdent {
    type V = AssetIdentView;

    open spec fn view(&self) -> AssetIdentView {
        AssetIdentView { path: self.path@, modifiers: views_of_strs(self.modifiers@) }
    }
}

impl AssetIdent {
    /// An identity with no modifiers.
    pub fn from_path(path: String) -> (r: AssetIdent)
        ensures
            r@.path == path@,
            r@.modifiers == Seq::<Seq<char>>::empty(),
    {
        let r = AssetIdent { path, modifiers: Vec::new() };
        assert(r@.modifiers =~= Seq::<Seq<char>>::empty());
        r
    }

    /// Appends one modifier tag.
    pub fn add_modifier(&mut self, m: String)
        ensures
            final(self)@.path == old(self)@.path,
            final(self)@.modifiers == old(self)@.modifiers.push(m@),
    {
        let ghost before = self@.modifiers;
        let ghost mv = m@;
        self.modifiers.push(m);
        assert(self@.modifiers =~= before.push(mv));
    }

    /// A copy of the identity with one more modifier tag.
    pub fn with_modifier(&self, m: String) -> (r: AssetIdent)
        ensures
            r@.path == self@.path,
            r@.modifiers == self@.modifiers.push(m@),
    {
        let mut r = self.duplicate();
        r.add_modifier(m);
        r
    }

    /// Duplicates the identity, preserving its value.
    pub fn duplicate(&self) -> (r: AssetIdent)
        ensures
            r@ == self@,
    {
        AssetIdent { path: self.path.clone(), modifiers: clone_str_vec(&self.modifiers) }
    }
}

/// A module that a chunk runtime can place: instantiate as an evaluated
/// entry or export as the chunk's CommonJS value. It is named by its
/// identity string.
#[derive(Debug)]
pub struct ChunkPlaceable {
    pub ident: String,
}

impl View for ChunkPlaceable {
    type V = Seq<char>;

    open spec fn view(&self) -> Seq<char> {
        self.ident@
    }
}

impl DeepView for ChunkPlaceable {
    type V = Seq<char>;

    open spec fn deep_view(&self) -> Seq<char> {
        self.ident@
    }
}

impl ChunkPlaceable {
    /// Duplicates the placeable, preserving its identity.
    pub fn duplicate(&self) -> (r: ChunkPlaceable)
        ensures
            r@ == self@,
    {
        ChunkPlaceable { ident: self.ident.clone() }
    }
}

/// Duplicates a list of placeables, preserving identities and order.
pub(crate) fn clone_placeables(v: &Vec<ChunkPlaceable>) -> (r: Vec<ChunkPlaceable>)
    ensures
        r.deep_view() == v.deep_view(),
{
    let mut r: Vec<ChunkPlaceable> = Vec::new();
    let mut i: usize = 0;
    while i < v.len()
        invariant
            i <= v.len(),
            r@.len() == i,
            forall|j: int| 0 <= j < i ==> r@[j]@ == v@[j]@,
        decreases v.len() - i,
    {
        r.push(v[i].duplicate());
        i = i + 1;
    }
    proof {
        assert forall|j: int| 0 <= j < v@.len() implies r.deep_view()[j] == v.deep_view()[j] by {
            assert(r@[j]@ == v@[j]@);
        }
        assert(r.deep_view() =~= v.deep_view());
    }
    r
}

} // verus!
