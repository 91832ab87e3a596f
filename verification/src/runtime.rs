//! The chunk runtime: the per-chunk configuration deciding whether a chunk
//! self-executes (evaluated entries), whether it exports a CommonJS value
//! (exported entry), how it decorates a chunk's identity, and how several
//! such configurations merge when the optimizer coalesces chunks.

use vstd::prelude::*;

use crate::chunk::{clone_placeables, AssetIdent, AssetIdentView, Chunk, ChunkGroup, ChunkGroupView,
    ChunkPlaceable, ChunkView};
use crate::content::EcmascriptBuildNodeChunkContent;
use crate::context::{ChunkingContextView, EcmascriptChunkingContext};
use crate::errors::IncompatibleMergeError;
use crate::text::str_to_string;

verus! {

/// The mathematical value of an [`EcmascriptBuildNodeChunkRuntime`]:
/// evaluated entries and the exported entry are named by their identity
/// strings.
pub struct RuntimeView {
    pub chunking_context: ChunkingContextView,
    pub chunk_group: Option<ChunkGroupView>,
    pub evaluated_entries: Option<Seq<Seq<char>>>,
    pub exported_entry: Option<Seq<char>>,
}

/// Whether a list of identity strings has no duplicates.
pub open spec fn unique_idents(s: Seq<Seq<char>>) -> bool {
    forall|i: int, j: int| 0 <= i < j < s.len() ==> s[i] != s[j]
}

impl RuntimeView {
    /// The evaluated entries, when set, form an ordered set: no identity
    /// occurs twice.
    pub open spec fn wf(self) -> bool {
        match self.evaluated_entries {
            Some(e) => unique_idents(e),
            None => true,
        }
    }
}

/// The runtime configuration of one build-style Node.js chunk. When
/// neither `evaluated_entries` nor `exported_entry` is set, the chunk is a
/// pure module container and never self-executes.
#[derive(Debug)]
pub struct EcmascriptBuildNodeChunkRuntime {
    /// The chunking context that created this runtime.
    pub chunking_context: EcmascriptChunkingContext,
    /// All chunks of this chunk group need to be ready for execution to
    /// start. When absent, a group made of the current chunk alone gates
    /// the runtime.
    pub chunk_group: Option<ChunkGroup>,
    /// The modules instantiated when the chunk's bootstrap runs, in order.
    pub evaluated_entries: Option<Vec<ChunkPlaceable>>,
    /// The module whose value becomes the chunk's CommonJS export.
    pub exported_entry: Option<ChunkPlaceable>,
}

impl View for EcmascriptBuildNodeChunkRuntime {
    type V = RuntimeView;

    open spec fn view(&self) -> RuntimeView {
        RuntimeView {
            chunking_context: self.chunking_context@,
            chunk_group: match self.chunk_group {
                Some(ref g) => Some(g@),
                None => None,
            },
            evaluated_entries: match self.evaluated_entries {
                Some(ref e) => Some(e.deep_view()),
                None => None,
            },
            exported_entry: match self.exported_entry {
                Some(ref p) => Some(p@),
                None => None,
            },
        }
    }
}

impl DeepView for EcmascriptBuildNodeChunkRuntime {
    type V = RuntimeView;

    open spec fn deep_view(&self) -> RuntimeView {
        self.view()
    }
}

/// Appends `b` to `a`, skipping every identity already present: the union
/// of two ordered entry sets, preserving first-seen order.
pub open spec fn dedup_append(a: Seq<Seq<char>>, b: Seq<Seq<char>>) -> Seq<Seq<char>>
    decreases b.len(),
{
    if b.len() == 0 {
        a
    } else {
        let prev = dedup_append(a, b.drop_last());
        if prev.contains(b.last()) {
            prev
        } else {
            prev.push(b.last())
        }
    }
}

/// The union of two optional ordered entry sets: absent and present give
/// present; two present sets are united preserving first-seen order.
pub open spec fn union_evaluated(a: Option<Seq<Seq<char>>>, b: Option<Seq<Seq<char>>>) -> Option<
    Seq<Seq<char>>,
> {
    match b {
        None => a,
        Some(y) => match a {
            None => Some(y),
            Some(x) => Some(dedup_append(x, y)),
        },
    }
}

/// Coalesces one further runtime into an accumulated one: fatal unless
/// both share the chunking context and the chunk group, and unless their
/// exported entries agree whenever both are set.
pub open spec fn merge_step(acc: RuntimeView, other: RuntimeView) -> Result<
    RuntimeView,
    IncompatibleMergeError,
> {
    if acc.chunking_context != other.chunking_context {
        Err(IncompatibleMergeError::DifferentChunkingContexts)
    } else if acc.chunk_group != other.chunk_group {
        Err(IncompatibleMergeError::DifferentChunkGroups)
    } else if acc.exported_entry is Some && other.exported_entry is Some
        && acc.exported_entry != other.exported_entry {
        Err(IncompatibleMergeError::ConflictingExportedEntries)
    } else {
        Ok(
            RuntimeView {
                chunking_context: acc.chunking_context,
                chunk_group: acc.chunk_group,
                evaluated_entries: union_evaluated(acc.evaluated_entries, other.evaluated_entries),
                exported_entry: if acc.exported_entry is Some {
                    acc.exported_entry
                } else {
                    other.exported_entry
                },
            },
        )
    }
}

/// Coalesces a whole list of runtimes into `acc`, left to right, stopping
/// at the first incompatibility.
pub open spec fn merge_all(acc: RuntimeView, others: Seq<RuntimeView>) -> Result<
    RuntimeView,
    IncompatibleMergeError,
>
    decreases others.len(),
{
    if others.len() == 0 {
        Ok(acc)
    } else {
        match merge_step(acc, others[0]) {
            Ok(m) => merge_all(m, others.skip(1)),
            Err(e) => Err(e),
        }
    }
}

/// Whether a list of placeables contains one with the given identity.
fn placeables_contain(v: &Vec<ChunkPlaceable>, x: &ChunkPlaceable) -> (r: bool)
    ensures
        r == v.deep_view().contains(x@),
{
    let mut i: usize = 0;
    while i < v.len()
        invariant
            i <= v.len(),
            forall|j: int| 0 <= j < i ==> v.deep_view()[j] != x@,
        decreases v.len() - i,
    {
        if v[i].ident == x.ident {
            assert(v.deep_view()[i as int] == x@);
            return true;
        }
        i = i + 1;
    }
    assert(!v.deep_view().contains(x@));
    false
}

impl EcmascriptBuildNodeChunkRuntime {
    /// A fresh runtime for the given context: not yet gated by a chunk
    /// group, instantiating `evaluated_entries` and exporting
    /// `exported_entry` when set.
    pub fn new(
        chunking_context: EcmascriptChunkingContext,
        evaluated_entries: Option<Vec<ChunkPlaceable>>,
        exported_entry: Option<ChunkPlaceable>,
    ) -> (r: EcmascriptBuildNodeChunkRuntime)
        requires
            match evaluated_entries {
                Some(e) => unique_idents(e.deep_view()),
                None => true,
            },
        ensures
            r@.chunking_context == chunking_context@,
            r@.chunk_group is None,
            r@.evaluated_entries == match evaluated_entries {
                Some(e) => Some(e.deep_view()),
                None => None::<Seq<Seq<char>>>,
            },
            r@.exported_entry == match exported_entry {
                Some(p) => Some(p@),
                None => None::<Seq<char>>,
            },
            r@.wf(),
    {
        EcmascriptBuildNodeChunkRuntime {
            chunking_context,
            chunk_group: None,
            evaluated_entries,
            exported_entry,
        }
    }

    /// A human-readable description of this runtime flavor.
    pub fn to_string(&self) -> (r: String)
        ensures
            r@ == "Ecmascript Build Runtime"@,
    {
        str_to_string("Ecmascript Build Runtime")
    }

    /// Duplicates the runtime, preserving its value.
    pub fn duplicate(&self) -> (r: EcmascriptBuildNodeChunkRuntime)
        ensures
            r@ == self@,
    {
        EcmascriptBuildNodeChunkRuntime {
            chunking_context: self.chunking_context.duplicate(),
            chunk_group: match &self.chunk_group {
                Some(g) => Some(g.duplicate()),
                None => None,
            },
            evaluated_entries: match &self.evaluated_entries {
                Some(e) => Some(clone_placeables(e)),
                None => None,
            },
            exported_entry: match &self.exported_entry {
                Some(p) => Some(p.duplicate()),
                None => None,
            },
        }
    }

    /// A copy of this runtime gated by the given chunk group; used once
    /// real post-optimization group membership is known.
    pub fn with_chunk_group(&self, chunk_group: ChunkGroup) -> (r: EcmascriptBuildNodeChunkRuntime)
        ensures
            r@.chunking_context == self@.chunking_context,
            r@.chunk_group == Some(chunk_group@),
            r@.evaluated_entries == self@.evaluated_entries,
            r@.exported_entry == self@.exported_entry,
    {
        let mut r = self.duplicate();
        r.chunk_group = Some(chunk_group);
        r
    }

    /// This runtime contributes no additional graph edges: the implicit
    /// dependency of a self-executing chunk on its siblings is resolved by
    /// the content assembler reading the chunk group directly.
    pub fn references(&self, _origin_chunk: &Chunk) -> (r: Vec<AssetIdent>)
        ensures
            r@.len() == 0,
    {
        Vec::new()
    }

    /// The assembled content of `origin_chunk` under this runtime.
    pub fn content(&self, origin_chunk: &Chunk) -> (r: EcmascriptBuildNodeChunkContent)
        ensures
            r@.chunking_context == self@.chunking_context,
            r@.chunk == origin_chunk@,
            r@.chunk_group == self@.chunk_group,
            r@.evaluated_entries == self@.evaluated_entries,
            r@.exported_entry == self@.exported_entry,
    {
        EcmascriptBuildNodeChunkContent::new(
            origin_chunk.duplicate(),
            self.chunking_context.duplicate(),
            match &self.chunk_group {
                Some(g) => Some(g.duplicate()),
                None => None,
            },
            match &self.evaluated_entries {
                Some(e) => Some(clone_placeables(e)),
                None => None,
            },
            match &self.exported_entry {
                Some(p) => Some(p.duplicate()),
                None => None,
            },
        )
    }

    /// Decorates a chunk's base identity so that two byte-identical module
    /// sets under different runtime configurations get distinct
    /// identities: a constant tag for this runtime flavor; the evaluated
    /// entries' identities when the chunk self-executes, together with the
    /// governing group's entry chunk when that differs from the origin
    /// chunk (avoiding a self-reference cycle); and the exported entry's
    /// identity when one is set.
    pub fn decorate_asset_ident(&self, origin_chunk: &Chunk, ident: AssetIdent) -> (r: AssetIdent)
        ensures
            r@.path == ident@.path,
            r@.modifiers == decorated_modifiers(self@, origin_chunk@, ident@),
    {
        let ghost base = ident@;
        let mut ident = ident;
        ident.add_modifier(str_to_string("ecmascript dev chunk"));
        let ghost tagged = base.modifiers.push("ecmascript dev chunk"@);
        if let Some(evaluated_entries) = &self.evaluated_entries {
            let ghost evs = evaluated_entries.deep_view();
            assert(ident@.modifiers =~= tagged + evs.take(0));
            let mut i: usize = 0;
            while i < evaluated_entries.len()
                invariant
                    evaluated_entries.deep_view() == evs,
                    evaluated_entries@.len() == evs.len(),
                    i <= evs.len(),
                    ident@.modifiers == tagged + evs.take(i as int),
                    ident@.path == base.path,
                decreases evaluated_entries.len() - i,
            {
                ident.add_modifier(evaluated_entries[i].ident.clone());
                proof {
                    assert(evaluated_entries@[i as int].deep_view() == evs[i as int]);
                    assert((tagged + evs.take(i as int)).push(evs[i as int]) =~= tagged + evs.take(
                        i + 1 as int,
                    ));
                }
                i = i + 1;
            }
            assert(evs.take(evs.len() as int) =~= evs);
            if let Some(chunk_group) = &self.chunk_group {
                if !(chunk_group.entry == origin_chunk.path) {
                    ident.add_modifier(chunk_group.entry.clone());
                }
            }
        }
        if let Some(exported_entry) = &self.exported_entry {
            ident.add_modifier(exported_entry.ident.clone());
        }
        assert(ident@.modifiers == decorated_modifiers(self@, origin_chunk@, base));
        ident
    }

    /// Coalesces this runtime with `others`, left to right: evaluated
    /// entries are united preserving first-seen order, exported entries
    /// must agree, and all inputs must share this runtime's chunking
    /// context and chunk group.
    pub fn merge(&self, others: &Vec<EcmascriptBuildNodeChunkRuntime>) -> (r: Result<
        EcmascriptBuildNodeChunkRuntime,
        IncompatibleMergeError,
    >)
        requires
            self@.wf(),
            forall|i: int| 0 <= i < others.deep_view().len() ==> others.deep_view()[i].wf(),
        ensures
            (r is Ok) == (merge_all(self@, others.deep_view()) is Ok),
            r matches Ok(m) ==> merge_all(self@, others.deep_view()) == Ok::<
                RuntimeView,
                IncompatibleMergeError,
            >(m@) && m@.wf(),
            r matches Err(e) ==> merge_all(self@, others.deep_view()) == Err::<
                RuntimeView,
                IncompatibleMergeError,
            >(e),
    {
        let ghost vs = others.deep_view();
        let mut has_eval: bool;
        let mut eval_vec: Vec<ChunkPlaceable>;
        match &self.evaluated_entries {
            Some(e) => {
                has_eval = true;
                eval_vec = clone_placeables(e);
            },
            None => {
                has_eval = false;
                eval_vec = Vec::new();
            },
        }
        let mut exported: Option<ChunkPlaceable> = match &self.exported_entry {
            Some(p) => Some(p.duplicate()),
            None => None,
        };
        proof {
            assert(vs.skip(0) =~= vs);
            let acc0 = RuntimeView {
                chunking_context: self@.chunking_context,
                chunk_group: self@.chunk_group,
                evaluated_entries: if has_eval {
                    Some(eval_vec.deep_view())
                } else {
                    None
                },
                exported_entry: match exported {
                    Some(ref p) => Some(p@),
                    None => None,
                },
            };
            assert(acc0 == self@);
        }
        let mut i: usize = 0;
        while i < others.len()
            invariant
                self@.wf(),
                forall|k: int| 0 <= k < vs.len() ==> vs[k].wf(),
                others.deep_view() == vs,
                others@.len() == vs.len(),
                i <= vs.len(),
                unique_idents(eval_vec.deep_view()),
                merge_all(self@, vs) == merge_all(
                    RuntimeView {
                        chunking_context: self@.chunking_context,
                        chunk_group: self@.chunk_group,
                        evaluated_entries: if has_eval {
                            Some(eval_vec.deep_view())
                        } else {
                            None
                        },
                        exported_entry: match exported {
                            Some(ref p) => Some(p@),
                            None => None,
                        },
                    },
                    vs.skip(i as int),
                ),
                !has_eval ==> eval_vec.deep_view().len() == 0,
            decreases others.len() - i,
        {
            let ghost acc = RuntimeView {
                chunking_context: self@.chunking_context,
                chunk_group: self@.chunk_group,
                evaluated_entries: if has_eval {
                    Some(eval_vec.deep_view())
                } else {
                    None
                },
                exported_entry: match exported {
                    Some(ref p) => Some(p@),
                    None => None,
                },
            };
            proof {
                assert(vs.skip(i as int)[0] == vs[i as int]);
                assert(vs.skip(i as int).skip(1) =~= vs.skip(i + 1 as int));
            }
            let other = &others[i];
            assert(other.deep_view() == vs[i as int]);
            if !self.chunking_context.same_context(&other.chunking_context) {
                return Err(IncompatibleMergeError::DifferentChunkingContexts);
            }
            let groups_equal = match (&self.chunk_group, &other.chunk_group) {
                (Some(a), Some(b)) => a.same_group(b),
                (None, None) => true,
                _ => false,
            };
            assert(groups_equal == (acc.chunk_group == vs[i as int].chunk_group));
            if !groups_equal {
                return Err(IncompatibleMergeError::DifferentChunkGroups);
            }
            let exported_conflict = match (&exported, &other.exported_entry) {
                (Some(e), Some(oe)) => !(e.ident == oe.ident),
                _ => false,
            };
            assert(exported_conflict == (acc.exported_entry is Some
                && vs[i as int].exported_entry is Some && acc.exported_entry != vs[
                i as int].exported_entry));
            if exported_conflict {
                return Err(IncompatibleMergeError::ConflictingExportedEntries);
            }
            let ghost merged = merge_step(acc, vs[i as int]);
            assert(merged is Ok);
            match &other.evaluated_entries {
                Some(oe) => {
                    if has_eval {
                        let ghost start = eval_vec.deep_view();
                        let ghost oevs = oe.deep_view();
                        let mut j: usize = 0;
                        while j < oe.len()
                            invariant
                                oe.deep_view() == oevs,
                                oe@.len() == oevs.len(),
                                j <= oevs.len(),
                                unique_idents(start),
                                unique_idents(eval_vec.deep_view()),
                                eval_vec.deep_view() == dedup_append(start, oevs.take(j as int)),
                            decreases oe.len() - j,
                        {
                            proof {
                                assert(oevs.take(j + 1 as int).drop_last() =~= oevs.take(j as int));
                                assert(oevs.take(j + 1 as int).last() == oevs[j as int]);
                            }
                            if !placeables_contain(&eval_vec, &oe[j]) {
                                let ghost before = eval_vec.deep_view();
                                eval_vec.push(oe[j].duplicate());
                                proof {
                                    assert(eval_vec.deep_view() =~= before.push(oevs[j as int]));
                                    assert forall|a: int, b: int|
                                        0 <= a < b < eval_vec.deep_view().len() implies eval_vec.deep_view()[a]
                                        != eval_vec.deep_view()[b] by {
                                        if b == before.len() {
                                            assert(!before.contains(oevs[j as int]));
                                            assert(before[a] != oevs[j as int]);
                                        }
                                    }
                                }
                            }
                            j = j + 1;
                        }
                        assert(oevs.take(oevs.len() as int) =~= oevs);
                    } else {
                        eval_vec = clone_placeables(oe);
                        has_eval = true;
                        assert(vs[i as int].wf());
                    }
                },
                None => {},
            }
            match &other.exported_entry {
                Some(oe) => {
                    if exported.is_none() {
                        exported = Some(oe.duplicate());
                    }
                },
                None => {},
            }
            proof {
                let new_acc = RuntimeView {
                    chunking_context: self@.chunking_context,
                    chunk_group: self@.chunk_group,
                    evaluated_entries: if has_eval {
                        Some(eval_vec.deep_view())
                    } else {
                        None
                    },
                    exported_entry: match exported {
                        Some(ref p) => Some(p@),
                        None => None,
                    },
                };
                assert(merged == Ok::<RuntimeView, IncompatibleMergeError>(new_acc));
            }
            i = i + 1;
        }
        proof {
            assert(vs.skip(vs.len() as int) =~= Seq::<RuntimeView>::empty());
        }
        let result = EcmascriptBuildNodeChunkRuntime {
            chunking_context: self.chunking_context.duplicate(),
            chunk_group: match &self.chunk_group {
                Some(g) => Some(g.duplicate()),
                None => None,
            },
            evaluated_entries: if has_eval {
                Some(eval_vec)
            } else {
                None
            },
            exported_entry: exported,
        };
        Ok(result)
    }
}

/// The evaluated entries a configuration holds, as a set; an absent entry
/// list counts as the empty set.
pub open spec fn eval_entry_set(v: Option<Seq<Seq<char>>>) -> Set<Seq<char>> {
    match v {
        Some(s) => s.to_set(),
        None => Set::<Seq<char>>::empty(),
    }
}

/// The first-seen-order union of two entry lists holds exactly the union
/// of their entries.
pub proof fn lemma_dedup_append_to_set(a: Seq<Seq<char>>, b: Seq<Seq<char>>)
    ensures
        dedup_append(a, b).to_set() == a.to_set().union(b.to_set()),
    decreases b.len(),
{
    broadcast use vstd::seq_lib::group_seq_properties;

    if b.len() == 0 {
        assert(b =~= Seq::<Seq<char>>::empty());
        assert(dedup_append(a, b).to_set() =~= a.to_set().union(b.to_set()));
    } else {
        lemma_dedup_append_to_set(a, b.drop_last());
        assert(b =~= b.drop_last().push(b.last()));
        assert forall|x: Seq<char>|
            b.contains(x) <==> (b.drop_last().contains(x) || x == b.last()) by {
            assert(b.drop_last().push(b.last()).contains(x) <==> (x == b.last()
                || b.drop_last().contains(x)));
        }
        let prev = dedup_append(a, b.drop_last());
        let cur = dedup_append(a, b);
        if prev.contains(b.last()) {
            assert(cur == prev);
        } else {
            assert(cur == prev.push(b.last()));
        }
        assert forall|x: Seq<char>|
            cur.contains(x) <==> (prev.contains(x) || x == b.last()) by {
            assert(prev.push(b.last()).contains(x) <==> (x == b.last() || prev.contains(x)));
        }
        assert forall|x: Seq<char>|
            cur.to_set().contains(x) == a.to_set().union(b.to_set()).contains(x) by {
            assert(cur.to_set().contains(x) == cur.contains(x));
            assert(prev.to_set().contains(x) == prev.contains(x));
            assert(prev.to_set().contains(x) == a.to_set().union(b.drop_last().to_set()).contains(
                x,
            ));
            assert(a.to_set().union(b.drop_last().to_set()).contains(x) == (a.to_set().contains(x)
                || b.drop_last().to_set().contains(x)));
            assert(a.to_set().union(b.to_set()).contains(x) == (a.to_set().contains(x)
                || b.to_set().contains(x)));
            assert(a.to_set().contains(x) == a.contains(x));
            assert(b.to_set().contains(x) == b.contains(x));
            assert(b.drop_last().to_set().contains(x) == b.drop_last().contains(x));
        }
        assert(cur.to_set() =~= a.to_set().union(b.to_set()));
    }
}

/// A successful merge holds exactly the union of both sides' evaluated
/// entries.
pub proof fn lemma_merge_step_evaluated_union(a: RuntimeView, b: RuntimeView)
    ensures
        merge_step(a, b) matches Ok(m) ==> eval_entry_set(m.evaluated_entries) == eval_entry_set(
            a.evaluated_entries,
        ).union(eval_entry_set(b.evaluated_entries)),
{
    broadcast use vstd::seq_lib::group_seq_properties;

    if merge_step(a, b) is Ok {
        match (a.evaluated_entries, b.evaluated_entries) {
            (Some(x), Some(y)) => {
                lemma_dedup_append_to_set(x, y);
            },
            (Some(x), None) => {
                assert(x.to_set() =~= x.to_set().union(Set::<Seq<char>>::empty()));
            },
            (None, Some(y)) => {
                assert(y.to_set() =~= Set::<Seq<char>>::empty().union(y.to_set()));
            },
            (None, None) => {
                assert(Set::<Seq<char>>::empty() =~= Set::<Seq<char>>::empty().union(
                    Set::<Seq<char>>::empty(),
                ));
            },
        }
    }
}

/// Merging is commutative over the evaluated-entry union: swapping the two
/// sides succeeds or fails together, and on success gives the same entry
/// set, the same exported entry, and the same context and group.
pub proof fn lemma_merge_commutative(a: RuntimeView, b: RuntimeView)
    ensures
        (merge_step(a, b) is Ok) == (merge_step(b, a) is Ok),
        merge_step(a, b) is Ok ==> {
            let m1 = merge_step(a, b)->Ok_0;
            let m2 = merge_step(b, a)->Ok_0;
            &&& eval_entry_set(m1.evaluated_entries) == eval_entry_set(m2.evaluated_entries)
            &&& m1.exported_entry == m2.exported_entry
            &&& m1.chunking_context == m2.chunking_context
            &&& m1.chunk_group == m2.chunk_group
        },
{
    if merge_step(a, b) is Ok {
        lemma_merge_step_evaluated_union(a, b);
        lemma_merge_step_evaluated_union(b, a);
        let m1 = merge_step(a, b)->Ok_0;
        let m2 = merge_step(b, a)->Ok_0;
        assert(eval_entry_set(m1.evaluated_entries) =~= eval_entry_set(m2.evaluated_entries));
    }
}

/// Merging `a` with `b`, then with `c`.
pub open spec fn merge_left(a: RuntimeView, b: RuntimeView, c: RuntimeView) -> Result<
    RuntimeView,
    IncompatibleMergeError,
> {
    match merge_step(a, b) {
        Ok(m) => merge_step(m, c),
        Err(e) => Err(e),
    }
}

/// Merging `b` with `c`, then `a` with the result.
pub open spec fn merge_right(a: RuntimeView, b: RuntimeView, c: RuntimeView) -> Result<
    RuntimeView,
    IncompatibleMergeError,
> {
    match merge_step(b, c) {
        Ok(m) => merge_step(a, m),
        Err(e) => Err(e),
    }
}

/// Merging is associative over the evaluated-entry union: either grouping
/// succeeds or fails together, and on success both give the same entry
/// set, the same exported entry, and the same context and group.
pub proof fn lemma_merge_associative(a: RuntimeView, b: RuntimeView, c: RuntimeView)
    ensures
        (merge_left(a, b, c) is Ok) == (merge_right(a, b, c) is Ok),
        merge_left(a, b, c) is Ok ==> {
            let m1 = merge_left(a, b, c)->Ok_0;
            let m2 = merge_right(a, b, c)->Ok_0;
            &&& eval_entry_set(m1.evaluated_entries) == eval_entry_set(m2.evaluated_entries)
            &&& m1.exported_entry == m2.exported_entry
            &&& m1.chunking_context == m2.chunking_context
            &&& m1.chunk_group == m2.chunk_group
        },
{
    if merge_step(a, b) is Ok {
        lemma_merge_step_evaluated_union(a, b);
        let m = merge_step(a, b)->Ok_0;
        if merge_step(m, c) is Ok {
            lemma_merge_step_evaluated_union(m, c);
        }
    }
    if merge_step(b, c) is Ok {
        lemma_merge_step_evaluated_union(b, c);
        let n = merge_step(b, c)->Ok_0;
        if merge_step(a, n) is Ok {
            lemma_merge_step_evaluated_union(a, n);
        }
    }
    if merge_left(a, b, c) is Ok && merge_right(a, b, c) is Ok {
        let m1 = merge_left(a, b, c)->Ok_0;
        let m2 = merge_right(a, b, c)->Ok_0;
        assert(eval_entry_set(m1.evaluated_entries) =~= eval_entry_set(m2.evaluated_entries));
    }
}

/// Whenever both sides export an entry and the entries differ, merging is
/// deterministically fatal — in either order — with the conflicting-export
/// error, provided the contexts and groups agree.
pub proof fn lemma_merge_conflict_fatal(a: RuntimeView, b: RuntimeView)
    requires
        a.chunking_context == b.chunking_context,
        a.chunk_group == b.chunk_group,
        a.exported_entry is Some,
        b.exported_entry is Some,
        a.exported_entry != b.exported_entry,
    ensures
        merge_step(a, b) == Err::<RuntimeView, IncompatibleMergeError>(
            IncompatibleMergeError::ConflictingExportedEntries,
        ),
        merge_step(b, a) == Err::<RuntimeView, IncompatibleMergeError>(
            IncompatibleMergeError::ConflictingExportedEntries,
        ),
{
}

/// The modifier list [`EcmascriptBuildNodeChunkRuntime::decorate_asset_ident`]
/// produces: the base identity's modifiers, the constant runtime tag, then
/// the evaluated entries' identities with the group's entry chunk (when it
/// is not the origin chunk itself), then the exported entry's identity.
pub open spec fn decorated_modifiers(
    rt: RuntimeView,
    origin: ChunkView,
    base: AssetIdentView,
) -> Seq<Seq<char>> {
    let tagged = base.modifiers.push("ecmascript dev chunk"@);
    let evaluated = match rt.evaluated_entries {
        Some(e) => {
            let with_entries = tagged + e;
            match rt.chunk_group {
                Some(g) => if g.entry != origin.path {
                    with_entries.push(g.entry)
                } else {
                    with_entries
                },
                None => with_entries,
            }
        },
        None => tagged,
    };
    match rt.exported_entry {
        Some(x) => evaluated.push(x),
        None => evaluated,
    }
}

} // verus!
