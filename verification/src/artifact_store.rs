//! Keyed get/put model of the external artifact store.
//!
//! The store holds per-circuit stored objects and aggregate artifacts
//! under structured keys, and carries an availability flag so that a
//! temporarily unreachable store can be exercised: every operation on an
//! unavailable store fails with `StageError::StoreUnavailable` and leaves
//! the contents untouched.

use vstd::prelude::*;

use crate::errors::StageError;
use crate::stored_objects::{ClosedFormInputWrapper, ClosedFormInputWrapperView};
use crate::types::{option_view, RecursionTipCircuit, RecursionTipCircuitView};

verus! {

/// Key of one artifact: per-circuit stored objects are keyed by batch and
/// circuit type, the aggregate artifact by batch alone.
#[derive(Clone, Copy, Debug, PartialEq, Eq, Structural)]
pub enum ArtifactKey {
    ClosedFormInput { block_number: u32, circuit_id: u8 },
    RecursionTip { block_number: u32 },
}

/// One stored artifact.
#[derive(Debug, PartialEq, Eq)]
pub enum StoredArtifact {
    ClosedFormInput(ClosedFormInputWrapper),
    RecursionTip(RecursionTipCircuit),
}

/// Mathematical view of a [`StoredArtifact`].
pub enum StoredArtifactView {
    ClosedFormInput(ClosedFormInputWrapperView),
    RecursionTip(RecursionTipCircuitView),
}

impl View for StoredArtifact {
    type V = StoredArtifactView;

    open spec fn view(&self) -> StoredArtifactView {
        match self {
            StoredArtifact::ClosedFormInput(w) => StoredArtifactView::ClosedFormInput(w@),
            StoredArtifact::RecursionTip(c) => StoredArtifactView::RecursionTip(c@),
        }
    }
}

impl StoredArtifact {
    /// Copies the artifact, field for field.
    pub fn duplicate(&self) -> (r: StoredArtifact)
        ensures
            r@ == self@,
    {
        match self {
            StoredArtifact::ClosedFormInput(w) => StoredArtifact::ClosedFormInput(w.duplicate()),
            StoredArtifact::RecursionTip(c) => StoredArtifact::RecursionTip(c.duplicate()),
        }
    }
}

/// The map written by a list of keyed entries, later entries shadowing
/// earlier ones.
pub open spec fn assoc_map(s: Seq<(ArtifactKey, StoredArtifactView)>) -> Map<
    ArtifactKey,
    StoredArtifactView,
>
    decreases s.len(),
{
    if s.len() == 0 {
        Map::empty()
    } else {
        assoc_map(s.drop_last()).insert(s.last().0, s.last().1)
    }
}

proof fn lemma_assoc_map_found(s: Seq<(ArtifactKey, StoredArtifactView)>, i: int)
    requires
        0 <= i < s.len(),
        forall|j: int| i < j < s.len() ==> (#[trigger] s[j]).0 != s[i].0,
    ensures
        assoc_map(s).contains_key(s[i].0),
        assoc_map(s)[s[i].0] == s[i].1,
    decreases s.len(),
{
    if i < s.len() - 1 {
        let t = s.drop_last();
        assert(forall|j: int| i < j < t.len() ==> (#[trigger] t[j]).0 != t[i].0);
        lemma_assoc_map_found(t, i);
        assert(s[s.len() - 1].0 != s[i].0);
    }
}

proof fn lemma_assoc_map_absent(s: Seq<(ArtifactKey, StoredArtifactView)>, k: ArtifactKey)
    requires
        forall|j: int| 0 <= j < s.len() ==> (#[trigger] s[j]).0 != k,
    ensures
        !assoc_map(s).contains_key(k),
    decreases s.len(),
{
    if s.len() > 0 {
        lemma_assoc_map_absent(s.drop_last(), k);
    }
}

/// The per-circuit stored object that the contents hold under the
/// closed-form-input key of `(block_number, circuit_id)`, when they hold
/// one of that kind.
pub open spec fn closed_form_input_at(
    m: Map<ArtifactKey, StoredArtifactView>,
    block_number: u32,
    circuit_id: u8,
) -> Option<ClosedFormInputWrapperView> {
    let k = ArtifactKey::ClosedFormInput { block_number, circuit_id };
    if m.contains_key(k) {
        match m[k] {
            StoredArtifactView::ClosedFormInput(w) => Some(w),
            StoredArtifactView::RecursionTip(_) => None,
        }
    } else {
        None
    }
}

/// The aggregate artifact that the contents hold under the recursion-tip
/// key of `block_number`, when they hold one of that kind.
pub open spec fn recursion_tip_at(
    m: Map<ArtifactKey, StoredArtifactView>,
    block_number: u32,
) -> Option<RecursionTipCircuitView> {
    let k = ArtifactKey::RecursionTip { block_number };
    if m.contains_key(k) {
        match m[k] {
            StoredArtifactView::ClosedFormInput(_) => None,
            StoredArtifactView::RecursionTip(c) => Some(c),
        }
    } else {
        None
    }
}

/// Keyed artifact storage with an availability flag.
pub struct ArtifactStore {
    entries: Vec<(ArtifactKey, StoredArtifact)>,
    available: bool,
}

impl ArtifactStore {
    /// The entries, each with its artifact viewed mathematically.
    spec fn entries_view(self) -> Seq<(ArtifactKey, StoredArtifactView)> {
        self.entries@.map_values(|e: (ArtifactKey, StoredArtifact)| (e.0, e.1@))
    }

    /// What the store holds, as a map from key to artifact view.
    pub closed spec fn contents(self) -> Map<ArtifactKey, StoredArtifactView> {
        assoc_map(self.entries_view())
    }

    /// Whether the store can currently be reached.
    pub closed spec fn is_available(self) -> bool {
        self.available
    }

    /// An empty, reachable store.
    pub fn new() -> (r: ArtifactStore)
        ensures
            r.contents() == Map::<ArtifactKey, StoredArtifactView>::empty(),
            r.is_available(),
    {
        let r = ArtifactStore { entries: Vec::new(), available: true };
        proof {
            assert(r.entries_view() =~= Seq::<(ArtifactKey, StoredArtifactView)>::empty());
        }
        r
    }

    /// Copies the store, entry for entry, keeping its availability.
    pub fn duplicate(&self) -> (r: ArtifactStore)
        ensures
            r.contents() == self.contents(),
            r.is_available() == self.is_available(),
    {
        let mut entries: Vec<(ArtifactKey, StoredArtifact)> = Vec::new();
        let mut i: usize = 0;
        while i < self.entries.len()
            invariant
                i <= self.entries@.len(),
                entries@.len() == i,
                forall|j: int|
                    0 <= j < i ==> (#[trigger] entries@[j]).0 == self.entries@[j].0
                        && entries@[j].1@ == self.entries@[j].1@,
            decreases self.entries@.len() - i,
        {
            entries.push((self.entries[i].0, self.entries[i].1.duplicate()));
            i = i + 1;
        }
        let r = ArtifactStore { entries, available: self.available };
        proof {
            assert(r.entries_view() =~= self.entries_view());
        }
        r
    }

    /// Whether the store can currently be reached.
    pub fn available(&self) -> (b: bool)
        ensures
            b == self.is_available(),
    {
        self.available
    }

    /// Makes the store reachable or unreachable, leaving its contents as
    /// they are.
    pub fn set_available(&mut self, available: bool)
        ensures
            final(self).contents() == old(self).contents(),
            final(self).is_available() == available,
    {
        self.available = available;
    }

    /// Fetches the per-circuit stored object of `(block_number,
    /// circuit_id)`, or reports that none is stored.
    #[verifier::loop_isolation(false)]
    pub fn get_closed_form_input(&self, block_number: u32, circuit_id: u8) -> (r: Result<
        Option<ClosedFormInputWrapper>,
        StageError,
    >)
        ensures
            self.is_available() ==> (r matches Ok(o) && option_view(o) == closed_form_input_at(
                self.contents(),
                block_number,
                circuit_id,
            )),
            !self.is_available() ==> r == Err::<Option<ClosedFormInputWrapper>, StageError>(
                StageError::StoreUnavailable,
            ),
    {
        if !self.available {
            return Err(StageError::StoreUnavailable);
        }
        let key = ArtifactKey::ClosedFormInput { block_number, circuit_id };
        let mut i: usize = self.entries.len();
        while i > 0
            invariant
                i <= self.entries@.len(),
                forall|j: int|
                    i <= j < self.entries@.len() ==> (#[trigger] self.entries@[j]).0 != key,
            decreases i,
        {
            i = i - 1;
            if self.entries[i].0 == key {
                proof {
                    assert(self.entries_view()[i as int].0 == key);
                    assert(forall|j: int|
                        i < j < self.entries_view().len() ==> (#[trigger] self.entries_view()[j]).0
                            != key);
                    lemma_assoc_map_found(self.entries_view(), i as int);
                }
                match &self.entries[i].1 {
                    StoredArtifact::ClosedFormInput(w) => {
                        return Ok(Some(w.duplicate()));
                    },
                    StoredArtifact::RecursionTip(_) => {
                        return Ok(None);
                    },
                }
            }
        }
        proof {
            assert(forall|j: int|
                0 <= j < self.entries_view().len() ==> (#[trigger] self.entries_view()[j]).0
                    != key);
            lemma_assoc_map_absent(self.entries_view(), key);
        }
        Ok(None)
    }

    /// Fetches the aggregate artifact of `block_number`, or reports that
    /// none is stored.
    #[verifier::loop_isolation(false)]
    pub fn get_recursion_tip(&self, block_number: u32) -> (r: Result<
        Option<RecursionTipCircuit>,
        StageError,
    >)
        ensures
            self.is_available() ==> (r matches Ok(o) && option_view(o) == recursion_tip_at(
                self.contents(),
                block_number,
            )),
            !self.is_available() ==> r == Err::<Option<RecursionTipCircuit>, StageError>(
                StageError::StoreUnavailable,
            ),
    {
        if !self.available {
            return Err(StageError::StoreUnavailable);
        }
        let key = ArtifactKey::RecursionTip { block_number };
        let mut i: usize = self.entries.len();
        while i > 0
            invariant
                i <= self.entries@.len(),
                forall|j: int|
                    i <= j < self.entries@.len() ==> (#[trigger] self.entries@[j]).0 != key,
            decreases i,
        {
            i = i - 1;
            if self.entries[i].0 == key {
                proof {
                    assert(self.entries_view()[i as int].0 == key);
                    assert(forall|j: int|
                        i < j < self.entries_view().len() ==> (#[trigger] self.entries_view()[j]).0
                            != key);
                    lemma_assoc_map_found(self.entries_view(), i as int);
                }
                match &self.entries[i].1 {
                    StoredArtifact::ClosedFormInput(_) => {
                        return Ok(None);
                    },
                    StoredArtifact::RecursionTip(c) => {
                        return Ok(Some(c.duplicate()));
                    },
                }
            }
        }
        proof {
            assert(forall|j: int|
                0 <= j < self.entries_view().len() ==> (#[trigger] self.entries_view()[j]).0
                    != key);
            lemma_assoc_map_absent(self.entries_view(), key);
        }
        Ok(None)
    }

    /// Stores the per-circuit stored object of `(block_number,
    /// circuit_id)`, returning the key it was stored under.
    pub fn put_closed_form_input(
        &mut self,
        block_number: u32,
        circuit_id: u8,
        artifact: ClosedFormInputWrapper,
    ) -> (r: Result<ArtifactKey, StageError>)
        ensures
            old(self).is_available() ==> {
                let k = ArtifactKey::ClosedFormInput { block_number, circuit_id };
                &&& r == Ok::<ArtifactKey, StageError>(k)
                &&& final(self).contents() == old(self).contents().insert(
                    k,
                    StoredArtifactView::ClosedFormInput(artifact@),
                )
                &&& final(self).is_available()
            },
            !old(self).is_available() ==> r == Err::<ArtifactKey, StageError>(
                StageError::StoreUnavailable,
            ) && *final(self) == *old(self),
    {
        if !self.available {
            return Err(StageError::StoreUnavailable);
        }
        let key = ArtifactKey::ClosedFormInput { block_number, circuit_id };
        let ghost pre = self.entries_view();
        self.entries.push((key, StoredArtifact::ClosedFormInput(artifact)));
        proof {
            assert(self.entries_view().drop_last() =~= pre);
            assert(self.entries_view().last().0 == key);
        }
        Ok(key)
    }

    /// Stores the aggregate artifact of `block_number`, returning the key
    /// it was stored under.
    pub fn put_recursion_tip(&mut self, block_number: u32, artifact: RecursionTipCircuit) -> (r:
        Result<ArtifactKey, StageError>)
        ensures
            old(self).is_available() ==> {
                let k = ArtifactKey::RecursionTip { block_number };
                &&& r == Ok::<ArtifactKey, StageError>(k)
                &&& final(self).contents() == old(self).contents().insert(
                    k,
                    StoredArtifactView::RecursionTip(artifact@),
                )
                &&& final(self).is_available()
            },
            !old(self).is_available() ==> r == Err::<ArtifactKey, StageError>(
                StageError::StoreUnavailable,
            ) && *final(self) == *old(self),
    {
        if !self.available {
            return Err(StageError::StoreUnavailable);
        }
        let key = ArtifactKey::RecursionTip { block_number };
        let ghost pre = self.entries_view();
        self.entries.push((key, StoredArtifact::RecursionTip(artifact)));
        proof {
            assert(self.entries_view().drop_last() =~= pre);
            assert(self.entries_view().last().0 == key);
        }
        Ok(key)
    }
}

} // verus!
