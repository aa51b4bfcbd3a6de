use crate::descriptor::{PDBType, TypeShape};
use crate::request::TypeRef;
use vstd::prelude::*;

verus! {

/// The types that a session need not create again, each with its reference.
///
/// Descriptions are told apart by `==`, under which an array or a function signature equals
/// nothing. The cache therefore keeps pointers, structures' names and nothing else.
pub struct TypeCache {
    entries: Vec<(PDBType, TypeRef)>,
}

impl TypeCache {
    /// Whether the entry at `i` is the first that is kept for the shape `ty`.
    spec fn first_at(self, i: int, ty: TypeShape) -> bool {
        &&& 0 <= i < self.entries@.len()
        &&& self.entries@[i].0@ == ty
        &&& forall|j: int| 0 <= j < i ==> (#[trigger] self.entries@[j]).0@ != ty
    }

    /// Whether an entry is kept for the shape `ty`.
    spec fn keeps(self, ty: TypeShape) -> bool {
        ty.cacheable() && exists|i: int| self.first_at(i, ty)
    }

    /// The simple type's code, or the reference that the cache holds.
    pub open spec fn spec_lookup(self, ty: TypeShape) -> Option<TypeRef> {
        match ty {
            TypeShape::SimpleType(kind) => Some(TypeRef::Index(kind.spec_code())),
            _ => if self@.contains_key(ty) {
                Some(self@[ty])
            } else {
                None
            },
        }
    }

    /// Makes an empty cache.
    pub fn new() -> (cache: TypeCache)
        ensures
            cache@ == Map::<TypeShape, TypeRef>::empty(),
    {
        let cache = TypeCache { entries: Vec::new() };
        assert(cache@ =~= Map::<TypeShape, TypeRef>::empty());
        cache
    }

    /// One shape has one first entry.
    proof fn lemma_first_is_unique(self, i: int, j: int, ty: TypeShape)
        requires
            self.first_at(i, ty),
            self.first_at(j, ty),
        ensures
            i == j,
    {
        if i < j {
            assert(self.entries@[i].0@ != ty);
        }
        if j < i {
            assert(self.entries@[j].0@ != ty);
        }
    }

    /// What the cache holds for a shape is the reference of the shape's first entry.
    proof fn lemma_view_at(self, i: int, ty: TypeShape)
        requires
            self.first_at(i, ty),
            ty.cacheable(),
        ensures
            self@.contains_key(ty),
            self@[ty] == self.entries@[i].1,
    {
        let c = choose|c: int| self.first_at(c, ty);
        self.lemma_first_is_unique(i, c, ty);
    }

    /// Finds the first entry that is kept for `ty`.
    fn position(&self, ty: &PDBType) -> (found: Option<usize>)
        ensures
            match found {
                Some(i) => self.first_at(i as int, ty@) && ty@.cacheable(),
                None => !self@.contains_key(ty@),
            },
    {
        let mut i: usize = 0;
        while i < self.entries.len()
            invariant
                i <= self.entries.len(),
                ty@.cacheable() ==> forall|j: int|
                    0 <= j < i ==> (#[trigger] self.entries@[j]).0@ != ty@,
            decreases self.entries.len() - i,
        {
            proof {
                self.entries@[i as int].0@.lemma_same_as(ty@);
            }
            if self.entries[i].0 == *ty {
                return Some(i);
            }
            i += 1;
        }
        None
    }

    /// Returns the reference under which `ty` is known: the code of a simple type, without
    /// a look at the entries, and else the reference that the cache holds, if any.
    pub fn lookup(&self, ty: &PDBType) -> (found: Option<TypeRef>)
        ensures
            found == self.spec_lookup(ty@),
    {
        match ty {
            PDBType::SimpleType(kind) => Some(TypeRef::Index(kind.code())),
            _ => match self.position(ty) {
                Some(i) => {
                    proof {
                        self.lemma_view_at(i as int, ty@);
                    }
                    Some(self.entries[i].1)
                },
                None => None,
            },
        }
    }

    /// Records the reference of `ty`, in place of the one that the cache held for it. A
    /// description that equals nothing could never be found again, and is not kept.
    pub fn insert(&mut self, ty: PDBType, index: TypeRef)
        ensures
            final(self)@ == if ty@.cacheable() {
                old(self)@.insert(ty@, index)
            } else {
                old(self)@
            },
    {
        if !ty.is_cacheable() {
            return ;
        }
        let ghost before = *self;
        let ghost shape = ty@;
        let found = self.position(&ty);
        let ghost at: int = match found {
            Some(i) => i as int,
            None => self.entries@.len() as int,
        };
        match found {
            Some(i) => {
                self.entries.set(i, (ty, index));
            },
            None => {
                self.entries.push((ty, index));
            },
        }
        proof {
            assert(self.first_at(at, shape)) by {
                if found is None {
                    assert forall|j: int| 0 <= j < at implies (#[trigger] before.entries@[j]).0@
                        != shape by {
                        if before.entries@[j].0@ == shape {
                            before.lemma_has_first(j, shape);
                        }
                    }
                }
            }
            self.lemma_view_at(at, shape);
            assert forall|k: TypeShape| k != shape implies (self.keeps(k) == before.keeps(k) && (
            self.keeps(k) ==> self@[k] == before@[k])) by {
                if k.cacheable() {
                    if before.keeps(k) {
                        let j = choose|j: int| before.first_at(j, k);
                        assert(self.first_at(j, k));
                        self.lemma_view_at(j, k);
                        before.lemma_view_at(j, k);
                    }
                    if self.keeps(k) {
                        let j = choose|j: int| self.first_at(j, k);
                        assert forall|m: int| 0 <= m < j implies (#[trigger] before.entries@[m]).0@
                            != k by {
                            assert(self.entries@[m].0@ != k);
                        }
                        assert(before.first_at(j, k));
                    }
                }
            }
            assert(self@ =~= before@.insert(shape, index));
        }
    }

    /// Where a shape is kept at all, it has a first entry.
    proof fn lemma_has_first(self, i: int, ty: TypeShape)
        requires
            0 <= i < self.entries@.len(),
            self.entries@[i].0@ == ty,
        ensures
            exists|j: int| self.first_at(j, ty),
        decreases i,
    {
        if exists|j: int| 0 <= j < i && (#[trigger] self.entries@[j]).0@ == ty {
            let j = choose|j: int| 0 <= j < i && (#[trigger] self.entries@[j]).0@ == ty;
            self.lemma_has_first(j, ty);
        } else {
            assert(self.first_at(i, ty));
        }
    }

    /// Fills in the store's answers: every reference that waited for one of them becomes the
    /// index that was issued.
    pub fn settle(&mut self, answers: &[u32])
        ensures
            final(self)@ == old(self)@.map_values(|index: TypeRef| index.spec_settled(answers@)),
    {
        let ghost before = *self;
        let mut i: usize = 0;
        while i < self.entries.len()
            invariant
                i <= self.entries.len(),
                self.entries@.len() == before.entries@.len(),
                forall|j: int|
                    0 <= j < self.entries@.len() ==> (#[trigger] self.entries@[j]).0@
                        == before.entries@[j].0@,
                forall|j: int|
                    0 <= j < i ==> (#[trigger] self.entries@[j]).1
                        == before.entries@[j].1.spec_settled(answers@),
                forall|j: int|
                    i <= j < self.entries@.len() ==> (#[trigger] self.entries@[j]).1
                        == before.entries@[j].1,
            decreases self.entries.len() - i,
        {
            let settled = self.entries[i].1.settled(answers);
            let key = self.entries[i].0.clone();
            self.entries.set(i, (key, settled));
            i += 1;
        }
        proof {
            let target = before@.map_values(|index: TypeRef| index.spec_settled(answers@));
            assert forall|k: TypeShape| self.keeps(k) == before.keeps(k) && (self.keeps(k)
                ==> self@[k] == target[k]) by {
                if before.keeps(k) {
                    let j = choose|j: int| before.first_at(j, k);
                    assert(self.first_at(j, k));
                    self.lemma_view_at(j, k);
                    before.lemma_view_at(j, k);
                }
                if self.keeps(k) {
                    let j = choose|j: int| self.first_at(j, k);
                    assert forall|m: int| 0 <= m < j implies (#[trigger] before.entries@[m]).0@
                        != k by {
                        assert(self.entries@[m].0@ != k);
                    }
                    assert(before.first_at(j, k));
                }
            }
            assert(self@ =~= target);
        }
    }
}

impl View for TypeCache {
    type V = Map<TypeShape, TypeRef>;

    closed spec fn view(&self) -> Map<TypeShape, TypeRef> {
        Map::new(
            |ty: TypeShape| self.keeps(ty),
            |ty: TypeShape| self.entries@[choose|i: int| self.first_at(i, ty)].1,
        )
    }
}

} // verus!
