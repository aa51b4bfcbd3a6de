use crate::descriptor::{FieldShape, TypeShape};
use crate::model::{SessionState, Step};
use crate::names::has_nul;
use crate::pdb_meta::CallingConvention;
use crate::request::{RequestView, TypeRef};
use vstd::prelude::*;

verus! {

/// What resolving leaves behind, whatever the outcome: the session has only asked for more
/// and learned more, and it is still well formed if its queue can still be numbered.
pub open spec fn sound<T>(before: SessionState, step: Step<T>) -> bool {
    &&& step.state.extends(before)
    &&& before.wf() && step.state.requests.len() <= usize::MAX ==> step.state.wf()
}

/// What resolving one type leaves behind: besides [`sound`], the reference that comes out
/// can be used, and a type that can be found again is found from now on, under that
/// reference.
pub open spec fn resolved(before: SessionState, ty: TypeShape, step: Step<TypeRef>) -> bool {
    &&& sound(before, step)
    &&& step.outcome matches Ok(index) ==> {
        &&& before.wf() && step.state.requests.len() <= usize::MAX ==> step.state.issued(index)
        &&& ty.cacheable() ==> step.state.lookup(ty) == Some(index)
    }
}

impl SessionState {
    /// A session that gets one more request, over references that can be used, stays well
    /// formed.
    pub proof fn lemma_emit(self, request: RequestView)
        requires
            self.wf(),
            self.requests.len() < usize::MAX,
            forall|j: int|
                0 <= j < request.operands().len() ==> self.issued(#[trigger] request.operands()[j]),
        ensures
            self.emit(request).wf(),
            self.emit(request).extends(self),
            request.yields_index() ==> self.emit(request).issued(self.next()),
    {
        let after = self.emit(request);
        assert forall|ty: TypeShape| #[trigger] after.cache.contains_key(ty) implies ty.cacheable()
            && after.issued(after.cache[ty]) by {
            assert(self.cache.contains_key(ty));
            assert(self.issued(self.cache[ty]));
        }
        assert forall|to: TypeShape| #[trigger]
            after.cache.contains_key(TypeShape::Pointer(Box::new(to))) implies after.lookup(to)
            is Some by {
            assert(self.cache.contains_key(TypeShape::Pointer(Box::new(to))));
        }
        assert forall|i: int, j: int|
            0 <= i < after.requests.len() && 0 <= j < after.requests[i].operands().len()
            implies after.issued_before(#[trigger] after.requests[i].operands()[j], i) by {
            if i < self.requests.len() {
                assert(after.requests[i] == self.requests[i]);
                assert(self.issued_before(self.requests[i].operands()[j], i));
            } else {
                assert(self.issued(request.operands()[j]));
            }
        }
    }

    /// A reference that could be used can still be used after the session has asked for
    /// more.
    pub proof fn lemma_issued_stays(self, earlier: SessionState, index: TypeRef)
        requires
            self.extends(earlier),
            earlier.issued(index),
        ensures
            self.issued(index),
    {
        if let TypeRef::Pending(position) = index {
            assert(self.requests[position as int] == earlier.requests[position as int]);
        }
    }

    /// Coming from an earlier session is transitive.
    pub proof fn lemma_extends_further(self, middle: SessionState, earlier: SessionState)
        requires
            self.extends(middle),
            middle.extends(earlier),
        ensures
            self.extends(earlier),
    {
        assert forall|i: int| 0 <= i < earlier.requests.len() implies #[trigger] self.requests[i]
            == earlier.requests[i] by {
            assert(middle.requests[i] == earlier.requests[i]);
        }
        assert forall|ty: TypeShape| #[trigger] earlier.cache.contains_key(ty) implies self.cache.contains_key(ty) by {
            assert(middle.cache.contains_key(ty));
        }
    }
}

impl SessionState {
    /// A session whose cache takes a type that can be found again, under a reference that
    /// can be used, stays well formed; a pointer may only be taken when its pointee is known.
    pub proof fn lemma_learn(self, ty: TypeShape, index: TypeRef)
        requires
            self.wf(),
            self.issued(index),
            ty.cacheable() ==> (ty matches TypeShape::Pointer(to) ==> self.lookup(*to) is Some),
        ensures
            self.learn(ty, index).wf(),
            self.learn(ty, index).extends(self),
            ty.cacheable() ==> self.learn(ty, index).lookup(ty) == Some(index) || ty is SimpleType,
    {
        let after = self.learn(ty, index);
        if ty.cacheable() {
            assert forall|k: TypeShape| #[trigger] after.cache.contains_key(k) implies k.cacheable()
                && after.issued(after.cache[k]) by {
                if k != ty {
                    assert(self.cache.contains_key(k));
                }
            }
            assert forall|to: TypeShape| #[trigger]
                after.cache.contains_key(TypeShape::Pointer(Box::new(to))) implies after.lookup(
                to,
            ) is Some by {
                let pointer = TypeShape::Pointer(Box::new(to));
                if pointer != ty {
                    assert(self.cache.contains_key(pointer));
                }
                assert(self.lookup(to) is Some);
                if !(to is SimpleType) {
                    assert(self.cache.contains_key(to));
                }
            }
            assert forall|i: int, j: int|
                0 <= i < after.requests.len() && 0 <= j < after.requests[i].operands().len()
                implies after.issued_before(#[trigger] after.requests[i].operands()[j], i) by {
                assert(self.issued_before(self.requests[i].operands()[j], i));
            }
        }
    }

    /// Resolving a type leaves a well-formed session well formed, returns a reference that
    /// can be used, and makes a type that can be found again known under that reference.
    pub proof fn lemma_get_or_create_type(self, ty: TypeShape)
        ensures
            resolved(self, ty, self.get_or_create_type(ty)),
        decreases ty, 2nat,
    {
        match self.lookup(ty) {
            Some(index) => {
                if self.wf() && !(ty is SimpleType) {
                    assert(self.cache.contains_key(ty));
                }
            },
            None => {
                self.lemma_create_type(ty);
            },
        }
    }

    /// Creating a type leaves a well-formed session well formed, returns a reference that
    /// can be used, and makes a pointer known under that reference.
    pub proof fn lemma_create_type(self, ty: TypeShape)
        ensures
            resolved(self, ty, self.create_type(ty)),
        decreases ty, 1nat,
    {
        match ty {
            TypeShape::Pointer(to) => {
                self.lemma_pointee(*to);
                let pointee = self.pointee(*to);
                if let Ok(index) = pointee.outcome {
                    let request = RequestView::AddPointer { pointee: index };
                    let emitted = pointee.state.emit(request);
                    let last = emitted.learn(ty, pointee.state.next());
                    assert(emitted.extends(pointee.state));
                    assert(last.extends(emitted));
                    last.lemma_extends_further(emitted, pointee.state);
                    last.lemma_extends_further(pointee.state, self);
                    if self.wf() && last.requests.len() <= usize::MAX {
                        assert(request.operands() =~= seq![index]);
                        pointee.state.lemma_emit(request);
                        if ty.cacheable() {
                            assert(to.cacheable());
                            assert(pointee.state.lookup(*to) is Some);
                            assert(emitted.lookup(*to) is Some);
                        }
                        emitted.lemma_learn(ty, pointee.state.next());
                        last.lemma_issued_stays(emitted, pointee.state.next());
                    }
                }
            },
            TypeShape::ConstantArray(element, length) => {
                self.lemma_get_or_create_type(*element);
                let element = self.get_or_create_type(*element);
                if let Ok(index) = element.outcome {
                    let request = RequestView::AddArray { element: index, length: length as u64 };
                    let last = element.state.emit(request);
                    assert(last.extends(element.state));
                    last.lemma_extends_further(element.state, self);
                    if self.wf() && last.requests.len() <= usize::MAX {
                        assert(request.operands() =~= seq![index]);
                        element.state.lemma_emit(request);
                    }
                }
            },
            _ => {},
        }
    }

    /// Resolving a pointee leaves a well-formed session well formed, returns a reference
    /// that can be used, and leaves a pointee that can be found again known.
    pub proof fn lemma_pointee(self, to: TypeShape)
        ensures
            resolved(self, to, self.pointee(to)),
        decreases to, 3nat,
    {
        match to {
            TypeShape::SimpleType(_) => {},
            TypeShape::Struct(_) => {
                if self.wf() && self.lookup(to) is Some {
                    assert(self.cache.contains_key(to));
                }
            },
            TypeShape::Pointer(_) => {
                self.lemma_get_or_create_type(to);
            },
            _ => {},
        }
    }

    /// Registering a function signature leaves a well-formed session well formed, and
    /// returns a reference that can be used.
    pub proof fn lemma_insert_function_metadata(
        self,
        return_type: TypeShape,
        args: Seq<TypeShape>,
        is_constructor: bool,
        cconv: CallingConvention,
        name: Seq<char>,
    )
        ensures
            ({
                let step = self.insert_function_metadata(
                    return_type,
                    args,
                    is_constructor,
                    cconv,
                    name,
                );
                &&& sound(self, step)
                &&& self.wf() && step.state.requests.len() <= usize::MAX ==> (step.outcome matches Ok(
                    index,
                ) ==> step.state.issued(index))
            }),
    {
        if !has_nul(name) {
            self.lemma_get_or_create_type(return_type);
            let ret = self.get_or_create_type(return_type);
            if let Ok(ret_index) = ret.outcome {
                ret.state.lemma_resolve_first(args, args.len());
                let rest = ret.state.resolve_first(args, args.len());
                rest.state.lemma_extends_further(ret.state, self);
                if let Ok(arg_indices) = rest.outcome {
                    let request = RequestView::AddFunctionSignature {
                        name,
                        return_type: ret_index,
                        args: arg_indices,
                        cconv,
                        is_constructor,
                    };
                    let last = rest.state.emit(request);
                    assert(last.extends(rest.state));
                    last.lemma_extends_further(rest.state, self);
                    if self.wf() && last.requests.len() <= usize::MAX {
                        rest.state.lemma_issued_stays(ret.state, ret_index);
                        assert(request.operands() =~= seq![ret_index] + arg_indices);
                        rest.state.lemma_emit(request);
                    }
                }
            }
        }
    }

    /// Resolving a list of types leaves a well-formed session well formed, and returns one
    /// reference for each type, all of which can be used.
    pub proof fn lemma_resolve_first(self, types: Seq<TypeShape>, count: nat)
        requires
            count <= types.len(),
        ensures
            sound(self, self.resolve_first(types, count)),
            self.resolve_first(types, count).outcome matches Ok(indices) ==> {
                &&& indices.len() == count
                &&& self.wf() && self.resolve_first(types, count).state.requests.len()
                    <= usize::MAX ==> forall|j: int|
                    0 <= j < count ==> self.resolve_first(types, count).state.issued(
                        #[trigger] indices[j],
                    )
            },
        decreases count,
    {
        if count > 0 {
            self.lemma_resolve_first(types, (count - 1) as nat);
            let before = self.resolve_first(types, (count - 1) as nat);
            if let Ok(indices) = before.outcome {
                before.state.lemma_get_or_create_type(types[count - 1]);
                let last = before.state.get_or_create_type(types[count - 1]);
                last.state.lemma_extends_further(before.state, self);
                if let Ok(index) = last.outcome {
                    if self.wf() && last.state.requests.len() <= usize::MAX {
                        assert forall|j: int| 0 <= j < count implies last.state.issued(
                            #[trigger] indices.push(index)[j],
                        ) by {
                            if j < count - 1 {
                                last.state.lemma_issued_stays(before.state, indices[j]);
                            }
                        }
                    }
                }
            }
        }
    }
}

impl SessionState {
    /// A session that has asked for nothing and learned nothing is well formed.
    pub proof fn lemma_empty_is_well_formed()
        ensures
            SessionState::empty().wf(),
    {
    }

    /// Filling a field list leaves a well-formed session well formed.
    pub proof fn lemma_add_fields(self, fields: Seq<FieldShape>, count: nat)
        requires
            count <= fields.len(),
        ensures
            sound(self, self.add_fields(fields, count)),
        decreases count,
    {
        if count > 0 {
            self.lemma_add_fields(fields, (count - 1) as nat);
            let before = self.add_fields(fields, (count - 1) as nat);
            if before.outcome is Ok {
                let field = fields[count - 1];
                before.state.lemma_get_or_create_type(field.ty);
                let ty = before.state.get_or_create_type(field.ty);
                ty.state.lemma_extends_further(before.state, self);
                if let Ok(index) = ty.outcome {
                    let request = RequestView::AddField {
                        ty: index,
                        offset: field.offset,
                        name: field.name,
                    };
                    let last = ty.state.emit(request);
                    assert(last.extends(ty.state));
                    last.lemma_extends_further(ty.state, self);
                    if self.wf() && last.requests.len() <= usize::MAX {
                        assert(request.operands() =~= seq![index]);
                        ty.state.lemma_emit(request);
                    }
                }
            }
        }
    }

    /// Registering a structure leaves a well-formed session well formed. Where it
    /// succeeds, the last request creates the structure over the field list that the request
    /// before it closes, and the cache holds the structure's name under the reference to
    /// the answer.
    pub proof fn lemma_insert_struct(self, name: Seq<char>, fields: Seq<FieldShape>, size: u64)
        ensures
            sound(self, self.insert_struct(name, fields, size)),
            self.insert_struct(name, fields, size).outcome is Ok ==> ({
                let after = self.insert_struct(name, fields, size).state;
                &&& after.requests.len() >= self.requests.len() + 3
                &&& after.requests.last() == (RequestView::CreateStruct {
                    name,
                    field_list: TypeRef::Pending((after.requests.len() - 2) as usize),
                    field_count: fields.len() as u16,
                    size,
                })
                &&& after.requests[after.requests.len() - 2] == RequestView::FinalizeFieldList
                &&& after.lookup(TypeShape::Struct(name)) == Some(
                    TypeRef::Pending((after.requests.len() - 1) as usize),
                )
            }),
    {
        let step = self.insert_struct(name, fields, size);
        if !(has_nul(name) || exists|i: int|
            0 <= i < fields.len() && has_nul(#[trigger] fields[i].name)) {
            let opened = self.emit(RequestView::CreateFieldList);
            assert(opened.extends(self));
            opened.lemma_add_fields(fields, fields.len());
            let filled = opened.add_fields(fields, fields.len());
            filled.state.lemma_extends_further(opened, self);
            if filled.outcome is Ok {
                let closed = filled.state.emit(RequestView::FinalizeFieldList);
                let request = RequestView::CreateStruct {
                    name,
                    field_list: filled.state.next(),
                    field_count: fields.len() as u16,
                    size,
                };
                let created = closed.emit(request);
                let last = created.learn(TypeShape::Struct(name), closed.next());
                assert(closed.extends(filled.state));
                assert(created.extends(closed));
                assert(last.extends(created));
                created.lemma_extends_further(closed, filled.state);
                last.lemma_extends_further(created, filled.state);
                last.lemma_extends_further(filled.state, self);
                assert(last.requests.last() == request);
                if self.wf() && last.requests.len() <= usize::MAX {
                    assert(RequestView::CreateFieldList.operands() =~= Seq::empty());
                    self.lemma_emit(RequestView::CreateFieldList);
                    assert(RequestView::FinalizeFieldList.operands() =~= Seq::empty());
                    filled.state.lemma_emit(RequestView::FinalizeFieldList);
                    assert(request.operands() =~= seq![filled.state.next()]);
                    closed.lemma_emit(request);
                    created.lemma_learn(TypeShape::Struct(name), closed.next());
                }
            } else {
                if self.wf() && filled.state.requests.len() <= usize::MAX {
                    assert(RequestView::CreateFieldList.operands() =~= Seq::empty());
                    self.lemma_emit(RequestView::CreateFieldList);
                }
            }
        }
    }

    /// Adding a global symbol leaves a well-formed session well formed.
    pub proof fn lemma_insert_global(
        self,
        name: Seq<char>,
        section_index: u16,
        section_rva: u32,
        ty: Option<TypeShape>,
    )
        ensures
            sound(self, self.insert_global(name, section_index, section_rva, ty)),
    {
        if !has_nul(name) {
            match ty {
                Some(ty) => {
                    self.lemma_get_or_create_type(ty);
                    let ty = self.get_or_create_type(ty);
                    if let Ok(index) = ty.outcome {
                        let request = RequestView::AddTypedGlobal {
                            name,
                            section_index,
                            section_offset: section_rva,
                            ty: index,
                        };
                        let last = ty.state.emit(request);
                        assert(last.extends(ty.state));
                        last.lemma_extends_further(ty.state, self);
                        if self.wf() && last.requests.len() <= usize::MAX {
                            assert(request.operands() =~= seq![index]);
                            ty.state.lemma_emit(request);
                        }
                    }
                },
                None => {
                    let request = RequestView::AddGlobal {
                        name,
                        section_index,
                        section_offset: section_rva,
                    };
                    if self.wf() && self.emit(request).requests.len() <= usize::MAX {
                        assert(request.operands() =~= Seq::empty());
                        self.lemma_emit(request);
                    }
                },
            }
        }
    }

    /// Adding a function symbol leaves a well-formed session well formed.
    pub proof fn lemma_insert_function(
        self,
        section_index: u16,
        section_rva: u32,
        name: Seq<char>,
        ty: Option<u32>,
    )
        ensures
            sound(self, self.insert_function(section_index, section_rva, name, ty)),
    {
        let step = self.insert_function(section_index, section_rva, name, ty);
        if !has_nul(name) && self.wf() && step.state.requests.len() <= usize::MAX {
            let request = step.state.requests.last();
            assert(request.operands() =~= Seq::empty());
            self.lemma_emit(request);
        }
    }

    /// Asking for the output leaves a well-formed session well formed.
    pub proof fn lemma_commit(self, binary: Seq<char>, output: Seq<char>)
        ensures
            sound(self, self.commit(binary, output)),
    {
        let step = self.commit(binary, output);
        if !(has_nul(binary) || has_nul(output)) && self.wf() && step.state.requests.len()
            <= usize::MAX {
            let request = RequestView::Commit { binary, output };
            assert(request.operands() =~= Seq::empty());
            self.lemma_emit(request);
        }
    }

    /// Once the store has answered the whole queue, the session is well formed again, and
    /// its cache holds nothing but indices.
    pub proof fn lemma_settle(self, answers: Seq<u32>)
        requires
            self.wf(),
            answers.len() == self.requests.len(),
        ensures
            self.settle(answers).wf(),
            forall|ty: TypeShape| #[trigger]
                self.settle(answers).cache.contains_key(ty) ==> self.cache.contains_key(ty)
                    && self.settle(answers).cache[ty] is Index,
    {
        let after = self.settle(answers);
        assert forall|ty: TypeShape| #[trigger] after.cache.contains_key(ty) implies ty.cacheable()
            && after.issued(after.cache[ty]) && self.cache.contains_key(ty) && after.cache[ty]
            is Index by {
            assert(self.cache.contains_key(ty));
            assert(self.issued(self.cache[ty]));
        }
        assert forall|to: TypeShape| #[trigger]
            after.cache.contains_key(TypeShape::Pointer(Box::new(to))) implies after.lookup(to)
            is Some by {
            assert(self.cache.contains_key(TypeShape::Pointer(Box::new(to))));
            if !(to is SimpleType) {
                assert(self.cache.contains_key(to));
            }
        }
    }

    /// Every reference that a request of a well-formed session hands to the store has its
    /// value once the requests before it are answered.
    pub proof fn lemma_operands_have_values(self, answers: Seq<u32>, i: int, j: int)
        requires
            self.wf(),
            0 <= i < self.requests.len(),
            0 <= j < self.requests[i].operands().len(),
            answers.len() >= i,
        ensures
            self.requests[i].operands()[j].spec_value(answers) is Some,
    {
        assert(self.issued_before(self.requests[i].operands()[j], i));
    }
}

} // verus!
