use crate::descriptor::{FieldShape, TypeShape};
use crate::model::{Fault, SessionState, Step};
use crate::pdb_meta::{CallingConvention, SimpleTypeKind};
use crate::request::{RequestView, TypeRef};
use vstd::prelude::*;

verus! {

impl SessionState {
    /// Resolving a simple type changes nothing and returns the code of its kind.
    pub proof fn lemma_simple_type(self, kind: SimpleTypeKind)
        ensures
            self.get_or_create_type(TypeShape::SimpleType(kind)) == (Step {
                state: self,
                outcome: Ok(TypeRef::Index(kind.spec_code())),
            }),
    {
    }

    /// A type that can be found again is resolved once: resolving it a second time returns
    /// the same reference and asks the store for nothing.
    pub proof fn lemma_resolved_again(self, ty: TypeShape)
        requires
            ty.cacheable(),
            self.get_or_create_type(ty).outcome is Ok,
        ensures
            self.get_or_create_type(ty).state.get_or_create_type(ty) == self.get_or_create_type(
                ty,
            ),
    {
        self.lemma_get_or_create_type(ty);
    }

    /// A type that can be found again is still resolved once after the store has answered:
    /// resolving it then asks for nothing, and returns the index that the store has issued
    /// for the reference that the first resolution returned.
    pub proof fn lemma_resolved_again_after_settle(self, ty: TypeShape, answers: Seq<u32>)
        requires
            ty.cacheable(),
            self.get_or_create_type(ty).outcome is Ok,
        ensures
            ({
                let first = self.get_or_create_type(ty);
                first.state.settle(answers).get_or_create_type(ty) == (Step {
                    state: first.state.settle(answers),
                    outcome: Ok(first.outcome->Ok_0.spec_settled(answers)),
                })
            }),
    {
        self.lemma_get_or_create_type(ty);
        let first = self.get_or_create_type(ty);
        if !(ty is SimpleType) {
            assert(first.state.cache.contains_key(ty));
        }
    }

    /// A pointer whose pointee is known costs at most one request: none where the pointer
    /// is known itself, and else the one that creates it over the pointee's reference.
    pub proof fn lemma_pointer_costs_one_request(self, to: TypeShape)
        requires
            !(to is ConstantArray) && !(to is FunctionPointer),
            self.lookup(to) is Some,
        ensures
            ({
                let pointer = TypeShape::Pointer(Box::new(to));
                let step = self.get_or_create_type(pointer);
                &&& step.outcome is Ok
                &&& self.lookup(pointer) is Some ==> step.state == self
                &&& self.lookup(pointer) is None ==> step.state.requests == self.requests.push(
                    RequestView::AddPointer { pointee: self.lookup(to)->Some_0 },
                )
            }),
    {
        let pointer = TypeShape::Pointer(Box::new(to));
        if self.lookup(pointer) is None {
            let known = self.lookup(to)->Some_0;
            assert(self.get_or_create_type(to) == (Step { state: self, outcome: Ok(known) }));
            assert(self.pointee(to) == (Step { state: self, outcome: Ok(known) }));
            assert(self.create_type(pointer).state.requests == self.requests.push(
                RequestView::AddPointer { pointee: known },
            ));
        }
    }

    /// In a well-formed session, a simple type, a structure or a pointer that resolves can
    /// be found again in the cache.
    pub proof fn lemma_resolved_is_cacheable(self, ty: TypeShape)
        requires
            self.wf(),
            ty is Pointer || ty is Struct || ty is SimpleType,
        ensures
            self.get_or_create_type(ty).outcome is Ok ==> ty.cacheable(),
            self.create_type(ty).outcome is Ok ==> ty.cacheable(),
            self.pointee(ty).outcome is Ok ==> ty.cacheable(),
        decreases ty,
    {
        if let TypeShape::Pointer(to) = ty {
            if self.lookup(ty) is Some {
                assert(self.cache.contains_key(ty));
            }
            if *to is Pointer {
                self.lemma_resolved_is_cacheable(*to);
            }
        }
    }

    /// A simple type, a structure or a pointer that has resolved in a well-formed session
    /// resolves again to the same reference, and the second time nothing is asked of the
    /// store and nothing changes.
    pub proof fn lemma_resolved_once(self, ty: TypeShape)
        requires
            self.wf(),
            ty is Pointer || ty is Struct || ty is SimpleType,
            self.get_or_create_type(ty).outcome is Ok,
        ensures
            self.get_or_create_type(ty).state.get_or_create_type(ty) == self.get_or_create_type(
                ty,
            ),
    {
        self.lemma_resolved_is_cacheable(ty);
        self.lemma_resolved_again(ty);
    }

    /// A simple type, a structure or a pointer is resolved twice to one result in a
    /// well-formed session, and the two resolutions together ask the store for at most one
    /// type. The pointer may be one to anything but a pointer that is not known yet: such a
    /// pointer costs one request for each of the two.
    pub proof fn lemma_resolved_twice(self, ty: TypeShape)
        requires
            self.wf(),
            ty is Pointer || ty is Struct || ty is SimpleType,
            ty matches TypeShape::Pointer(to) ==> !(*to is Pointer) || self.lookup(*to) is Some,
        ensures
            ({
                let first = self.get_or_create_type(ty);
                let second = first.state.get_or_create_type(ty);
                &&& second == first
                &&& first.state.requests.len() <= self.requests.len() + 1
            }),
    {
        let first = self.get_or_create_type(ty);
        match ty {
            TypeShape::Pointer(to) => {
                if self.lookup(ty) is Some {
                } else if self.lookup(*to) is Some {
                    if *to is ConstantArray || *to is FunctionPointer {
                        assert(self.cache.contains_key(*to));
                    }
                    self.lemma_pointer_costs_one_request(*to);
                    self.lemma_resolved_again(ty);
                } else {
                    assert(self.pointee(*to).outcome is Err);
                    assert(self.pointee(*to).state == self);
                    assert(self.create_type(ty).state == self);
                }
            },
            _ => {},
        }
    }

    /// A pointer that is created is cached: the last request then creates it over the
    /// reference of its pointee, and the cache holds the pointer under the reference to the
    /// answer, which is also what comes back.
    pub proof fn lemma_created_pointer_is_cached(self, to: TypeShape)
        requires
            self.wf(),
            self.create_type(TypeShape::Pointer(Box::new(to))).outcome is Ok,
        ensures
            ({
                let pointer = TypeShape::Pointer(Box::new(to));
                let pointee = self.pointee(to);
                let step = self.create_type(pointer);
                let created = TypeRef::Pending((step.state.requests.len() - 1) as usize);
                &&& pointee.outcome is Ok
                &&& step.state.requests == pointee.state.requests.push(
                    RequestView::AddPointer { pointee: pointee.outcome->Ok_0 },
                )
                &&& step.outcome == Ok::<TypeRef, Fault>(created)
                &&& step.state.cache.contains_key(pointer)
                &&& step.state.cache[pointer] == created
            }),
    {
        let pointer = TypeShape::Pointer(Box::new(to));
        self.lemma_resolved_is_cacheable(pointer);
    }

    /// A pointer to an array or to a function signature is not created: resolving stops
    /// there for good, nothing is asked of the store, and nothing changes.
    pub proof fn lemma_unsupported_pointer(self, to: TypeShape)
        requires
            to is ConstantArray || to is FunctionPointer,
        ensures
            ({
                let pointer = TypeShape::Pointer(Box::new(to));
                &&& !self.create_type(pointer).defined()
                &&& self.create_type(pointer).state == self
                &&& self.wf() ==> !self.get_or_create_type(pointer).defined()
                    && self.get_or_create_type(pointer).state == self
            }),
    {
        let pointer = TypeShape::Pointer(Box::new(to));
        assert(!self.pointee(to).defined());
        assert(self.pointee(to).state == self);
        if self.wf() && self.cache.contains_key(pointer) {
            assert(pointer.cacheable());
        }
    }

    /// A pointer to a structure that is not registered is an unknown type, and nothing is
    /// asked of the store.
    pub proof fn lemma_pointer_to_unregistered_struct(self, name: Seq<char>)
        requires
            self.wf(),
            !self.cache.contains_key(TypeShape::Struct(name)),
        ensures
            self.get_or_create_type(TypeShape::Pointer(Box::new(TypeShape::Struct(name)))) == (Step::<
                TypeRef,
            > {
                state: self,
                outcome: Err(Fault::UnknownType { name }),
            }),
    {
        let to = TypeShape::Struct(name);
        let pointer = TypeShape::Pointer(Box::new(to));
        if self.cache.contains_key(pointer) {
            assert(self.lookup(to) is Some);
        }
        assert(self.lookup(pointer) is None);
        assert(self.pointee(to).outcome == Err::<TypeRef, Fault>(Fault::UnknownType { name }));
        assert(self.pointee(to).state == self);
        assert(self.create_type(pointer).state == self);
    }

    /// Once a structure is registered, a pointer to it resolves, and resolving it again
    /// returns the same reference and asks for nothing.
    pub proof fn lemma_pointer_to_registered_struct(
        self,
        name: Seq<char>,
        fields: Seq<FieldShape>,
        size: u64,
    )
        requires
            self.insert_struct(name, fields, size).outcome is Ok,
        ensures
            ({
                let registered = self.insert_struct(name, fields, size).state;
                let pointer = TypeShape::Pointer(Box::new(TypeShape::Struct(name)));
                let first = registered.get_or_create_type(pointer);
                &&& first.outcome is Ok
                &&& first.state.get_or_create_type(pointer) == first
            }),
    {
        self.lemma_insert_struct(name, fields, size);
        let registered = self.insert_struct(name, fields, size).state;
        let pointer = TypeShape::Pointer(Box::new(TypeShape::Struct(name)));
        registered.lemma_pointer_costs_one_request(TypeShape::Struct(name));
        registered.lemma_resolved_again(pointer);
    }

    /// A structure that is registered a second time under its name takes the place of the
    /// first: the name then stands for the structure that the second registration asked the
    /// store to create.
    pub proof fn lemma_registered_again(
        self,
        name: Seq<char>,
        fields: Seq<FieldShape>,
        size: u64,
        other_fields: Seq<FieldShape>,
        other_size: u64,
    )
        requires
            self.insert_struct(name, fields, size).outcome is Ok,
            self.insert_struct(name, fields, size).state.insert_struct(
                name,
                other_fields,
                other_size,
            ).outcome is Ok,
        ensures
            ({
                let first = self.insert_struct(name, fields, size).state;
                let second = first.insert_struct(name, other_fields, other_size).state;
                &&& second.requests.len() > first.requests.len()
                &&& second.requests.last() == (RequestView::CreateStruct {
                    name,
                    field_list: TypeRef::Pending((second.requests.len() - 2) as usize),
                    field_count: other_fields.len() as u16,
                    size: other_size,
                })
                &&& second.lookup(TypeShape::Struct(name)) == Some(
                    TypeRef::Pending((second.requests.len() - 1) as usize),
                )
                &&& second.requests.len() <= usize::MAX ==> second.lookup(TypeShape::Struct(name))
                    != first.lookup(TypeShape::Struct(name))
            }),
    {
        self.lemma_insert_struct(name, fields, size);
        let first = self.insert_struct(name, fields, size).state;
        first.lemma_insert_struct(name, other_fields, other_size);
    }

    /// A structure that is asked for by its name alone is taken from the cache, and is a
    /// bad type where the cache does not hold it. Nothing is asked of the store either way.
    pub proof fn lemma_bare_struct(self, name: Seq<char>)
        ensures
            ({
                let ty = TypeShape::Struct(name);
                self.get_or_create_type(ty) == (Step {
                    state: self,
                    outcome: if self.cache.contains_key(ty) {
                        Ok(self.cache[ty])
                    } else {
                        Err(Fault::BadType { ty })
                    },
                })
            }),
    {
    }

    /// A function signature that is asked for as such is a bad type, and nothing is asked
    /// of the store.
    pub proof fn lemma_bare_function_pointer(self, ty: TypeShape)
        requires
            self.wf(),
            ty is FunctionPointer,
        ensures
            self.get_or_create_type(ty) == (Step::<TypeRef> {
                state: self,
                outcome: Err(Fault::BadType { ty }),
            }),
    {
    }

    /// An array is created each time it is resolved: the last request then creates it, the
    /// reference that is returned waits for that request, and the cache does not hold the
    /// array.
    pub proof fn lemma_array_is_created(self, element: TypeShape, length: usize)
        requires
            self.wf(),
            self.get_or_create_type(TypeShape::ConstantArray(Box::new(element), length)).outcome
                is Ok,
        ensures
            ({
                let array = TypeShape::ConstantArray(Box::new(element), length);
                let step = self.get_or_create_type(array);
                &&& step.state.requests.len() > self.requests.len()
                &&& step.state.requests.last() matches RequestView::AddArray {
                    length: asked,
                    ..
                } && asked == length as u64
                &&& step.outcome == Ok::<TypeRef, Fault>(
                    TypeRef::Pending((step.state.requests.len() - 1) as usize),
                )
                &&& !step.state.cache.contains_key(array)
            }),
    {
        let array = TypeShape::ConstantArray(Box::new(element), length);
        self.lemma_get_or_create_type(element);
        let resolved = self.get_or_create_type(element);
        if resolved.state.cache.contains_key(array) {
            self.lemma_keys_stay_cacheable(element);
        }
    }

    /// Resolving a type adds to the cache only types that can be found again.
    pub proof fn lemma_keys_stay_cacheable(self, ty: TypeShape)
        requires
            forall|key: TypeShape| #[trigger] self.cache.contains_key(key) ==> key.cacheable(),
        ensures
            forall|key: TypeShape| #[trigger]
                self.get_or_create_type(ty).state.cache.contains_key(key) ==> key.cacheable(),
            forall|key: TypeShape| #[trigger]
                self.create_type(ty).state.cache.contains_key(key) ==> key.cacheable(),
            forall|key: TypeShape| #[trigger]
                self.pointee(ty).state.cache.contains_key(key) ==> key.cacheable(),
        decreases ty,
    {
        match ty {
            TypeShape::Pointer(to) => {
                self.lemma_keys_stay_cacheable(*to);
            },
            TypeShape::ConstantArray(element, _) => {
                self.lemma_keys_stay_cacheable(*element);
            },
            _ => {},
        }
    }

    /// An array is never found again: two resolutions of one array ask the store for two
    /// arrays, and return two references.
    pub proof fn lemma_array_is_created_twice(self, element: TypeShape, length: usize)
        requires
            self.wf(),
            self.get_or_create_type(TypeShape::ConstantArray(Box::new(element), length)).outcome
                is Ok,
            self.get_or_create_type(
                TypeShape::ConstantArray(Box::new(element), length),
            ).state.get_or_create_type(TypeShape::ConstantArray(Box::new(element), length)).outcome
                is Ok,
            self.get_or_create_type(
                TypeShape::ConstantArray(Box::new(element), length),
            ).state.get_or_create_type(
                TypeShape::ConstantArray(Box::new(element), length),
            ).state.requests.len() <= usize::MAX,
        ensures
            ({
                let array = TypeShape::ConstantArray(Box::new(element), length);
                let first = self.get_or_create_type(array);
                let second = first.state.get_or_create_type(array);
                &&& second.state.requests.len() >= self.requests.len() + 2
                &&& first.state.requests.last() is AddArray
                &&& second.state.requests.last() is AddArray
                &&& first.outcome != second.outcome
            }),
    {
        let array = TypeShape::ConstantArray(Box::new(element), length);
        self.lemma_array_is_created(element, length);
        self.lemma_get_or_create_type(array);
        let first = self.get_or_create_type(array);
        first.state.lemma_get_or_create_type(array);
        let second = first.state.get_or_create_type(array);
        first.state.lemma_array_is_created(element, length);
    }
}

impl SessionState {
    /// A type in which no pointer points to an array or to a function signature can be
    /// resolved in every session: no unsupported composition comes up.
    pub proof fn lemma_supported_type(self, ty: TypeShape)
        requires
            ty.supported(),
        ensures
            self.get_or_create_type(ty).defined(),
            self.create_type(ty).defined(),
            !(ty is ConstantArray) && !(ty is FunctionPointer) ==> self.pointee(ty).defined(),
        decreases ty,
    {
        match ty {
            TypeShape::Pointer(to) => {
                self.lemma_supported_type(*to);
            },
            TypeShape::ConstantArray(element, _) => {
                self.lemma_supported_type(*element);
            },
            _ => {},
        }
    }

    /// A list of types in none of which a pointer points to an array or to a function
    /// signature can be resolved in every session.
    pub proof fn lemma_supported_types(self, types: Seq<TypeShape>, count: nat)
        requires
            count <= types.len(),
            forall|i: int| 0 <= i < types.len() ==> (#[trigger] types[i]).supported(),
        ensures
            self.resolve_first(types, count).defined(),
        decreases count,
    {
        if count > 0 {
            self.lemma_supported_types(types, (count - 1) as nat);
            let before = self.resolve_first(types, (count - 1) as nat);
            assert(types[count - 1].supported());
            before.state.lemma_supported_type(types[count - 1]);
        }
    }

    /// A function signature can be registered in every session if no pointer in its return
    /// type or in one of its arguments points to an array or to a function signature.
    pub proof fn lemma_supported_signature(
        self,
        return_type: TypeShape,
        args: Seq<TypeShape>,
        is_constructor: bool,
        cconv: CallingConvention,
        name: Seq<char>,
    )
        requires
            return_type.supported(),
            forall|i: int| 0 <= i < args.len() ==> (#[trigger] args[i]).supported(),
        ensures
            self.insert_function_metadata(return_type, args, is_constructor, cconv, name).defined(),
    {
        self.lemma_supported_type(return_type);
        self.get_or_create_type(return_type).state.lemma_supported_types(args, args.len());
    }

    /// The fields of a structure can be added in every session if no pointer in one of
    /// their types points to an array or to a function signature.
    pub proof fn lemma_supported_fields(self, fields: Seq<FieldShape>, count: nat)
        requires
            count <= fields.len(),
            forall|i: int| 0 <= i < fields.len() ==> (#[trigger] fields[i]).ty.supported(),
        ensures
            self.add_fields(fields, count).defined(),
        decreases count,
    {
        if count > 0 {
            self.lemma_supported_fields(fields, (count - 1) as nat);
            let before = self.add_fields(fields, (count - 1) as nat);
            assert(fields[count - 1].ty.supported());
            before.state.lemma_supported_type(fields[count - 1].ty);
        }
    }

    /// A structure can be registered in every session if no pointer in the type of one of
    /// its fields points to an array or to a function signature.
    pub proof fn lemma_supported_struct(
        self,
        name: Seq<char>,
        fields: Seq<FieldShape>,
        size: u64,
    )
        requires
            forall|i: int| 0 <= i < fields.len() ==> (#[trigger] fields[i]).ty.supported(),
        ensures
            self.insert_struct(name, fields, size).defined(),
    {
        self.emit(RequestView::CreateFieldList).lemma_supported_fields(fields, fields.len());
    }

    /// A global symbol can be added in every session if no pointer in its type points to an
    /// array or to a function signature.
    pub proof fn lemma_supported_global(
        self,
        name: Seq<char>,
        section_index: u16,
        section_rva: u32,
        ty: Option<TypeShape>,
    )
        requires
            ty matches Some(ty) ==> ty.supported(),
        ensures
            self.insert_global(name, section_index, section_rva, ty).defined(),
    {
        if let Some(ty) = ty {
            self.lemma_supported_type(ty);
        }
    }
}

impl SessionState {
    /// Keeping the references of an earlier session is transitive.
    pub proof fn lemma_keeps_further(self, middle: SessionState, earlier: SessionState)
        requires
            self.keeps(middle),
            middle.keeps(earlier),
        ensures
            self.keeps(earlier),
    {
        assert forall|ty: TypeShape| #[trigger] earlier.cache.contains_key(ty) implies self.cache.contains_key(ty)
            && self.cache[ty] == earlier.cache[ty] by {
            assert(middle.cache.contains_key(ty));
        }
    }

    /// Resolving a type changes no reference that the cache holds: what was known stays
    /// known as it was.
    pub proof fn lemma_resolving_keeps_references(self, ty: TypeShape)
        ensures
            self.get_or_create_type(ty).state.keeps(self),
            self.pointee(ty).state.keeps(self),
            !self.cache.contains_key(ty) ==> self.create_type(ty).state.keeps(self),
        decreases ty,
    {
        match ty {
            TypeShape::Pointer(to) => {
                self.lemma_resolving_keeps_references(*to);
                let pointee = self.pointee(*to);
                if !self.cache.contains_key(ty) {
                    if let Ok(index) = pointee.outcome {
                        let last = self.create_type(ty).state;
                        assert forall|key: TypeShape| #[trigger]
                            self.cache.contains_key(key) implies last.cache.contains_key(key)
                            && last.cache[key] == self.cache[key] by {
                            assert(pointee.state.cache.contains_key(key));
                        }
                    }
                }
            },
            TypeShape::ConstantArray(element, _) => {
                self.lemma_resolving_keeps_references(*element);
            },
            _ => {},
        }
    }

    /// Resolving a list of types changes no reference that the cache holds.
    pub proof fn lemma_resolving_all_keeps_references(self, types: Seq<TypeShape>, count: nat)
        requires
            count <= types.len(),
        ensures
            self.resolve_first(types, count).state.keeps(self),
        decreases count,
    {
        if count > 0 {
            self.lemma_resolving_all_keeps_references(types, (count - 1) as nat);
            let before = self.resolve_first(types, (count - 1) as nat);
            if before.outcome is Ok {
                before.state.lemma_resolving_keeps_references(types[count - 1]);
                before.state.get_or_create_type(types[count - 1]).state.lemma_keeps_further(
                    before.state,
                    self,
                );
            }
        }
    }

    /// Registering a function signature changes no reference that the cache holds, and
    /// caches nothing for the signature.
    pub proof fn lemma_signature_keeps_references(
        self,
        return_type: TypeShape,
        args: Seq<TypeShape>,
        is_constructor: bool,
        cconv: CallingConvention,
        name: Seq<char>,
    )
        ensures
            self.insert_function_metadata(return_type, args, is_constructor, cconv, name).state.keeps(
                self,
            ),
    {
        self.lemma_resolving_keeps_references(return_type);
        let ret = self.get_or_create_type(return_type);
        ret.state.lemma_resolving_all_keeps_references(args, args.len());
        ret.state.resolve_first(args, args.len()).state.lemma_keeps_further(ret.state, self);
    }

    /// Adding fields to a field list changes no reference that the cache holds.
    pub proof fn lemma_fields_keep_references(self, fields: Seq<FieldShape>, count: nat)
        requires
            count <= fields.len(),
        ensures
            self.add_fields(fields, count).state.keeps(self),
        decreases count,
    {
        if count > 0 {
            self.lemma_fields_keep_references(fields, (count - 1) as nat);
            let before = self.add_fields(fields, (count - 1) as nat);
            if before.outcome is Ok {
                before.state.lemma_resolving_keeps_references(fields[count - 1].ty);
                before.state.get_or_create_type(fields[count - 1].ty).state.lemma_keeps_further(
                    before.state,
                    self,
                );
            }
        }
    }

    /// Registering a structure changes no reference that the cache holds but the one of
    /// the structure's own name.
    pub proof fn lemma_struct_keeps_other_references(
        self,
        name: Seq<char>,
        fields: Seq<FieldShape>,
        size: u64,
    )
        ensures
            forall|ty: TypeShape| #[trigger]
                self.cache.contains_key(ty) && ty != TypeShape::Struct(name) ==> ({
                    let after = self.insert_struct(name, fields, size).state;
                    after.cache.contains_key(ty) && after.cache[ty] == self.cache[ty]
                }),
    {
        let opened = self.emit(RequestView::CreateFieldList);
        opened.lemma_fields_keep_references(fields, fields.len());
        let filled = opened.add_fields(fields, fields.len()).state;
        assert forall|ty: TypeShape| #[trigger]
            self.cache.contains_key(ty) && ty != TypeShape::Struct(name) implies ({
            let after = self.insert_struct(name, fields, size).state;
            after.cache.contains_key(ty) && after.cache[ty] == self.cache[ty]
        }) by {
            assert(opened.cache.contains_key(ty));
            assert(filled.cache.contains_key(ty));
        }
    }

    /// Adding a global symbol changes no reference that the cache holds.
    pub proof fn lemma_global_keeps_references(
        self,
        name: Seq<char>,
        section_index: u16,
        section_rva: u32,
        ty: Option<TypeShape>,
    )
        ensures
            self.insert_global(name, section_index, section_rva, ty).state.keeps(self),
    {
        if let Some(ty) = ty {
            self.lemma_resolving_keeps_references(ty);
        }
    }
}

} // verus!
