use crate::descriptor::{FieldShape, TypeShape};
use crate::error::Unsupported;
use crate::names::has_nul;
use crate::pdb_meta::CallingConvention;
use crate::request::{RequestView, TypeRef};
use vstd::prelude::*;

verus! {

/// Why an operation of the session stops.
pub enum Fault {
    /// A name holds a NUL character.
    BadSymbolName,
    /// The store could not be created, or could not write its output.
    LLVMError,
    /// A structure or a function signature was asked for as such, and the cache does not
    /// hold it: no store call makes one from its description.
    BadType { ty: TypeShape },
    /// A pointer to a structure that is not registered under this name.
    UnknownType { name: Seq<char> },
    /// A pointer to an array or to a function signature: a composition that no request
    /// expresses, and at which resolving stops for good.
    Unsupported { what: Unsupported },
}

/// Where an operation leaves the session, and what it returns.
pub struct Step<T> {
    pub state: SessionState,
    pub outcome: Result<T, Fault>,
}

impl<T> Step<T> {
    /// Whether the operation met no composition that it has no request for.
    pub open spec fn defined(self) -> bool {
        !(self.outcome matches Err(fault) && fault is Unsupported)
    }
}

/// What a session knows and what it has asked of its store.
pub struct SessionState {
    /// The cache: the types that need not be created again, each with its reference.
    pub cache: Map<TypeShape, TypeRef>,
    /// The queue: the requests that the store has not answered yet, oldest first.
    pub requests: Seq<RequestView>,
}

impl SessionState {
    /// The session that knows nothing and has asked for nothing.
    pub open spec fn empty() -> SessionState {
        SessionState { cache: Map::empty(), requests: Seq::empty() }
    }

    /// The reference under which a type is known already. A simple type is always known, by
    /// its code; any other type is known when the cache holds it.
    pub open spec fn lookup(self, ty: TypeShape) -> Option<TypeRef> {
        match ty {
            TypeShape::SimpleType(kind) => Some(TypeRef::Index(kind.spec_code())),
            _ => if self.cache.contains_key(ty) {
                Some(self.cache[ty])
            } else {
                None
            },
        }
    }

    /// The reference to what the store will answer to the next request.
    pub open spec fn next(self) -> TypeRef {
        TypeRef::Pending(self.requests.len() as usize)
    }

    /// The session after one more request.
    pub open spec fn emit(self, request: RequestView) -> SessionState {
        SessionState { cache: self.cache, requests: self.requests.push(request) }
    }

    /// The session after the cache has taken the reference of a type, in place of any
    /// earlier one. A type that is the same as nothing could never be found again, and is
    /// not kept.
    pub open spec fn learn(self, ty: TypeShape, index: TypeRef) -> SessionState {
        if ty.cacheable() {
            SessionState { cache: self.cache.insert(ty, index), requests: self.requests }
        } else {
            self
        }
    }

    /// The session after the store has answered every request of the queue, the request at
    /// position `i` with `answers[i]`: the cache holds the indices that were issued, and the
    /// queue is empty.
    pub open spec fn settle(self, answers: Seq<u32>) -> SessionState {
        SessionState {
            cache: self.cache.map_values(|index: TypeRef| index.spec_settled(answers)),
            requests: Seq::empty(),
        }
    }

    /// Whether a reference can be used in this session: it is an index, or it waits for a
    /// request of the queue that yields one.
    pub open spec fn issued(self, index: TypeRef) -> bool {
        index matches TypeRef::Pending(position) ==> position < self.requests.len()
            && self.requests[position as int].yields_index()
    }

    /// Whether a reference can be handed to the store with the request at `position`: it
    /// is an index, or it waits for an earlier request that yields one.
    pub open spec fn issued_before(self, index: TypeRef, position: int) -> bool {
        index matches TypeRef::Pending(earlier) ==> earlier < position && self.issued(index)
    }

    /// What holds of every session that began empty. The queue can be numbered. The cache
    /// holds only types that can be found again, under references that can be used, and
    /// with a pointer it holds the pointee, unless that is a simple type. Every request
    /// hands the store only what the store has issued by then.
    pub open spec fn wf(self) -> bool {
        &&& self.requests.len() <= usize::MAX
        &&& forall|ty: TypeShape| #[trigger]
            self.cache.contains_key(ty) ==> ty.cacheable() && self.issued(self.cache[ty])
        &&& forall|to: TypeShape| #[trigger]
            self.cache.contains_key(TypeShape::Pointer(Box::new(to))) ==> self.lookup(to) is Some
        &&& forall|i: int, j: int|
            0 <= i < self.requests.len() && 0 <= j < self.requests[i].operands().len()
                ==> self.issued_before(#[trigger] self.requests[i].operands()[j], i)
    }

    /// Whether this session has come from an `earlier` one by asking for more and learning
    /// more: the queue has only grown at its end, and the cache has lost no type.
    pub open spec fn extends(self, earlier: SessionState) -> bool {
        &&& earlier.requests.len() <= self.requests.len()
        &&& forall|i: int|
            0 <= i < earlier.requests.len() ==> #[trigger] self.requests[i] == earlier.requests[i]
        &&& forall|ty: TypeShape| #[trigger]
            earlier.cache.contains_key(ty) ==> self.cache.contains_key(ty)
    }

    /// Whether this session holds every type that an `earlier` one held, under the
    /// reference that it had there.
    pub open spec fn keeps(self, earlier: SessionState) -> bool {
        forall|ty: TypeShape| #[trigger]
            earlier.cache.contains_key(ty) ==> self.cache.contains_key(ty) && self.cache[ty]
                == earlier.cache[ty]
    }

    /// Resolves a type to a reference: the one under which it is known, or else the one of
    /// a type that is created for it.
    pub open spec fn get_or_create_type(self, ty: TypeShape) -> Step<TypeRef>
        decreases ty, 2nat,
    {
        match self.lookup(ty) {
            Some(index) => Step { state: self, outcome: Ok(index) },
            None => self.create_type(ty),
        }
    }

    /// Creates a type that is not known yet. A pointer is created over its pointee and
    /// then cached under the reference to the answer; an array is created over its element
    /// and not cached; nothing else can be created from its description.
    pub open spec fn create_type(self, ty: TypeShape) -> Step<TypeRef>
        decreases ty, 1nat,
    {
        match ty {
            TypeShape::Pointer(to) => {
                let pointee = self.pointee(*to);
                match pointee.outcome {
                    Ok(index) => Step {
                        state: pointee.state.emit(RequestView::AddPointer { pointee: index }).learn(
                            ty,
                            pointee.state.next(),
                        ),
                        outcome: Ok(pointee.state.next()),
                    },
                    Err(fault) => Step { state: pointee.state, outcome: Err(fault) },
                }
            },
            TypeShape::ConstantArray(element, length) => {
                let element = self.get_or_create_type(*element);
                match element.outcome {
                    Ok(index) => Step {
                        state: element.state.emit(
                            RequestView::AddArray { element: index, length: length as u64 },
                        ),
                        outcome: Ok(element.state.next()),
                    },
                    Err(fault) => Step { state: element.state, outcome: Err(fault) },
                }
            },
            _ => Step { state: self, outcome: Err(Fault::BadType { ty }) },
        }
    }

    /// Resolves the type that a pointer points to. A simple type stands by its code; a
    /// structure must be registered; a pointer is resolved like any type; an array or a
    /// function signature cannot be pointed to, and nothing is asked of the store for it.
    pub open spec fn pointee(self, to: TypeShape) -> Step<TypeRef>
        decreases to, 3nat,
    {
        match to {
            TypeShape::SimpleType(kind) => Step {
                state: self,
                outcome: Ok(TypeRef::Index(kind.spec_code())),
            },
            TypeShape::Struct(name) => Step {
                state: self,
                outcome: match self.lookup(to) {
                    Some(index) => Ok(index),
                    None => Err(Fault::UnknownType { name }),
                },
            },
            TypeShape::Pointer(_) => self.get_or_create_type(to),
            TypeShape::ConstantArray(_, _) => Step {
                state: self,
                outcome: Err(Fault::Unsupported { what: Unsupported::PointerToArray }),
            },
            TypeShape::FunctionPointer { .. } => Step {
                state: self,
                outcome: Err(Fault::Unsupported { what: Unsupported::PointerToFunctionPointer }),
            },
        }
    }

    /// Registers a function signature: resolves the return type, then the arguments from
    /// left to right, and asks the store for the signature. Stops at the first name or type
    /// that fails.
    pub open spec fn insert_function_metadata(
        self,
        return_type: TypeShape,
        args: Seq<TypeShape>,
        is_constructor: bool,
        cconv: CallingConvention,
        name: Seq<char>,
    ) -> Step<TypeRef> {
        if has_nul(name) {
            Step { state: self, outcome: Err(Fault::BadSymbolName) }
        } else {
            let ret = self.get_or_create_type(return_type);
            match ret.outcome {
                Ok(ret_index) => {
                    let rest = ret.state.resolve_first(args, args.len());
                    match rest.outcome {
                        Ok(arg_indices) => Step {
                            state: rest.state.emit(
                                RequestView::AddFunctionSignature {
                                    name,
                                    return_type: ret_index,
                                    args: arg_indices,
                                    cconv,
                                    is_constructor,
                                },
                            ),
                            outcome: Ok(rest.state.next()),
                        },
                        Err(fault) => Step { state: rest.state, outcome: Err(fault) },
                    }
                },
                Err(fault) => Step { state: ret.state, outcome: Err(fault) },
            }
        }
    }

    /// Resolves the first `count` of `types` from left to right, and stops at the first
    /// that fails.
    pub open spec fn resolve_first(self, types: Seq<TypeShape>, count: nat) -> Step<Seq<TypeRef>>
        decreases count,
    {
        if count == 0 || count > types.len() {
            Step { state: self, outcome: Ok(Seq::empty()) }
        } else {
            let before = self.resolve_first(types, (count - 1) as nat);
            match before.outcome {
                Ok(indices) => {
                    let last = before.state.get_or_create_type(types[count - 1]);
                    match last.outcome {
                        Ok(index) => Step { state: last.state, outcome: Ok(indices.push(index)) },
                        Err(fault) => Step { state: last.state, outcome: Err(fault) },
                    }
                },
                Err(fault) => Step { state: before.state, outcome: Err(fault) },
            }
        }
    }

    /// Appends the first `count` of `fields` to the open field list, from left to right:
    /// resolves the type of each, then asks the store to add it. Stops at the first type
    /// that fails.
    pub open spec fn add_fields(self, fields: Seq<FieldShape>, count: nat) -> Step<()>
        decreases count,
    {
        if count == 0 || count > fields.len() {
            Step { state: self, outcome: Ok(()) }
        } else {
            let before = self.add_fields(fields, (count - 1) as nat);
            match before.outcome {
                Ok(_) => {
                    let field = fields[count - 1];
                    let ty = before.state.get_or_create_type(field.ty);
                    match ty.outcome {
                        Ok(index) => Step {
                            state: ty.state.emit(
                                RequestView::AddField {
                                    ty: index,
                                    offset: field.offset,
                                    name: field.name,
                                },
                            ),
                            outcome: Ok(()),
                        },
                        Err(fault) => Step { state: ty.state, outcome: Err(fault) },
                    }
                },
                Err(fault) => Step { state: before.state, outcome: Err(fault) },
            }
        }
    }

    /// Registers a structure. Every name is checked before the store is asked for
    /// anything. Then a field list is opened, filled and closed, the structure is created
    /// over it, and the cache takes the structure under its name, in place of any structure
    /// registered under that name before.
    pub open spec fn insert_struct(
        self,
        name: Seq<char>,
        fields: Seq<FieldShape>,
        size: u64,
    ) -> Step<()> {
        if has_nul(name) || exists|i: int| 0 <= i < fields.len() && has_nul(#[trigger] fields[i].name) {
            Step { state: self, outcome: Err(Fault::BadSymbolName) }
        } else {
            let filled = self.emit(RequestView::CreateFieldList).add_fields(fields, fields.len());
            match filled.outcome {
                Ok(_) => {
                    let closed = filled.state.emit(RequestView::FinalizeFieldList);
                    let created = closed.emit(
                        RequestView::CreateStruct {
                            name,
                            field_list: filled.state.next(),
                            field_count: fields.len() as u16,
                            size,
                        },
                    );
                    Step {
                        state: created.learn(TypeShape::Struct(name), closed.next()),
                        outcome: Ok(()),
                    }
                },
                Err(fault) => Step { state: filled.state, outcome: Err(fault) },
            }
        }
    }

    /// Adds a global symbol, of the given type if there is one: the type is resolved
    /// first.
    pub open spec fn insert_global(
        self,
        name: Seq<char>,
        section_index: u16,
        section_rva: u32,
        ty: Option<TypeShape>,
    ) -> Step<()> {
        if has_nul(name) {
            Step { state: self, outcome: Err(Fault::BadSymbolName) }
        } else {
            match ty {
                Some(ty) => {
                    let ty = self.get_or_create_type(ty);
                    match ty.outcome {
                        Ok(index) => Step {
                            state: ty.state.emit(
                                RequestView::AddTypedGlobal {
                                    name,
                                    section_index,
                                    section_offset: section_rva,
                                    ty: index,
                                },
                            ),
                            outcome: Ok(()),
                        },
                        Err(fault) => Step { state: ty.state, outcome: Err(fault) },
                    }
                },
                None => Step {
                    state: self.emit(
                        RequestView::AddGlobal { name, section_index, section_offset: section_rva },
                    ),
                    outcome: Ok(()),
                },
            }
        }
    }

    /// Adds a function symbol, of the type with the given index if there is one.
    pub open spec fn insert_function(
        self,
        section_index: u16,
        section_rva: u32,
        name: Seq<char>,
        ty: Option<u32>,
    ) -> Step<()> {
        if has_nul(name) {
            Step { state: self, outcome: Err(Fault::BadSymbolName) }
        } else {
            Step {
                state: self.emit(
                    match ty {
                        Some(type_index) => RequestView::AddTypedFunction {
                            name,
                            section_index,
                            section_offset: section_rva,
                            type_index,
                        },
                        None => RequestView::AddFunction {
                            name,
                            section_index,
                            section_offset: section_rva,
                        },
                    },
                ),
                outcome: Ok(()),
            }
        }
    }

    /// Asks the store to write its output for the given binary.
    pub open spec fn commit(self, binary: Seq<char>, output: Seq<char>) -> Step<()> {
        if has_nul(binary) || has_nul(output) {
            Step { state: self, outcome: Err(Fault::BadSymbolName) }
        } else {
            Step { state: self.emit(RequestView::Commit { binary, output }), outcome: Ok(()) }
        }
    }
}

impl SessionState {
    /// Once a type of the list has failed, the types after it are not looked at: resolving
    /// more of the list ends in the same way.
    pub proof fn lemma_resolve_first_stops(self, types: Seq<TypeShape>, count: nat, more: nat)
        requires
            count <= more <= types.len(),
            self.resolve_first(types, count).outcome is Err,
        ensures
            self.resolve_first(types, more) == self.resolve_first(types, count),
        decreases more,
    {
        if count < more {
            self.lemma_resolve_first_stops(types, count, (more - 1) as nat);
        }
    }

    /// Once the type of a field has failed, the fields after it are not looked at: adding
    /// more of the fields ends in the same way.
    pub proof fn lemma_add_fields_stops(self, fields: Seq<FieldShape>, count: nat, more: nat)
        requires
            count <= more <= fields.len(),
            self.add_fields(fields, count).outcome is Err,
        ensures
            self.add_fields(fields, more) == self.add_fields(fields, count),
        decreases more,
    {
        if count < more {
            self.lemma_add_fields_stops(fields, count, (more - 1) as nat);
        }
    }
}

} // verus!
