use crate::cache::TypeCache;
use crate::descriptor::{describe, field_shapes, optional_shape, shapes, PDBType, StructField};
use crate::error::{agrees, matches_outcome, Error, Stop, Unsupported};
use crate::model::{Fault, SessionState};
use crate::names::{contains_nul, has_nul};
use crate::pdb_meta::CallingConvention;
use crate::request::{request_views, Request, TypeRef};
use vstd::pervasive::unreached;
use vstd::prelude::*;
use vstd::string::StringExecFns;

verus! {

/// A session with one store of debug information.
///
/// The session makes no call itself. Each operation appends to a queue the requests that
/// the store is to carry out, in order; whoever drives the store carries them out, and hands
/// the store's answers to [`PDB::settle`].
pub struct PDB {
    types: TypeCache,
    requests: Vec<Request>,
}

impl View for PDB {
    type V = SessionState;

    closed spec fn view(&self) -> SessionState {
        SessionState { cache: self.types@, requests: request_views(self.requests@) }
    }
}

impl PDB {
    /// Starts a session, given whether its store could be created.
    pub fn new(created: bool) -> (session: Result<PDB, Error>)
        ensures
            created ==> (session matches Ok(pdb) && pdb@ == SessionState::empty() && pdb@.wf()),
            !created ==> session == Err::<PDB, Error>(Error::LLVMError),
    {
        if created {
            let pdb = PDB { types: TypeCache::new(), requests: Vec::new() };
            assert(pdb@.requests =~= Seq::empty());
            proof {
                SessionState::lemma_empty_is_well_formed();
            }
            Ok(pdb)
        } else {
            Err(Error::LLVMError)
        }
    }

    /// The queue of a session is never longer than its positions can count.
    pub proof fn lemma_queue_is_numbered(&self)
        ensures
            self@.requests.len() <= usize::MAX,
    {
        assert(self.requests.len() == self.requests@.len());
    }

    /// Returns the queue: the requests that the store has not answered yet, oldest first.
    pub fn requests(&self) -> (queue: &Vec<Request>)
        ensures
            request_views(queue@) == self@.requests,
    {
        &self.requests
    }

    /// Takes the store's answers to the queue, the answer to the request at position `i`
    /// at `answers[i]`, where a request that yields no index may have any number for its
    /// answer. The cache then holds the indices that were issued, and the queue is empty.
    /// Nothing happens unless there is one answer for each request.
    pub fn settle(&mut self, answers: &[u32]) -> (settled: bool)
        ensures
            settled == (answers@.len() == old(self)@.requests.len()),
            settled ==> final(self)@ == old(self)@.settle(answers@),
            !settled ==> final(self)@ == old(self)@,
            old(self)@.wf() ==> final(self)@.wf(),
    {
        if answers.len() != self.requests.len() {
            return false;
        }
        proof {
            if self@.wf() {
                self@.lemma_settle(answers@);
            }
        }
        self.types.settle(answers);
        self.requests.clear();
        assert(self@.requests =~= Seq::empty());
        true
    }

    /// Appends a request to the queue, and returns the reference to its answer.
    fn emit(&mut self, request: Request) -> (answer: TypeRef)
        ensures
            final(self)@ == old(self)@.emit(request@),
            answer == old(self)@.next(),
    {
        let answer = TypeRef::Pending(self.requests.len());
        self.requests.push(request);
        assert(self@.requests =~= old(self)@.requests.push(request@));
        answer
    }

    /// Records the reference of a type in the cache.
    fn learn(&mut self, ty: &PDBType, index: TypeRef)
        ensures
            final(self)@ == old(self)@.learn(ty@, index),
    {
        self.types.insert(ty.clone(), index);
    }

    /// Tells whether a type is known already.
    pub fn is_existing_type(&self, ty: &PDBType) -> (known: bool)
        ensures
            known == self@.lookup(ty@) is Some,
    {
        self.types.lookup(ty).is_some()
    }

    /// Returns the reference under which a type is known already: the code of a simple
    /// type, or what the cache holds.
    pub fn get_existing_type(&self, ty: &PDBType) -> (found: Option<TypeRef>)
        ensures
            found == self@.lookup(ty@),
    {
        self.types.lookup(ty)
    }

    /// Resolves a type, whatever it is.
    fn resolve(&mut self, ty: &PDBType) -> (result: Result<TypeRef, Stop>)
        ensures
            final(self)@ == old(self)@.get_or_create_type(ty@).state,
            matches_outcome(result, old(self)@.get_or_create_type(ty@).outcome),
        decreases ty@, 2nat,
    {
        if let Some(index) = self.get_existing_type(ty) {
            return Ok(index);
        }
        self.create_type(ty)
    }

    /// Asks the store to create a type that is not known yet: a pointer over its pointee,
    /// which is then cached, or an array over its element, which is not.
    fn create_type(&mut self, ty: &PDBType) -> (result: Result<TypeRef, Stop>)
        ensures
            final(self)@ == old(self)@.create_type(ty@).state,
            matches_outcome(result, old(self)@.create_type(ty@).outcome),
        decreases ty@, 1nat,
    {
        match ty {
            PDBType::Pointer(inner) => {
                let pointee = match self.pointee(inner) {
                    Ok(index) => index,
                    Err(stop) => {
                        return Err(stop);
                    },
                };
                let created = self.emit(Request::AddPointer { pointee });
                self.learn(ty, created);
                Ok(created)
            },
            PDBType::ConstantArray(element, length) => {
                let element = match self.resolve(element) {
                    Ok(index) => index,
                    Err(stop) => {
                        return Err(stop);
                    },
                };
                Ok(self.emit(Request::AddArray { element, length: *length as u64 }))
            },
            _ => Err(Stop::Failed(Error::BadType { ty: describe(ty) })),
        }
    }

    /// Resolves the type that a pointer points to.
    fn pointee(&mut self, to: &PDBType) -> (result: Result<TypeRef, Stop>)
        ensures
            final(self)@ == old(self)@.pointee(to@).state,
            matches_outcome(result, old(self)@.pointee(to@).outcome),
        decreases to@, 3nat,
    {
        match to {
            PDBType::SimpleType(kind) => Ok(TypeRef::Index(kind.code())),
            PDBType::Struct(name) => match self.get_existing_type(to) {
                Some(index) => Ok(index),
                None => Err(Stop::Failed(Error::UnknownType { ty: name.clone() })),
            },
            PDBType::Pointer(_) => self.resolve(to),
            PDBType::ConstantArray(_, _) => Err(Stop::Unsupported(Unsupported::PointerToArray)),
            PDBType::FunctionPointer { .. } => Err(
                Stop::Unsupported(Unsupported::PointerToFunctionPointer),
            ),
        }
    }

    /// Registers a function signature, whatever its types are.
    #[verifier::loop_isolation(false)]
    fn register_signature(
        &mut self,
        return_type: &PDBType,
        args: &[PDBType],
        is_constructor: bool,
        cconv: CallingConvention,
        name: &str,
    ) -> (result: Result<TypeRef, Stop>)
        ensures
            final(self)@ == old(self)@.insert_function_metadata(
                return_type@,
                shapes(args@),
                is_constructor,
                cconv,
                name@,
            ).state,
            matches_outcome(
                result,
                old(self)@.insert_function_metadata(
                    return_type@,
                    shapes(args@),
                    is_constructor,
                    cconv,
                    name@,
                ).outcome,
            ),
    {
        let ghost types = shapes(args@);
        if contains_nul(name) {
            return Err(Stop::Failed(Error::BadSymbolName));
        }
        let ret = match self.resolve(return_type) {
            Ok(index) => index,
            Err(stop) => {
                return Err(stop);
            },
        };
        let ghost start = self@;
        let mut indices: Vec<TypeRef> = Vec::new();
        let mut i: usize = 0;
        while i < args.len()
            invariant
                i <= args.len(),
                self@ == start.resolve_first(types, i as nat).state,
                start.resolve_first(types, i as nat).outcome == Ok::<Seq<TypeRef>, Fault>(
                    indices@,
                ),
            decreases args.len() - i,
        {
            proof {
                assert(types[i as int] == args@[i as int]@);
                if start.resolve_first(types, (i + 1) as nat).outcome is Err {
                    start.lemma_resolve_first_stops(types, (i + 1) as nat, types.len());
                }
            }
            match self.resolve(&args[i]) {
                Ok(index) => {
                    indices.push(index);
                },
                Err(stop) => {
                    return Err(stop);
                },
            }
            i += 1;
        }
        Ok(
            self.emit(
                Request::AddFunctionSignature {
                    name: String::from_str(name),
                    return_type: ret,
                    args: indices,
                    cconv,
                    is_constructor,
                },
            ),
        )
    }

    /// Registers a structure, whatever the types of its fields are.
    #[verifier::loop_isolation(false)]
    fn register_struct(&mut self, name: &str, fields: &[StructField], size: u64) -> (result:
        Result<(), Stop>)
        ensures
            final(self)@ == old(self)@.insert_struct(name@, field_shapes(fields@), size).state,
            matches_outcome(
                result,
                old(self)@.insert_struct(name@, field_shapes(fields@), size).outcome,
            ),
    {
        let ghost members = field_shapes(fields@);
        if contains_nul(name) {
            return Err(Stop::Failed(Error::BadSymbolName));
        }
        let mut i: usize = 0;
        while i < fields.len()
            invariant
                i <= fields.len(),
                forall|j: int| 0 <= j < i ==> !has_nul(#[trigger] members[j].name),
            decreases fields.len() - i,
        {
            if contains_nul(fields[i].name.as_str()) {
                assert(has_nul(members[i as int].name));
                return Err(Stop::Failed(Error::BadSymbolName));
            }
            i += 1;
        }
        self.emit(Request::CreateFieldList);
        let ghost start = self@;
        let mut i: usize = 0;
        while i < fields.len()
            invariant
                i <= fields.len(),
                self@ == start.add_fields(members, i as nat).state,
                start.add_fields(members, i as nat).outcome is Ok,
            decreases fields.len() - i,
        {
            proof {
                assert(members[i as int] == fields@[i as int]@);
                if start.add_fields(members, (i + 1) as nat).outcome is Err {
                    start.lemma_add_fields_stops(members, (i + 1) as nat, members.len());
                }
            }
            let ty = match self.resolve(&fields[i].ty) {
                Ok(index) => index,
                Err(stop) => {
                    return Err(stop);
                },
            };
            self.emit(
                Request::AddField { ty, offset: fields[i].offset, name: fields[i].name.clone() },
            );
            i += 1;
        }
        let field_list = self.emit(Request::FinalizeFieldList);
        let created = self.emit(
            Request::CreateStruct {
                name: String::from_str(name),
                field_list,
                field_count: #[verifier::truncate] (fields.len() as u16),
                size,
            },
        );
        self.learn(&PDBType::Struct(String::from_str(name)), created);
        Ok(())
    }

    /// Adds a global symbol, whatever its type is.
    fn add_global(
        &mut self,
        name: &str,
        section_index: u16,
        section_rva: u32,
        ty: &Option<PDBType>,
    ) -> (result: Result<(), Stop>)
        ensures
            final(self)@ == old(self)@.insert_global(
                name@,
                section_index,
                section_rva,
                optional_shape(*ty),
            ).state,
            matches_outcome(
                result,
                old(self)@.insert_global(
                    name@,
                    section_index,
                    section_rva,
                    optional_shape(*ty),
                ).outcome,
            ),
    {
        if contains_nul(name) {
            return Err(Stop::Failed(Error::BadSymbolName));
        }
        match ty {
            Some(ty) => {
                let ty = match self.resolve(ty) {
                    Ok(index) => index,
                    Err(stop) => {
                        return Err(stop);
                    },
                };
                self.emit(
                    Request::AddTypedGlobal {
                        name: String::from_str(name),
                        section_index,
                        section_offset: section_rva,
                        ty,
                    },
                );
            },
            None => {
                self.emit(
                    Request::AddGlobal {
                        name: String::from_str(name),
                        section_index,
                        section_offset: section_rva,
                    },
                );
            },
        }
        Ok(())
    }

    /// Takes the error out of a stop that is known to be one.
    fn failed<T>(result: Result<T, Stop>) -> (failed: Result<T, Error>)
        requires
            !(result matches Err(stop) && stop is Unsupported),
        ensures
            match result {
                Ok(value) => failed == Ok::<T, Error>(value),
                Err(Stop::Failed(error)) => failed == Err::<T, Error>(error),
                Err(Stop::Unsupported(_)) => false,
            },
    {
        match result {
            Ok(value) => Ok(value),
            Err(Stop::Failed(error)) => Err(error),
            Err(Stop::Unsupported(_)) => unreached(),
        }
    }

    /// Resolves a type to a reference: the one under which it is known, or else the one of
    /// a type that the store is asked to create for it. Takes every type: where resolving
    /// comes to a pointer to an array or to a function signature, it stops there, and says
    /// so.
    pub fn try_get_or_create_type(&mut self, ty: &PDBType) -> (result: Result<TypeRef, Stop>)
        ensures
            final(self)@ == old(self)@.get_or_create_type(ty@).state,
            matches_outcome(result, old(self)@.get_or_create_type(ty@).outcome),
            old(self)@.wf() ==> final(self)@.wf(),
    {
        let result = self.resolve(ty);
        proof {
            self.lemma_queue_is_numbered();
            old(self)@.lemma_get_or_create_type(ty@);
        }
        result
    }

    /// Resolves a type to a reference: the one under which it is known, or else the one of
    /// a type that the store is asked to create for it.
    ///
    /// A pointer to an array or to a function signature cannot be created, and the caller
    /// sees to it that resolving does not come to one. It never does for a type of which
    /// [`PDBType::is_supported`] holds.
    pub fn get_or_create_type(&mut self, ty: &PDBType) -> (result: Result<TypeRef, Error>)
        requires
            old(self)@.get_or_create_type(ty@).defined(),
        ensures
            final(self)@ == old(self)@.get_or_create_type(ty@).state,
            agrees(result, old(self)@.get_or_create_type(ty@).outcome),
            old(self)@.wf() ==> final(self)@.wf(),
    {
        PDB::failed(self.try_get_or_create_type(ty))
    }

    /// Registers a function signature: resolves the return type, then the arguments from
    /// left to right, and asks the store for the signature. Stops at the first name or type
    /// that fails; what was asked of the store until then stays in the queue. Takes every
    /// type: where resolving comes to a pointer to an array or to a function signature, it
    /// stops there, and says so.
    pub fn try_insert_function_metadata(
        &mut self,
        return_type: &PDBType,
        args: &[PDBType],
        is_constructor: bool,
        cconv: CallingConvention,
        name: &str,
    ) -> (result: Result<TypeRef, Stop>)
        ensures
            final(self)@ == old(self)@.insert_function_metadata(
                return_type@,
                shapes(args@),
                is_constructor,
                cconv,
                name@,
            ).state,
            matches_outcome(
                result,
                old(self)@.insert_function_metadata(
                    return_type@,
                    shapes(args@),
                    is_constructor,
                    cconv,
                    name@,
                ).outcome,
            ),
            old(self)@.wf() ==> final(self)@.wf(),
    {
        let result = self.register_signature(return_type, args, is_constructor, cconv, name);
        proof {
            self.lemma_queue_is_numbered();
            old(self)@.lemma_insert_function_metadata(
                return_type@,
                shapes(args@),
                is_constructor,
                cconv,
                name@,
            );
        }
        result
    }

    /// Registers a function signature: resolves the return type, then the arguments from
    /// left to right, and asks the store for the signature. Stops at the first name or type
    /// that fails; what was asked of the store until then stays in the queue.
    ///
    /// The caller sees to it that resolving does not come to a pointer to an array or to a
    /// function signature.
    pub fn insert_function_metadata(
        &mut self,
        return_type: &PDBType,
        args: &[PDBType],
        is_constructor: bool,
        cconv: CallingConvention,
        name: &str,
    ) -> (result: Result<TypeRef, Error>)
        requires
            old(self)@.insert_function_metadata(
                return_type@,
                shapes(args@),
                is_constructor,
                cconv,
                name@,
            ).defined(),
        ensures
            final(self)@ == old(self)@.insert_function_metadata(
                return_type@,
                shapes(args@),
                is_constructor,
                cconv,
                name@,
            ).state,
            agrees(
                result,
                old(self)@.insert_function_metadata(
                    return_type@,
                    shapes(args@),
                    is_constructor,
                    cconv,
                    name@,
                ).outcome,
            ),
            old(self)@.wf() ==> final(self)@.wf(),
    {
        PDB::failed(
            self.try_insert_function_metadata(return_type, args, is_constructor, cconv, name),
        )
    }

    /// Registers a structure. Every name is checked before the store is asked for
    /// anything. Then a field list is opened, filled from left to right and closed, the
    /// structure is created over it, and the cache takes the structure under its name, in
    /// place of any structure registered under that name before. Stops at the first field
    /// whose type fails; what was asked of the store until then stays in the queue. Takes
    /// every type: where resolving comes to a pointer to an array or to a function
    /// signature, it stops there, and says so.
    pub fn try_insert_struct(&mut self, name: &str, fields: &[StructField], size: u64) -> (result:
        Result<(), Stop>)
        ensures
            final(self)@ == old(self)@.insert_struct(name@, field_shapes(fields@), size).state,
            matches_outcome(
                result,
                old(self)@.insert_struct(name@, field_shapes(fields@), size).outcome,
            ),
            old(self)@.wf() ==> final(self)@.wf(),
    {
        let result = self.register_struct(name, fields, size);
        proof {
            self.lemma_queue_is_numbered();
            old(self)@.lemma_insert_struct(name@, field_shapes(fields@), size);
        }
        result
    }

    /// Registers a structure. Every name is checked before the store is asked for
    /// anything. Then a field list is opened, filled from left to right and closed, the
    /// structure is created over it, and the cache takes the structure under its name, in
    /// place of any structure registered under that name before. Stops at the first field
    /// whose type fails; what was asked of the store until then stays in the queue.
    ///
    /// The caller sees to it that resolving does not come to a pointer to an array or to a
    /// function signature.
    pub fn insert_struct(&mut self, name: &str, fields: &[StructField], size: u64) -> (result:
        Result<(), Error>)
        requires
            old(self)@.insert_struct(name@, field_shapes(fields@), size).defined(),
        ensures
            final(self)@ == old(self)@.insert_struct(name@, field_shapes(fields@), size).state,
            agrees(result, old(self)@.insert_struct(name@, field_shapes(fields@), size).outcome),
            old(self)@.wf() ==> final(self)@.wf(),
    {
        PDB::failed(self.try_insert_struct(name, fields, size))
    }

    /// Adds a global symbol, of the given type if there is one: the type is resolved
    /// first. Takes every type: where resolving comes to a pointer to an array or to a
    /// function signature, it stops there, and says so.
    pub fn try_insert_global(
        &mut self,
        name: &str,
        section_index: u16,
        section_rva: u32,
        ty: Option<PDBType>,
    ) -> (result: Result<(), Stop>)
        ensures
            final(self)@ == old(self)@.insert_global(
                name@,
                section_index,
                section_rva,
                optional_shape(ty),
            ).state,
            matches_outcome(
                result,
                old(self)@.insert_global(
                    name@,
                    section_index,
                    section_rva,
                    optional_shape(ty),
                ).outcome,
            ),
            old(self)@.wf() ==> final(self)@.wf(),
    {
        let result = self.add_global(name, section_index, section_rva, &ty);
        proof {
            self.lemma_queue_is_numbered();
            old(self)@.lemma_insert_global(name@, section_index, section_rva, optional_shape(ty));
        }
        result
    }

    /// Adds a global symbol, of the given type if there is one: the type is resolved
    /// first.
    ///
    /// The caller sees to it that resolving does not come to a pointer to an array or to a
    /// function signature.
    pub fn insert_global(
        &mut self,
        name: &str,
        section_index: u16,
        section_rva: u32,
        ty: Option<PDBType>,
    ) -> (result: Result<(), Error>)
        requires
            old(self)@.insert_global(name@, section_index, section_rva, optional_shape(ty)).defined(),
        ensures
            final(self)@ == old(self)@.insert_global(
                name@,
                section_index,
                section_rva,
                optional_shape(ty),
            ).state,
            agrees(
                result,
                old(self)@.insert_global(
                    name@,
                    section_index,
                    section_rva,
                    optional_shape(ty),
                ).outcome,
            ),
            old(self)@.wf() ==> final(self)@.wf(),
    {
        PDB::failed(self.try_insert_global(name, section_index, section_rva, ty))
    }

    /// Adds a function symbol, of the type with the given index if there is one.
    pub fn insert_function(
        &mut self,
        section_index: u16,
        section_rva: u32,
        name: &str,
        ty: Option<u32>,
    ) -> (result: Result<(), Error>)
        ensures
            final(self)@ == old(self)@.insert_function(section_index, section_rva, name@, ty).state,
            agrees(
                result,
                old(self)@.insert_function(section_index, section_rva, name@, ty).outcome,
            ),
            old(self)@.wf() ==> final(self)@.wf(),
    {
        if contains_nul(name) {
            return Err(Error::BadSymbolName);
        }
        match ty {
            Some(type_index) => {
                self.emit(
                    Request::AddTypedFunction {
                        name: String::from_str(name),
                        section_index,
                        section_offset: section_rva,
                        type_index,
                    },
                );
            },
            None => {
                self.emit(
                    Request::AddFunction {
                        name: String::from_str(name),
                        section_index,
                        section_offset: section_rva,
                    },
                );
            },
        }
        proof {
            self.lemma_queue_is_numbered();
            old(self)@.lemma_insert_function(section_index, section_rva, name@, ty);
        }
        Ok(())
    }

    /// Asks the store to write everything that was added as the debug information of
    /// `binary`, to `output`. What the store answers goes to [`PDB::commit_outcome`].
    pub fn commit(&mut self, binary: &str, output: &str) -> (result: Result<(), Error>)
        ensures
            final(self)@ == old(self)@.commit(binary@, output@).state,
            agrees(result, old(self)@.commit(binary@, output@).outcome),
            old(self)@.wf() ==> final(self)@.wf(),
    {
        if contains_nul(binary) || contains_nul(output) {
            return Err(Error::BadSymbolName);
        }
        self.emit(
            Request::Commit { binary: String::from_str(binary), output: String::from_str(output) },
        );
        proof {
            self.lemma_queue_is_numbered();
            old(self)@.lemma_commit(binary@, output@);
        }
        Ok(())
    }

    /// Reads the status with which the store answers a commit: 1 says that the output was
    /// written, any other number that it was not.
    pub fn commit_outcome(status: i32) -> (result: Result<(), Error>)
        ensures
            status == 1 ==> result is Ok,
            status != 1 ==> result == Err::<(), Error>(Error::LLVMError),
    {
        if status == 1 {
            Ok(())
        } else {
            Err(Error::LLVMError)
        }
    }
}

} // verus!
