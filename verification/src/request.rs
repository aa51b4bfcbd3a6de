use crate::pdb_meta::CallingConvention;
use vstd::prelude::*;

verus! {

/// A reference to a type of the store.
#[derive(Debug, Clone, Copy, PartialEq, Eq, Structural, Hash)]
pub enum TypeRef {
    /// A type index: one that the store has issued, or the code of a simple type.
    Index(u32),
    /// The type index that the store issues in answer to the request at this position of
    /// the queue.
    Pending(usize),
}

impl TypeRef {
    /// The type index behind this reference, once the store has answered the first
    /// `answers.len()` requests of the queue with `answers`.
    pub open spec fn spec_value(self, answers: Seq<u32>) -> Option<u32> {
        match self {
            TypeRef::Index(index) => Some(index),
            TypeRef::Pending(position) => if position < answers.len() {
                Some(answers[position as int])
            } else {
                None
            },
        }
    }

    /// Returns the type index behind this reference, given the store's answers to the
    /// requests of the queue so far, in order; `None` while the request that this reference
    /// waits for has no answer among them.
    pub fn value(self, answers: &[u32]) -> (index: Option<u32>)
        ensures
            index == self.spec_value(answers@),
    {
        match self {
            TypeRef::Index(index) => Some(index),
            TypeRef::Pending(position) => if position < answers.len() {
                Some(answers[position])
            } else {
                None
            },
        }
    }

    /// This reference with the store's answers filled in: a reference that waited for one of
    /// them becomes the index that was issued, any other stays as it is.
    pub open spec fn spec_settled(self, answers: Seq<u32>) -> TypeRef {
        match self.spec_value(answers) {
            Some(index) => TypeRef::Index(index),
            None => self,
        }
    }

    /// Returns this reference with the store's answers filled in.
    pub fn settled(self, answers: &[u32]) -> (settled: TypeRef)
        ensures
            settled == self.spec_settled(answers@),
    {
        match self.value(answers) {
            Some(index) => TypeRef::Index(index),
            None => self,
        }
    }
}

/// One call that the session asks its store to make.
#[derive(Debug, PartialEq, Eq)]
pub enum Request {
    /// Create a pointer type; the store answers with its index.
    AddPointer { pointee: TypeRef },
    /// Create an array type of `length` elements; the store answers with its index.
    AddArray { element: TypeRef, length: u64 },
    /// Create a function signature; the store answers with its index.
    AddFunctionSignature {
        name: String,
        return_type: TypeRef,
        args: Vec<TypeRef>,
        cconv: CallingConvention,
        is_constructor: bool,
    },
    /// Open a new, empty field list.
    CreateFieldList,
    /// Append a field to the open field list.
    AddField { ty: TypeRef, offset: u64, name: String },
    /// Close the open field list into a record; the store answers with its index.
    FinalizeFieldList,
    /// Create a structure type over a field list record; the store answers with its index.
    CreateStruct { name: String, field_list: TypeRef, field_count: u16, size: u64 },
    /// Add a global symbol without a type.
    AddGlobal { name: String, section_index: u16, section_offset: u32 },
    /// Add a global symbol of the given type.
    AddTypedGlobal { name: String, section_index: u16, section_offset: u32, ty: TypeRef },
    /// Add a function symbol without a type.
    AddFunction { name: String, section_index: u16, section_offset: u32 },
    /// Add a function symbol of the given type.
    AddTypedFunction { name: String, section_index: u16, section_offset: u32, type_index: u32 },
    /// Write everything that was added as the debug information of `binary`, to `output`.
    Commit { binary: String, output: String },
}

/// What a [`Request`] asks for, as a mathematical value.
pub enum RequestView {
    AddPointer { pointee: TypeRef },
    AddArray { element: TypeRef, length: u64 },
    AddFunctionSignature {
        name: Seq<char>,
        return_type: TypeRef,
        args: Seq<TypeRef>,
        cconv: CallingConvention,
        is_constructor: bool,
    },
    CreateFieldList,
    AddField { ty: TypeRef, offset: u64, name: Seq<char> },
    FinalizeFieldList,
    CreateStruct { name: Seq<char>, field_list: TypeRef, field_count: u16, size: u64 },
    AddGlobal { name: Seq<char>, section_index: u16, section_offset: u32 },
    AddTypedGlobal { name: Seq<char>, section_index: u16, section_offset: u32, ty: TypeRef },
    AddFunction { name: Seq<char>, section_index: u16, section_offset: u32 },
    AddTypedFunction {
        name: Seq<char>,
        section_index: u16,
        section_offset: u32,
        type_index: u32,
    },
    Commit { binary: Seq<char>, output: Seq<char> },
}

impl View for Request {
    type V = RequestView;

    open spec fn view(&self) -> RequestView {
        match self {
            Request::AddPointer { pointee } => RequestView::AddPointer { pointee: *pointee },
            Request::AddArray { element, length } => RequestView::AddArray {
                element: *element,
                length: *length,
            },
            Request::AddFunctionSignature { name, return_type, args, cconv, is_constructor } => {
                RequestView::AddFunctionSignature {
                    name: name@,
                    return_type: *return_type,
                    args: args@,
                    cconv: *cconv,
                    is_constructor: *is_constructor,
                }
            },
            Request::CreateFieldList => RequestView::CreateFieldList,
            Request::AddField { ty, offset, name } => RequestView::AddField {
                ty: *ty,
                offset: *offset,
                name: name@,
            },
            Request::FinalizeFieldList => RequestView::FinalizeFieldList,
            Request::CreateStruct { name, field_list, field_count, size } => {
                RequestView::CreateStruct {
                    name: name@,
                    field_list: *field_list,
                    field_count: *field_count,
                    size: *size,
                }
            },
            Request::AddGlobal { name, section_index, section_offset } => RequestView::AddGlobal {
                name: name@,
                section_index: *section_index,
                section_offset: *section_offset,
            },
            Request::AddTypedGlobal { name, section_index, section_offset, ty } => {
                RequestView::AddTypedGlobal {
                    name: name@,
                    section_index: *section_index,
                    section_offset: *section_offset,
                    ty: *ty,
                }
            },
            Request::AddFunction { name, section_index, section_offset } => {
                RequestView::AddFunction {
                    name: name@,
                    section_index: *section_index,
                    section_offset: *section_offset,
                }
            },
            Request::AddTypedFunction { name, section_index, section_offset, type_index } => {
                RequestView::AddTypedFunction {
                    name: name@,
                    section_index: *section_index,
                    section_offset: *section_offset,
                    type_index: *type_index,
                }
            },
            Request::Commit { binary, output } => RequestView::Commit {
                binary: binary@,
                output: output@,
            },
        }
    }
}

/// What a list of requests asks for, in order.
pub open spec fn request_views(requests: Seq<Request>) -> Seq<RequestView> {
    Seq::new(requests.len(), |i: int| requests[i]@)
}

impl RequestView {
    /// Whether the store answers this request with a type index.
    pub open spec fn yields_index(self) -> bool {
        self is AddPointer || self is AddArray || self is AddFunctionSignature
            || self is FinalizeFieldList || self is CreateStruct
    }

    /// The references to types that this request hands to the store.
    pub open spec fn operands(self) -> Seq<TypeRef> {
        match self {
            RequestView::AddPointer { pointee } => seq![pointee],
            RequestView::AddArray { element, .. } => seq![element],
            RequestView::AddFunctionSignature { return_type, args, .. } => seq![return_type] + args,
            RequestView::AddField { ty, .. } => seq![ty],
            RequestView::CreateStruct { field_list, .. } => seq![field_list],
            RequestView::AddTypedGlobal { ty, .. } => seq![ty],
            _ => Seq::empty(),
        }
    }
}

} // verus!
