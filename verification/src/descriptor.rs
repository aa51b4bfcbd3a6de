use crate::pdb_meta::{CallingConvention, SimpleTypeKind};
use vstd::prelude::*;
use vstd::std_specs::cmp::PartialEqSpecImpl;

verus! {

/// The description of a type, before any store knows it.
///
/// Any description can be written down. Whether it stands for a type shows when a session
/// resolves it.
#[derive(Debug, Hash)]
pub enum PDBType {
    /// A pointer to the described type.
    Pointer(Box<PDBType>),
    /// One of the built-in scalar kinds.
    SimpleType(SimpleTypeKind),
    /// The structure that is registered under this name.
    Struct(String),
    /// An array of the given number of elements of the described type.
    ConstantArray(Box<PDBType>, usize),
    /// The signature of a function: a return type, the types of the arguments and a
    /// calling convention. It is registered with a session, and not resolved.
    FunctionPointer { ret: Box<PDBType>, args: Vec<PDBType>, cconv: CallingConvention },
}

/// What a [`PDBType`] describes, as a mathematical value.
pub enum TypeShape {
    /// A pointer to the type of the given shape.
    Pointer(Box<TypeShape>),
    /// A built-in scalar kind.
    SimpleType(SimpleTypeKind),
    /// The structure that is registered under this name.
    Struct(Seq<char>),
    /// An array of the given number of elements.
    ConstantArray(Box<TypeShape>, usize),
    /// The signature of a function.
    FunctionPointer { ret: Box<TypeShape>, args: Seq<TypeShape>, cconv: CallingConvention },
}

/// One member of a structure.
#[derive(Debug)]
pub struct StructField {
    /// The member's type.
    pub ty: PDBType,
    /// The member's name.
    pub name: String,
    /// Where the member starts, in bytes from the start of the structure.
    pub offset: u64,
}

/// What a [`StructField`] describes, as a mathematical value.
pub struct FieldShape {
    pub ty: TypeShape,
    pub name: Seq<char>,
    pub offset: u64,
}

impl View for StructField {
    type V = FieldShape;

    open spec fn view(&self) -> FieldShape {
        FieldShape { ty: self.ty@, name: self.name@, offset: self.offset }
    }
}

/// The shapes of a list of descriptions, in order.
pub open spec fn shapes(types: Seq<PDBType>) -> Seq<TypeShape> {
    Seq::new(types.len(), |i: int| types[i]@)
}

/// The shapes of a list of fields, in order.
pub open spec fn field_shapes(fields: Seq<StructField>) -> Seq<FieldShape> {
    Seq::new(fields.len(), |i: int| fields[i]@)
}

/// The shape of a description that may be absent.
pub open spec fn optional_shape(ty: Option<PDBType>) -> Option<TypeShape> {
    match ty {
        Some(ty) => Some(ty@),
        None => None,
    }
}

/// The text that `{:?}` prints for a description of the given shape.
pub uninterp spec fn debug_text(ty: TypeShape) -> Seq<char>;

/// Formats a description with `format!` and `{:?}`, through the `Debug` impl that is
/// derived for [`PDBType`].
///
/// Not proved: that the text is [`debug_text`] of the description's shape. The derived impl
/// prints the variants and what they hold and nothing else, so that two descriptions of one
/// shape give one text.
#[verifier::external_body]
pub(crate) fn describe(ty: &PDBType) -> (text: String)
    ensures
        text@ == debug_text(ty@),
{
    format!("{:?}", ty)
}

impl TypeShape {
    /// Whether no pointer in this shape points to an array or to a function signature. A
    /// session can resolve every type of which this holds without meeting a composition that
    /// it has no request for.
    pub open spec fn supported(self) -> bool
        decreases self,
    {
        match self {
            TypeShape::Pointer(to) => !(*to is ConstantArray) && !(*to is FunctionPointer)
                && to.supported(),
            TypeShape::ConstantArray(element, _) => element.supported(),
            TypeShape::FunctionPointer { ret, args, .. } => ret.supported() && forall|i: int|
                0 <= i < args.len() ==> (#[trigger] args[i]).supported(),
            _ => true,
        }
    }

    /// Whether descriptions of this shape can be found again in a cache: the shape is a
    /// simple type or a structure's name under any number of pointers.
    pub open spec fn cacheable(self) -> bool
        decreases self,
    {
        match self {
            TypeShape::Pointer(to) => to.cacheable(),
            TypeShape::SimpleType(_) => true,
            TypeShape::Struct(_) => true,
            _ => false,
        }
    }
}

impl TypeShape {
    /// The equality under which descriptions are cached. Two simple types are the same when
    /// their kinds are, two structures when their names are, two pointers when their pointees
    /// are; an array or a function signature is the same as nothing, itself included.
    pub open spec fn same_as(self, other: TypeShape) -> bool
        decreases self,
    {
        match (self, other) {
            (TypeShape::Struct(first), TypeShape::Struct(second)) => first == second,
            (TypeShape::SimpleType(first), TypeShape::SimpleType(second)) => first == second,
            (TypeShape::Pointer(first), TypeShape::Pointer(second)) => first.same_as(*second),
            (_, _) => false,
        }
    }

    /// Being the same is symmetric and transitive, and it is reflexive on the shapes that
    /// can be found again in a cache, and on no others.
    pub proof fn lemma_same_as_is_a_partial_equivalence(a: TypeShape, b: TypeShape, c: TypeShape)
        ensures
            a.same_as(b) ==> b.same_as(a),
            a.same_as(b) && b.same_as(c) ==> a.same_as(c),
            a.same_as(a) <==> a.cacheable(),
    {
        a.lemma_same_as(b);
        b.lemma_same_as(a);
        b.lemma_same_as(c);
        a.lemma_same_as(c);
        a.lemma_same_as(a);
    }

    /// Two shapes are the same for the cache exactly when they are equal and cacheable.
    pub proof fn lemma_same_as(self, other: TypeShape)
        ensures
            self.same_as(other) <==> self == other && self.cacheable(),
        decreases self,
    {
        match (self, other) {
            (TypeShape::Pointer(first), TypeShape::Pointer(second)) => {
                first.lemma_same_as(*second);
            },
            (_, _) => {},
        }
    }
}

impl PDBType {
    /// The shape that this description has.
    pub open spec fn shape(&self) -> TypeShape
        decreases self,
    {
        match self {
            PDBType::Pointer(to) => TypeShape::Pointer(Box::new(to.shape())),
            PDBType::SimpleType(kind) => TypeShape::SimpleType(*kind),
            PDBType::Struct(name) => TypeShape::Struct(name@),
            PDBType::ConstantArray(element, length) => TypeShape::ConstantArray(
                Box::new(element.shape()),
                *length,
            ),
            PDBType::FunctionPointer { ret, args, cconv } => TypeShape::FunctionPointer {
                ret: Box::new(ret.shape()),
                args: Seq::new(
                    args@.len(),
                    |i: int|
                        if 0 <= i < args@.len() {
                            args@[i].shape()
                        } else {
                            TypeShape::SimpleType(SimpleTypeKind::NoType)
                        },
                ),
                cconv: *cconv,
            },
        }
    }
}

impl View for PDBType {
    type V = TypeShape;

    open spec fn view(&self) -> TypeShape {
        self.shape()
    }
}

impl PDBType {
    /// Tells whether this description can be found again in a cache.
    pub fn is_cacheable(&self) -> (cacheable: bool)
        ensures
            cacheable == self@.cacheable(),
        decreases self,
    {
        match self {
            PDBType::Pointer(to) => to.is_cacheable(),
            PDBType::SimpleType(_) => true,
            PDBType::Struct(_) => true,
            _ => false,
        }
    }

    /// Tells whether no pointer in this description points to an array or to a function
    /// signature.
    pub fn is_supported(&self) -> (supported: bool)
        ensures
            supported == self@.supported(),
        decreases self,
    {
        match self {
            PDBType::Pointer(to) => {
                let pointable = match **to {
                    PDBType::ConstantArray(_, _) => false,
                    PDBType::FunctionPointer { .. } => false,
                    _ => true,
                };
                pointable && to.is_supported()
            },
            PDBType::ConstantArray(element, _) => element.is_supported(),
            PDBType::FunctionPointer { ret, args, .. } => {
                if !ret.is_supported() {
                    return false;
                }
                let mut i: usize = 0;
                while i < args.len()
                    invariant
                        i <= args.len(),
                        forall|j: int| 0 <= j < i ==> (#[trigger] args@[j])@.supported(),
                        self matches PDBType::FunctionPointer { args: a, .. } && a == args,
                    decreases args.len() - i,
                {
                    if !args[i].is_supported() {
                        assert(self@->args[i as int] == args@[i as int]@);
                        return false;
                    }
                    i += 1;
                }
                assert forall|j: int| 0 <= j < self@->args.len() implies (
                #[trigger] self@->args[j]).supported() by {
                    assert(self@->args[j] == args@[j]@);
                }
                true
            },
            _ => true,
        }
    }
}

impl Clone for PDBType {
    fn clone(&self) -> (copy: Self)
        ensures
            copy@ == self@,
        decreases self,
    {
        match self {
            PDBType::Pointer(to) => PDBType::Pointer(Box::new((**to).clone())),
            PDBType::SimpleType(kind) => PDBType::SimpleType(*kind),
            PDBType::Struct(name) => PDBType::Struct(name.clone()),
            PDBType::ConstantArray(element, length) => PDBType::ConstantArray(
                Box::new((**element).clone()),
                *length,
            ),
            PDBType::FunctionPointer { ret, args, cconv } => {
                let mut copies: Vec<PDBType> = Vec::new();
                let mut i: usize = 0;
                while i < args.len()
                    invariant
                        i <= args.len(),
                        copies.len() == i,
                        forall|j: int| 0 <= j < i ==> copies@[j]@ == args@[j]@,
                        self matches PDBType::FunctionPointer { args: a, .. } && a == args,
                    decreases args.len() - i,
                {
                    let copy = args[i].clone();
                    copies.push(copy);
                    i += 1;
                }
                let copy = PDBType::FunctionPointer {
                    ret: Box::new((**ret).clone()),
                    args: copies,
                    cconv: *cconv,
                };
                assert(copy@->args =~= self@->args);
                copy
            },
        }
    }
}

/// Descriptions are compared as [`TypeShape::same_as`] says: an array or a function
/// signature equals nothing, itself included.
impl PartialEq for PDBType {
    fn eq(&self, other: &Self) -> (equal: bool)
        decreases self,
    {
        match (self, other) {
            (PDBType::Struct(first), PDBType::Struct(second)) => *first == *second,
            (PDBType::SimpleType(first), PDBType::SimpleType(second)) => *first == *second,
            (PDBType::Pointer(first), PDBType::Pointer(second)) => (**first).eq(&**second),
            (_, _) => false,
        }
    }
}

impl PartialEqSpecImpl for PDBType {
    open spec fn obeys_eq_spec() -> bool {
        true
    }

    open spec fn eq_spec(&self, other: &Self) -> bool {
        self@.same_as(other@)
    }
}

impl Eq for PDBType {

}

} // verus!
