use pdb_wrapper::pdb_meta::{CallingConvention, SimpleTypeKind};
use pdb_wrapper::{Error, PDBType, TypeRef};

fn int32() -> PDBType {
    PDBType::SimpleType(SimpleTypeKind::Int32)
}

#[test]
fn simple_types_compare_by_kind() {
    assert!(int32() == int32());
    assert!(int32() != PDBType::SimpleType(SimpleTypeKind::UInt32));
    assert!(int32().is_cacheable());
}

#[test]
fn structs_compare_by_name() {
    let a = PDBType::Struct("A".to_string());
    assert!(a == PDBType::Struct("A".to_string()));
    assert!(a != PDBType::Struct("B".to_string()));
    assert!(a != int32());
    assert!(a.is_cacheable());
}

#[test]
fn pointers_compare_by_pointee() {
    let a = PDBType::Pointer(Box::new(PDBType::Pointer(Box::new(int32()))));
    let b = a.clone();
    assert!(a == b);
    assert!(a != PDBType::Pointer(Box::new(int32())));
    assert!(a.is_cacheable());
}

#[test]
fn arrays_equal_nothing() {
    let a = PDBType::ConstantArray(Box::new(int32()), 10);
    assert!(a != a.clone());
    assert!(PDBType::Pointer(Box::new(a.clone())) != PDBType::Pointer(Box::new(a.clone())));
    assert!(!a.is_cacheable());
    assert_eq!(format!("{:?}", a), "ConstantArray(SimpleType(Int32), 10)");
}

#[test]
fn function_pointers_equal_nothing() {
    let f = PDBType::FunctionPointer {
        ret: Box::new(int32()),
        args: vec![int32(), PDBType::Struct("S".to_string())],
        cconv: CallingConvention::NearC,
    };
    let g = f.clone();
    assert!(f != g);
    assert!(!f.is_cacheable());
    assert_eq!(format!("{:?}", f), format!("{:?}", g));
}

#[test]
fn pointers_to_arrays_and_to_function_signatures_are_not_supported() {
    let array = PDBType::ConstantArray(Box::new(int32()), 4);
    assert!(array.is_supported());
    let over_array = PDBType::Pointer(Box::new(array.clone()));
    assert!(!over_array.is_supported());
    assert!(!PDBType::Pointer(Box::new(over_array.clone())).is_supported());
    assert!(!PDBType::ConstantArray(Box::new(over_array.clone()), 2).is_supported());
    let f = PDBType::FunctionPointer {
        ret: Box::new(int32()),
        args: vec![int32(), over_array],
        cconv: CallingConvention::NearC,
    };
    assert!(!f.is_supported());
    let g = PDBType::FunctionPointer {
        ret: Box::new(array),
        args: vec![int32()],
        cconv: CallingConvention::NearC,
    };
    assert!(g.is_supported());
    assert!(!PDBType::Pointer(Box::new(g.clone())).is_supported());
    assert!(!PDBType::ConstantArray(Box::new(PDBType::Pointer(Box::new(g))), 3).is_supported());
}

#[test]
fn codes_are_those_of_the_format() {
    assert_eq!(SimpleTypeKind::NoType.code(), 0x0000);
    assert_eq!(SimpleTypeKind::NotTranslated.code(), 0x0007);
    assert_eq!(SimpleTypeKind::SignedCharacter.code(), 0x0010);
    assert_eq!(SimpleTypeKind::WideCharacter.code(), 0x0071);
    assert_eq!(SimpleTypeKind::SByte.code(), 0x0068);
    assert_eq!(SimpleTypeKind::Int128.code(), 0x0078);
    assert_eq!(SimpleTypeKind::Float16.code(), 0x0046);
    assert_eq!(SimpleTypeKind::Boolean128.code(), 0x0034);
    assert_eq!(CallingConvention::NearC.code(), 0x00);
    assert_eq!(CallingConvention::FarFast.code(), 0x05);
    assert_eq!(CallingConvention::NearStdCall.code(), 0x07);
    assert_eq!(CallingConvention::NearVector.code(), 0x18);
}

#[test]
fn references_take_their_value_from_the_answers() {
    assert_eq!(TypeRef::Index(7).value(&[]), Some(7));
    assert_eq!(TypeRef::Pending(1).value(&[10, 20]), Some(20));
    assert_eq!(TypeRef::Pending(2).value(&[10, 20]), None);
    assert_eq!(TypeRef::Pending(0).settled(&[10]), TypeRef::Index(10));
    assert_eq!(TypeRef::Pending(1).settled(&[10]), TypeRef::Pending(1));
    assert_eq!(TypeRef::Index(3).settled(&[10]), TypeRef::Index(3));
}

#[test]
fn errors_say_what_went_wrong() {
    assert_eq!(
        Error::BadSymbolName.message(),
        "Bad symbol name, names may not contain null bytes!"
    );
    assert_eq!(
        Error::LLVMError.message(),
        "LLVM failed to generate a valid PDB, please double check all paths or file a bug!"
    );
    assert_eq!(Error::BadType { ty: "x".to_string() }.message(), "Tried to create a complex type!");
    assert_eq!(
        Error::UnknownType { ty: "Point".to_string() }.message(),
        "Unknown type Point was used!"
    );
}

#[test]
fn kinds_are_ordered_by_their_codes() {
    assert!(SimpleTypeKind::Int16Short < SimpleTypeKind::SByte);
    assert!(SimpleTypeKind::NoType < SimpleTypeKind::Void);
    assert!(SimpleTypeKind::Boolean128 > SimpleTypeKind::UInt128Oct);
    assert!(SimpleTypeKind::Int32 <= SimpleTypeKind::Int32);
    assert!(CallingConvention::NearC < CallingConvention::FarC);
    assert!(CallingConvention::FarFast < CallingConvention::NearStdCall);
    assert!(CallingConvention::NearVector >= CallingConvention::Inline);
}
