use pdb_wrapper::cache::TypeCache;
use pdb_wrapper::pdb_meta::SimpleTypeKind;
use pdb_wrapper::{PDBType, TypeRef};

fn pointer(to: PDBType) -> PDBType {
    PDBType::Pointer(Box::new(to))
}

#[test]
fn an_empty_cache_knows_the_simple_types() {
    let cache = TypeCache::new();
    assert_eq!(
        cache.lookup(&PDBType::SimpleType(SimpleTypeKind::UInt16)),
        Some(TypeRef::Index(0x73))
    );
    assert_eq!(cache.lookup(&PDBType::Struct("S".to_string())), None);
    assert_eq!(cache.lookup(&pointer(PDBType::SimpleType(SimpleTypeKind::UInt16))), None);
}

#[test]
fn a_simple_type_keeps_its_code_whatever_is_inserted() {
    let mut cache = TypeCache::new();
    let ty = PDBType::SimpleType(SimpleTypeKind::Void);
    cache.insert(ty.clone(), TypeRef::Index(0x4242));
    assert_eq!(cache.lookup(&ty), Some(TypeRef::Index(0x03)));
}

#[test]
fn insert_replaces_the_entry_of_an_equal_description() {
    let mut cache = TypeCache::new();
    let a = PDBType::Struct("A".to_string());
    let b = pointer(PDBType::Struct("A".to_string()));
    cache.insert(a.clone(), TypeRef::Index(0x1000));
    cache.insert(b.clone(), TypeRef::Index(0x1001));
    assert_eq!(cache.lookup(&a), Some(TypeRef::Index(0x1000)));
    assert_eq!(cache.lookup(&b), Some(TypeRef::Index(0x1001)));
    cache.insert(PDBType::Struct("A".to_string()), TypeRef::Index(0x1002));
    assert_eq!(cache.lookup(&a), Some(TypeRef::Index(0x1002)));
    assert_eq!(cache.lookup(&b), Some(TypeRef::Index(0x1001)));
}

#[test]
fn what_equals_nothing_is_not_kept() {
    let mut cache = TypeCache::new();
    let array = PDBType::ConstantArray(Box::new(PDBType::SimpleType(SimpleTypeKind::Int32)), 3);
    cache.insert(array.clone(), TypeRef::Index(0x1000));
    cache.insert(pointer(array.clone()), TypeRef::Index(0x1001));
    assert_eq!(cache.lookup(&array), None);
    assert_eq!(cache.lookup(&pointer(array)), None);
}

#[test]
fn settling_fills_in_the_answers() {
    let mut cache = TypeCache::new();
    let a = PDBType::Struct("A".to_string());
    let b = PDBType::Struct("B".to_string());
    let c = PDBType::Struct("C".to_string());
    cache.insert(a.clone(), TypeRef::Pending(1));
    cache.insert(b.clone(), TypeRef::Index(7));
    cache.insert(c.clone(), TypeRef::Pending(5));
    cache.settle(&[10, 11, 12]);
    assert_eq!(cache.lookup(&a), Some(TypeRef::Index(11)));
    assert_eq!(cache.lookup(&b), Some(TypeRef::Index(7)));
    assert_eq!(cache.lookup(&c), Some(TypeRef::Pending(5)));
}
