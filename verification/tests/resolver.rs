use pdb_wrapper::pdb_meta::{CallingConvention, SimpleTypeKind};
use pdb_wrapper::{Error, PDBType, Request, Stop, StructField, TypeRef, Unsupported, PDB};

fn int32() -> PDBType {
    PDBType::SimpleType(SimpleTypeKind::Int32)
}

fn pointer(to: PDBType) -> PDBType {
    PDBType::Pointer(Box::new(to))
}

fn structure(name: &str) -> PDBType {
    PDBType::Struct(name.to_string())
}

fn field(ty: PDBType, name: &str, offset: u64) -> StructField {
    StructField { ty, name: name.to_string(), offset }
}

/// Stands for the store: answers the queue in order, every request that yields a type with
/// the next free index from 0x1000 on, and hands the answers to the session.
fn run(pdb: &mut PDB, next: &mut u32) -> Vec<u32> {
    let mut answers: Vec<u32> = Vec::new();
    for request in pdb.requests() {
        let operands: Vec<TypeRef> = match request {
            Request::AddPointer { pointee } => vec![*pointee],
            Request::AddArray { element, .. } => vec![*element],
            Request::AddFunctionSignature { return_type, args, .. } => {
                let mut all = vec![*return_type];
                all.extend(args.iter().copied());
                all
            }
            Request::AddField { ty, .. } => vec![*ty],
            Request::CreateStruct { field_list, .. } => vec![*field_list],
            Request::AddTypedGlobal { ty, .. } => vec![*ty],
            _ => vec![],
        };
        for operand in operands {
            assert!(operand.value(&answers).is_some());
        }
        let yields = matches!(
            request,
            Request::AddPointer { .. }
                | Request::AddArray { .. }
                | Request::AddFunctionSignature { .. }
                | Request::FinalizeFieldList
                | Request::CreateStruct { .. }
        );
        if yields {
            answers.push(*next);
            *next += 1;
        } else {
            answers.push(0);
        }
    }
    assert!(pdb.settle(&answers));
    assert!(pdb.requests().is_empty());
    answers
}

fn session() -> PDB {
    PDB::new(true).unwrap()
}

#[test]
fn a_session_needs_its_store() {
    assert!(PDB::new(true).is_ok());
    assert_eq!(PDB::new(false).err(), Some(Error::LLVMError));
}

#[test]
fn simple_types_resolve_to_their_codes() {
    let mut pdb = session();
    let kinds = [
        (SimpleTypeKind::NoType, 0x0000),
        (SimpleTypeKind::Void, 0x0003),
        (SimpleTypeKind::HResult, 0x0008),
        (SimpleTypeKind::Int32, 0x0074),
        (SimpleTypeKind::UInt64, 0x0077),
        (SimpleTypeKind::Float64, 0x0041),
        (SimpleTypeKind::Complex128, 0x0053),
        (SimpleTypeKind::Boolean8, 0x0030),
        (SimpleTypeKind::Character32, 0x007b),
    ];
    for (kind, code) in kinds {
        assert_eq!(kind.code(), code);
        assert_eq!(pdb.get_or_create_type(&PDBType::SimpleType(kind)), Ok(TypeRef::Index(code)));
        assert!(pdb.is_existing_type(&PDBType::SimpleType(kind)));
    }
    assert!(pdb.requests().is_empty());
}

#[test]
fn a_pointer_is_created_once() {
    let mut pdb = session();
    let mut next = 0x1000;
    let ty = pointer(int32());
    assert_eq!(pdb.get_existing_type(&ty), None);
    assert_eq!(pdb.get_or_create_type(&ty), Ok(TypeRef::Pending(0)));
    assert_eq!(
        *pdb.requests(),
        vec![Request::AddPointer { pointee: TypeRef::Index(0x74) }]
    );
    // Asked again before the store has answered, the session asks for nothing more.
    assert_eq!(pdb.get_or_create_type(&ty), Ok(TypeRef::Pending(0)));
    assert_eq!(pdb.requests().len(), 1);
    let answers = run(&mut pdb, &mut next);
    assert_eq!(TypeRef::Pending(0).value(&answers), Some(0x1000));
    assert_eq!(pdb.get_or_create_type(&ty), Ok(TypeRef::Index(0x1000)));
    assert_eq!(pdb.get_or_create_type(&ty), Ok(TypeRef::Index(0x1000)));
    assert!(pdb.requests().is_empty());
}

#[test]
fn nested_pointers_are_created_from_the_inside() {
    let mut pdb = session();
    let mut next = 0x1000;
    let ty = pointer(pointer(pointer(int32())));
    assert_eq!(pdb.get_or_create_type(&ty), Ok(TypeRef::Pending(2)));
    assert_eq!(
        *pdb.requests(),
        vec![
            Request::AddPointer { pointee: TypeRef::Index(0x74) },
            Request::AddPointer { pointee: TypeRef::Pending(0) },
            Request::AddPointer { pointee: TypeRef::Pending(1) },
        ]
    );
    run(&mut pdb, &mut next);
    assert_eq!(pdb.get_existing_type(&pointer(int32())), Some(TypeRef::Index(0x1000)));
    assert_eq!(pdb.get_existing_type(&pointer(pointer(int32()))), Some(TypeRef::Index(0x1001)));
    assert_eq!(pdb.get_existing_type(&ty), Some(TypeRef::Index(0x1002)));
    // The pointee of a new pointer is the inner pointer itself.
    let deeper = pointer(ty);
    assert_eq!(pdb.get_or_create_type(&deeper), Ok(TypeRef::Pending(0)));
    assert_eq!(
        *pdb.requests(),
        vec![Request::AddPointer { pointee: TypeRef::Index(0x1002) }]
    );
}

#[test]
fn a_pointer_to_an_unregistered_struct_is_unknown() {
    let mut pdb = session();
    let ty = pointer(structure("X"));
    assert_eq!(pdb.get_or_create_type(&ty), Err(Error::UnknownType { ty: "X".to_string() }));
    assert!(pdb.requests().is_empty());
    assert_eq!(pdb.get_existing_type(&ty), None);
}

#[test]
fn a_pointer_to_a_registered_struct_is_stable() {
    let mut pdb = session();
    let mut next = 0x1000;
    assert_eq!(pdb.insert_struct("X", &[field(int32(), "a", 0)], 4), Ok(()));
    run(&mut pdb, &mut next);
    let ty = pointer(structure("X"));
    assert_eq!(pdb.get_or_create_type(&ty), Ok(TypeRef::Pending(0)));
    assert_eq!(
        *pdb.requests(),
        vec![Request::AddPointer { pointee: TypeRef::Index(0x1001) }]
    );
    run(&mut pdb, &mut next);
    assert_eq!(pdb.get_or_create_type(&ty), Ok(TypeRef::Index(0x1002)));
    assert_eq!(pdb.get_or_create_type(&ty), Ok(TypeRef::Index(0x1002)));
    assert!(pdb.requests().is_empty());
}

#[test]
fn registering_a_struct_asks_for_its_field_list_first() {
    let mut pdb = session();
    let fields = [field(int32(), "x", 0), field(pointer(int32()), "next", 8)];
    assert_eq!(pdb.insert_struct("Node", &fields, 16), Ok(()));
    assert_eq!(
        *pdb.requests(),
        vec![
            Request::CreateFieldList,
            Request::AddField { ty: TypeRef::Index(0x74), offset: 0, name: "x".to_string() },
            Request::AddPointer { pointee: TypeRef::Index(0x74) },
            Request::AddField { ty: TypeRef::Pending(2), offset: 8, name: "next".to_string() },
            Request::FinalizeFieldList,
            Request::CreateStruct {
                name: "Node".to_string(),
                field_list: TypeRef::Pending(4),
                field_count: 2,
                size: 16,
            },
        ]
    );
    assert_eq!(pdb.get_existing_type(&structure("Node")), Some(TypeRef::Pending(5)));
}

#[test]
fn registering_a_struct_again_replaces_it() {
    let mut pdb = session();
    let mut next = 0x1000;
    assert_eq!(pdb.insert_struct("X", &[field(int32(), "a", 0)], 4), Ok(()));
    run(&mut pdb, &mut next);
    assert_eq!(pdb.get_existing_type(&structure("X")), Some(TypeRef::Index(0x1001)));
    let again = [field(int32(), "a", 0), field(int32(), "b", 4)];
    assert_eq!(pdb.insert_struct("X", &again, 8), Ok(()));
    run(&mut pdb, &mut next);
    assert_eq!(pdb.get_existing_type(&structure("X")), Some(TypeRef::Index(0x1003)));
    assert_eq!(pdb.get_or_create_type(&structure("X")), Ok(TypeRef::Index(0x1003)));
}

#[test]
fn a_bare_struct_is_not_created() {
    let mut pdb = session();
    let mut next = 0x1000;
    assert_eq!(
        pdb.get_or_create_type(&structure("Y")),
        Err(Error::BadType { ty: "Struct(\"Y\")".to_string() })
    );
    assert!(pdb.requests().is_empty());
    // Once registered, the structure is known by its name.
    assert_eq!(pdb.insert_struct("Y", &[], 0), Ok(()));
    run(&mut pdb, &mut next);
    assert_eq!(pdb.get_or_create_type(&structure("Y")), Ok(TypeRef::Index(0x1001)));
}

#[test]
fn an_array_is_created_every_time() {
    let mut pdb = session();
    let mut next = 0x1000;
    let ty = PDBType::ConstantArray(Box::new(int32()), 10);
    assert_eq!(pdb.get_or_create_type(&ty), Ok(TypeRef::Pending(0)));
    assert_eq!(pdb.get_or_create_type(&ty), Ok(TypeRef::Pending(1)));
    assert_eq!(
        *pdb.requests(),
        vec![
            Request::AddArray { element: TypeRef::Index(0x74), length: 10 },
            Request::AddArray { element: TypeRef::Index(0x74), length: 10 },
        ]
    );
    let answers = run(&mut pdb, &mut next);
    assert_eq!(answers, vec![0x1000, 0x1001]);
    assert_eq!(pdb.get_existing_type(&ty), None);
    assert!(!pdb.is_existing_type(&ty));
    assert_eq!(pdb.get_or_create_type(&ty), Ok(TypeRef::Pending(0)));
}

#[test]
fn an_array_of_pointers_caches_the_pointer_only() {
    let mut pdb = session();
    let ty = PDBType::ConstantArray(Box::new(pointer(int32())), 3);
    assert_eq!(pdb.get_or_create_type(&ty), Ok(TypeRef::Pending(1)));
    assert_eq!(pdb.get_or_create_type(&ty), Ok(TypeRef::Pending(2)));
    assert_eq!(
        *pdb.requests(),
        vec![
            Request::AddPointer { pointee: TypeRef::Index(0x74) },
            Request::AddArray { element: TypeRef::Pending(0), length: 3 },
            Request::AddArray { element: TypeRef::Pending(0), length: 3 },
        ]
    );
}

#[test]
fn a_bare_function_signature_is_not_created() {
    let mut pdb = session();
    let ty = PDBType::FunctionPointer {
        ret: Box::new(int32()),
        args: vec![int32()],
        cconv: CallingConvention::NearC,
    };
    assert_eq!(
        pdb.get_or_create_type(&ty),
        Err(Error::BadType {
            ty: "FunctionPointer { ret: SimpleType(Int32), args: [SimpleType(Int32)], cconv: NearC }"
                .to_string()
        })
    );
    assert!(pdb.requests().is_empty());
}

fn signature() -> PDBType {
    PDBType::FunctionPointer {
        ret: Box::new(PDBType::SimpleType(SimpleTypeKind::Void)),
        args: vec![],
        cconv: CallingConvention::NearC,
    }
}

#[test]
fn a_pointer_to_a_function_signature_is_not_created() {
    let mut pdb = session();
    let ty = pointer(signature());
    assert!(!ty.is_supported());
    assert_eq!(
        pdb.try_get_or_create_type(&ty),
        Err(Stop::Unsupported(Unsupported::PointerToFunctionPointer))
    );
    assert_eq!(
        pdb.try_get_or_create_type(&pointer(pointer(signature()))),
        Err(Stop::Unsupported(Unsupported::PointerToFunctionPointer))
    );
    assert!(pdb.requests().is_empty());
    assert_eq!(pdb.get_existing_type(&ty), None);
}

#[test]
fn a_pointer_to_an_array_is_not_created() {
    let mut pdb = session();
    let array = PDBType::ConstantArray(Box::new(int32()), 4);
    let ty = pointer(array.clone());
    assert!(!ty.is_supported());
    assert_eq!(
        pdb.try_get_or_create_type(&ty),
        Err(Stop::Unsupported(Unsupported::PointerToArray))
    );
    assert_eq!(
        pdb.try_get_or_create_type(&PDBType::ConstantArray(Box::new(ty.clone()), 2)),
        Err(Stop::Unsupported(Unsupported::PointerToArray))
    );
    assert!(pdb.requests().is_empty());
    assert_eq!(pdb.get_existing_type(&ty), None);
    // The array itself is created.
    assert_eq!(pdb.try_get_or_create_type(&array), Ok(TypeRef::Pending(0)));
}

#[test]
fn what_was_asked_before_an_unsupported_type_stays() {
    let mut pdb = session();
    let array = PDBType::ConstantArray(Box::new(int32()), 4);
    let result = pdb.try_insert_function_metadata(
        &int32(),
        &[pointer(int32()), pointer(array.clone()), structure("Missing")],
        false,
        CallingConvention::NearC,
        "f",
    );
    assert_eq!(result, Err(Stop::Unsupported(Unsupported::PointerToArray)));
    assert_eq!(*pdb.requests(), vec![Request::AddPointer { pointee: TypeRef::Index(0x74) }]);

    let fields = [field(pointer(int32()), "a", 0), field(pointer(signature()), "b", 8)];
    assert_eq!(
        pdb.try_insert_struct("S", &fields, 16),
        Err(Stop::Unsupported(Unsupported::PointerToFunctionPointer))
    );
    assert_eq!(pdb.requests().len(), 3);
    assert_eq!(pdb.get_existing_type(&structure("S")), None);
    assert_eq!(
        pdb.try_insert_global("g", 1, 2, Some(pointer(array))),
        Err(Stop::Unsupported(Unsupported::PointerToArray))
    );
    assert_eq!(pdb.requests().len(), 3);
}

#[test]
fn a_failure_comes_before_a_later_unsupported_type() {
    let mut pdb = session();
    let array = PDBType::ConstantArray(Box::new(int32()), 4);
    let result = pdb.try_insert_function_metadata(
        &int32(),
        &[structure("Missing"), pointer(array.clone())],
        false,
        CallingConvention::NearC,
        "f",
    );
    assert_eq!(result, Err(Stop::Failed(Error::BadType { ty: "Struct(\"Missing\")".to_string() })));
    // The same call is within what the operation with a precondition takes.
    let result = pdb.insert_function_metadata(
        &int32(),
        &[structure("Missing"), pointer(array.clone())],
        false,
        CallingConvention::NearC,
        "f",
    );
    assert_eq!(result, Err(Error::BadType { ty: "Struct(\"Missing\")".to_string() }));
    let fields = [field(pointer(structure("Later")), "a", 0), field(pointer(array), "b", 8)];
    assert_eq!(
        pdb.try_insert_struct("S", &fields, 16),
        Err(Stop::Failed(Error::UnknownType { ty: "Later".to_string() }))
    );
    assert_eq!(pdb.try_insert_global("\0", 1, 2, Some(pointer(signature()))), Err(Stop::Failed(Error::BadSymbolName)));
}

#[test]
fn the_operations_that_take_every_type_do_the_same_on_supported_types() {
    let mut pdb = session();
    let mut next = 0x1000;
    assert_eq!(pdb.try_insert_struct("X", &[field(pointer(int32()), "a", 0)], 8), Ok(()));
    assert_eq!(pdb.try_get_or_create_type(&pointer(structure("X"))), Ok(TypeRef::Pending(5)));
    assert_eq!(pdb.try_insert_global("x", 1, 0, Some(pointer(structure("X")))), Ok(()));
    assert_eq!(
        pdb.try_insert_function_metadata(
            &pointer(int32()),
            &[structure("X")],
            false,
            CallingConvention::NearC,
            "f"
        ),
        Ok(TypeRef::Pending(7))
    );
    assert_eq!(pdb.requests().len(), 8);
    let answers = run(&mut pdb, &mut next);
    assert_eq!(TypeRef::Pending(7).value(&answers), Some(0x1004));
}

#[test]
fn a_function_signature_resolves_from_left_to_right() {
    let mut pdb = session();
    let result = pdb.insert_function_metadata(
        &pointer(int32()),
        &[structure("Missing"), pointer(structure("AlsoMissing"))],
        true,
        CallingConvention::ThisCall,
        "method",
    );
    assert_eq!(result, Err(Error::BadType { ty: "Struct(\"Missing\")".to_string() }));
    // What was resolved before the failure stays.
    assert_eq!(
        *pdb.requests(),
        vec![Request::AddPointer { pointee: TypeRef::Index(0x74) }]
    );
    assert_eq!(pdb.get_existing_type(&pointer(int32())), Some(TypeRef::Pending(0)));

    let result = pdb.insert_function_metadata(
        &PDBType::SimpleType(SimpleTypeKind::Void),
        &[pointer(int32()), int32()],
        true,
        CallingConvention::ThisCall,
        "method",
    );
    assert_eq!(result, Ok(TypeRef::Pending(1)));
    assert_eq!(
        pdb.requests()[1],
        Request::AddFunctionSignature {
            name: "method".to_string(),
            return_type: TypeRef::Index(0x03),
            args: vec![TypeRef::Pending(0), TypeRef::Index(0x74)],
            cconv: CallingConvention::ThisCall,
            is_constructor: true,
        }
    );
    assert_eq!(CallingConvention::ThisCall.code(), 0x0b);
}

#[test]
fn names_with_nul_are_rejected_before_any_request() {
    let mut pdb = session();
    assert_eq!(pdb.insert_global("a\0b", 1, 2, Some(pointer(int32()))), Err(Error::BadSymbolName));
    assert_eq!(pdb.insert_function(1, 2, "\0", None), Err(Error::BadSymbolName));
    assert_eq!(
        pdb.insert_function_metadata(&pointer(int32()), &[], false, CallingConvention::NearC, "f\0"),
        Err(Error::BadSymbolName)
    );
    assert_eq!(pdb.insert_struct("S\0", &[field(pointer(int32()), "a", 0)], 8), Err(Error::BadSymbolName));
    assert_eq!(
        pdb.insert_struct("S", &[field(pointer(int32()), "a", 0), field(int32(), "b\0", 8)], 16),
        Err(Error::BadSymbolName)
    );
    assert_eq!(pdb.commit("in\0.exe", "out.pdb"), Err(Error::BadSymbolName));
    assert_eq!(pdb.commit("in.exe", "out\0.pdb"), Err(Error::BadSymbolName));
    assert!(pdb.requests().is_empty());
    assert_eq!(pdb.get_existing_type(&pointer(int32())), None);
}

#[test]
fn a_struct_with_an_unknown_field_type_keeps_what_was_asked() {
    let mut pdb = session();
    let fields = [field(pointer(int32()), "a", 0), field(pointer(structure("Later")), "b", 8)];
    assert_eq!(
        pdb.insert_struct("S", &fields, 16),
        Err(Error::UnknownType { ty: "Later".to_string() })
    );
    assert_eq!(
        *pdb.requests(),
        vec![
            Request::CreateFieldList,
            Request::AddPointer { pointee: TypeRef::Index(0x74) },
            Request::AddField { ty: TypeRef::Pending(1), offset: 0, name: "a".to_string() },
        ]
    );
    assert_eq!(pdb.get_existing_type(&structure("S")), None);
    assert_eq!(pdb.get_existing_type(&pointer(int32())), Some(TypeRef::Pending(1)));
}

#[test]
fn a_struct_cannot_point_to_itself_when_first_registered() {
    let mut pdb = session();
    let fields = [field(pointer(structure("List")), "next", 0)];
    assert_eq!(
        pdb.insert_struct("List", &fields, 8),
        Err(Error::UnknownType { ty: "List".to_string() })
    );
}

#[test]
fn symbols_are_queued() {
    let mut pdb = session();
    assert_eq!(pdb.insert_global("TestSymbol", 1, 0x1337, None), Ok(()));
    assert_eq!(pdb.insert_function(2, 0x2000, "main", None), Ok(()));
    assert_eq!(pdb.insert_function(2, 0x2040, "typed", Some(0x1005)), Ok(()));
    assert_eq!(pdb.commit("HelloWorld.exe", "HelloWorld.exe.pdb"), Ok(()));
    assert_eq!(
        *pdb.requests(),
        vec![
            Request::AddGlobal { name: "TestSymbol".to_string(), section_index: 1, section_offset: 0x1337 },
            Request::AddFunction { name: "main".to_string(), section_index: 2, section_offset: 0x2000 },
            Request::AddTypedFunction {
                name: "typed".to_string(),
                section_index: 2,
                section_offset: 0x2040,
                type_index: 0x1005,
            },
            Request::Commit {
                binary: "HelloWorld.exe".to_string(),
                output: "HelloWorld.exe.pdb".to_string(),
            },
        ]
    );
}

#[test]
fn the_commit_status_decides() {
    assert_eq!(PDB::commit_outcome(1), Ok(()));
    assert_eq!(PDB::commit_outcome(0), Err(Error::LLVMError));
    assert_eq!(PDB::commit_outcome(-1), Err(Error::LLVMError));
    assert_eq!(PDB::commit_outcome(2), Err(Error::LLVMError));
}

#[test]
fn settling_needs_one_answer_for_each_request() {
    let mut pdb = session();
    assert_eq!(pdb.get_or_create_type(&pointer(int32())), Ok(TypeRef::Pending(0)));
    assert!(!pdb.settle(&[]));
    assert!(!pdb.settle(&[1, 2]));
    assert_eq!(pdb.requests().len(), 1);
    assert_eq!(pdb.get_existing_type(&pointer(int32())), Some(TypeRef::Pending(0)));
    assert!(pdb.settle(&[0x1234]));
    assert_eq!(pdb.get_existing_type(&pointer(int32())), Some(TypeRef::Index(0x1234)));
}

#[test]
fn the_field_count_wraps_at_sixteen_bits() {
    let mut pdb = session();
    let mut fields = Vec::new();
    for i in 0..65537u64 {
        fields.push(field(int32(), "f", 4 * i));
    }
    assert_eq!(pdb.insert_struct("Wide", &fields, 4 * 65537), Ok(()));
    let last = pdb.requests().len() - 1;
    assert_eq!(
        pdb.requests()[last],
        Request::CreateStruct {
            name: "Wide".to_string(),
            field_list: TypeRef::Pending(last - 1),
            field_count: 1,
            size: 4 * 65537,
        }
    );
}

#[test]
fn end_to_end_point() {
    let mut pdb = PDB::new(true).unwrap();
    let mut next = 0x1000;
    let fields = [field(int32(), "x", 0), field(int32(), "y", 4)];
    assert_eq!(pdb.insert_struct("Point", &fields, 8), Ok(()));
    let ty = pointer(structure("Point"));
    let index = pdb.get_or_create_type(&ty).unwrap();
    assert_eq!(pdb.insert_global("origin", 1, 0x40, Some(ty)), Ok(()));
    assert_eq!(pdb.commit("point.exe", "point.pdb"), Ok(()));
    let queue = pdb.requests();
    assert_eq!(
        *queue,
        vec![
            Request::CreateFieldList,
            Request::AddField { ty: TypeRef::Index(0x74), offset: 0, name: "x".to_string() },
            Request::AddField { ty: TypeRef::Index(0x74), offset: 4, name: "y".to_string() },
            Request::FinalizeFieldList,
            Request::CreateStruct {
                name: "Point".to_string(),
                field_list: TypeRef::Pending(3),
                field_count: 2,
                size: 8,
            },
            Request::AddPointer { pointee: TypeRef::Pending(4) },
            Request::AddTypedGlobal {
                name: "origin".to_string(),
                section_index: 1,
                section_offset: 0x40,
                ty: TypeRef::Pending(5),
            },
            Request::Commit { binary: "point.exe".to_string(), output: "point.pdb".to_string() },
        ]
    );
    let structs = queue.iter().filter(|r| matches!(r, Request::CreateStruct { .. })).count();
    let pointers = queue.iter().filter(|r| matches!(r, Request::AddPointer { .. })).count();
    let globals = queue
        .iter()
        .filter(|r| matches!(r, Request::AddGlobal { .. } | Request::AddTypedGlobal { .. }))
        .count();
    assert_eq!((structs, pointers, globals), (1, 1, 1));
    let answers = run(&mut pdb, &mut next);
    assert_eq!(index.value(&answers), Some(0x1002));
    assert_eq!(PDB::commit_outcome(1), Ok(()));
}

#[test]
fn test_generation() {
    let exedir = "test/HelloWorld.exe".to_string();
    let pdbdir = format!("{}.pdb", exedir);

    let mut pdb = PDB::new(true).expect("Failed to create PDB instance.");
    pdb.insert_global("TestSymbol", 1, 0x1337, None).expect("Failed to add symbol.");
    pdb.commit(&exedir, &pdbdir).expect("Failed to write PDB!");

    let symbols: Vec<&Request> = pdb
        .requests()
        .iter()
        .filter(|request| !matches!(request, Request::Commit { .. }))
        .collect();
    assert_eq!(symbols.len(), 1);
    for symbol in symbols {
        match symbol {
            Request::AddGlobal { section_index, section_offset, .. } => {
                assert_eq!(*section_offset, 0x1337);
                assert_eq!(*section_index, 1);
            }
            _ => {
                panic!("Bad symbol encoding");
            }
        }
    }
    assert_eq!(
        pdb.requests().last(),
        Some(&Request::Commit { binary: exedir, output: pdbdir })
    );
}
