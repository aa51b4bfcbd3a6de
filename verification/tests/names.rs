use pdb_wrapper::names::contains_nul;

#[test]
fn a_name_without_nul_is_fine() {
    assert!(!contains_nul(""));
    assert!(!contains_nul("TestSymbol"));
    assert!(!contains_nul("na\u{1}me"));
    assert!(!contains_nul("Größe"));
}

#[test]
fn a_nul_is_found_wherever_it_stands() {
    assert!(contains_nul("\0"));
    assert!(contains_nul("\0name"));
    assert!(contains_nul("na\0me"));
    assert!(contains_nul("name\0"));
    assert!(contains_nul("Größe\0"));
}
