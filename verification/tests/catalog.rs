use qspi::{FunctionCatalog, FunctionDescriptor, QspiError};

fn sample() -> FunctionCatalog {
    let mut catalog = FunctionCatalog::new();
    catalog.insert("QspiReadStatus", 4, 0);
    catalog.insert("QspiSectorErase", 6, 1);
    catalog.insert("QspiRead", 8, 2);
    catalog
}

#[test]
fn resolve_finds_what_was_inserted() {
    let catalog = sample();
    assert_eq!(catalog.resolve("QspiSectorErase"), Some(FunctionDescriptor { id: 6, arity: 1 }));
    assert_eq!(catalog.resolve("QspiRead"), Some(FunctionDescriptor { id: 8, arity: 2 }));
}

#[test]
fn resolve_of_an_absent_name_is_none() {
    let catalog = sample();
    assert_eq!(catalog.resolve("QspiReadId"), None);
    assert_eq!(catalog.resolve(""), None);
    assert_eq!(catalog.resolve("qspiread"), None);
    assert_eq!(FunctionCatalog::new().resolve("QspiRead"), None);
}

#[test]
fn a_later_insert_replaces_an_earlier_one() {
    let mut catalog = sample();
    catalog.insert("QspiRead", 9, 3);
    assert_eq!(catalog.resolve("QspiRead"), Some(FunctionDescriptor { id: 9, arity: 3 }));
    assert_eq!(catalog.resolve("QspiReadStatus"), Some(FunctionDescriptor { id: 4, arity: 0 }));
}

#[test]
fn lookup_returns_the_descriptor_when_the_arity_matches() {
    let catalog = sample();
    assert_eq!(catalog.lookup("QspiReadStatus", 0), Ok(FunctionDescriptor { id: 4, arity: 0 }));
    assert_eq!(catalog.lookup("QspiRead", 2), Ok(FunctionDescriptor { id: 8, arity: 2 }));
}

#[test]
fn lookup_of_an_absent_name_names_it() {
    let catalog = sample();
    let error = catalog.lookup("QspiPageProgram", 2).unwrap_err();
    assert_eq!(error, QspiError::FunctionNotFound("QspiPageProgram".to_string()));
    assert_eq!(error.message(), "did not find QspiPageProgram function");
}

#[test]
fn lookup_with_another_arity_is_a_mismatch() {
    let catalog = sample();
    let error = catalog.lookup("QspiSectorErase", 2).unwrap_err();
    assert_eq!(error, QspiError::SignatureMismatch("QspiSectorErase".to_string()));
    assert_eq!(error.message(), "mismatched function signature on QspiSectorErase");
    assert_eq!(
        catalog.lookup("QspiRead", 0),
        Err(QspiError::SignatureMismatch("QspiRead".to_string()))
    );
}
