use qspi::driver::{start, step, Command, Event, Phase};
use qspi::{plan, FunctionCatalog, Instruction, QspiArgs, QspiError};

#[test]
fn read_status_end_to_end() {
    let mut catalog = FunctionCatalog::new();
    catalog.insert("QspiReadStatus", 17, 0);
    let mut args = QspiArgs::default();
    args.status = true;

    let operation = plan(&args, &catalog).unwrap();
    assert_eq!(operation.ops, vec![Instruction::Call(17), Instruction::Done]);
    assert_eq!(operation.payload, None);
    assert_eq!(operation.expected_results(), 1);

    let (phase, command) = start();
    assert_eq!(command, Command::Submit);
    let (phase, command) = step(phase, Event::Accepted).unwrap();
    assert_eq!(command, Command::Poll { delay_ms: 0 });
    let (phase, command) = step(phase, Event::Pending).unwrap();
    assert_eq!(command, Command::Poll { delay_ms: 100 });
    let (phase, command) = step(phase, Event::Complete).unwrap();
    assert_eq!(phase, Phase::Done);
    assert_eq!(command, Command::Fetch);
}

#[test]
fn sector_erase_end_to_end() {
    let mut catalog = FunctionCatalog::new();
    catalog.insert("QspiSectorErase", 3, 1);
    let mut args = QspiArgs::default();
    args.erase = true;
    args.addr = Some(0x1000);

    let operation = plan(&args, &catalog).unwrap();
    assert_eq!(
        operation.ops,
        vec![Instruction::Push32(0x1000), Instruction::Call(3), Instruction::Done]
    );
    assert_eq!(operation.payload, None);
    assert_eq!(catalog.resolve("QspiSectorErase").unwrap().arity, 1);
}

#[test]
fn write_bytes_end_to_end() {
    let mut catalog = FunctionCatalog::new();
    catalog.insert("QspiPageProgram", 12, 2);
    let mut args = QspiArgs::default();
    args.write = Some("1,2,255".to_string());
    args.addr = Some(0x2000);

    let operation = plan(&args, &catalog).unwrap();
    assert_eq!(
        operation.ops,
        vec![
            Instruction::Push32(0x2000),
            Instruction::Push32(3),
            Instruction::Call(12),
            Instruction::Done
        ]
    );
    assert_eq!(operation.payload, Some(vec![1, 2, 255]));
    assert_eq!(catalog.resolve("QspiPageProgram").unwrap().arity, 2);
}

#[test]
fn absent_function_end_to_end() {
    let mut catalog = FunctionCatalog::new();
    catalog.insert("QspiReadStatus", 17, 0);
    let mut args = QspiArgs::default();
    args.id = true;

    let error = plan(&args, &catalog).unwrap_err();
    assert_eq!(error, QspiError::FunctionNotFound("QspiReadId".to_string()));
    assert!(error.message().contains("QspiReadId"));
    assert_eq!(error.message(), "did not find QspiReadId function");
}

#[test]
fn malformed_byte_end_to_end() {
    let mut catalog = FunctionCatalog::new();
    catalog.insert("QspiPageProgram", 12, 2);
    let mut args = QspiArgs::default();
    args.write = Some("1,zz,3".to_string());
    args.addr = Some(0x2000);

    let error = plan(&args, &catalog).unwrap_err();
    assert_eq!(error, QspiError::InvalidByte("zz".to_string()));
    assert_eq!(error.message(), "invalid byte zz");
}
