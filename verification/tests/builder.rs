use qspi::action::{select, DEFAULT_TIMEOUT_MS};
use qspi::{
    encode, plan, Action, ActionKind, FunctionCatalog, Instruction, Operation, QspiArgs, QspiError,
};

fn full_catalog() -> FunctionCatalog {
    let mut catalog = FunctionCatalog::new();
    catalog.insert("QspiReadId", 1, 0);
    catalog.insert("QspiReadStatus", 2, 0);
    catalog.insert("QspiBulkErase", 3, 0);
    catalog.insert("QspiPageProgram", 4, 2);
    catalog.insert("QspiRead", 5, 2);
    catalog.insert("QspiSectorErase", 6, 1);
    catalog
}

fn pushes(operation: &Operation) -> usize {
    operation.ops.iter().filter(|op| matches!(op, Instruction::Push32(_))).count()
}

#[test]
fn default_args_select_nothing() {
    let args = QspiArgs::default();
    assert_eq!(args.timeout, 5000);
    assert_eq!(DEFAULT_TIMEOUT_MS, 5000);
    assert_eq!(select(&args), Err(QspiError::NoOperation));
    let error = plan(&args, &full_catalog()).unwrap_err();
    assert_eq!(error, QspiError::NoOperation);
    assert_eq!(error.message(), "expected an operation");
}

#[test]
fn each_switch_selects_its_action() {
    let with = |set: fn(&mut QspiArgs)| {
        let mut args = QspiArgs::default();
        set(&mut args);
        select(&args)
    };
    assert_eq!(with(|a| a.status = true), Ok(ActionKind::ReadStatus));
    assert_eq!(with(|a| a.id = true), Ok(ActionKind::ReadId));
    assert_eq!(with(|a| a.erase = true), Ok(ActionKind::SectorErase));
    assert_eq!(with(|a| a.bulkerase = true), Ok(ActionKind::BulkErase));
    assert_eq!(with(|a| a.read = true), Ok(ActionKind::ReadRange));
    assert_eq!(with(|a| a.write = Some("1".to_string())), Ok(ActionKind::WriteBytes));
}

#[test]
fn the_first_switch_in_order_decides() {
    let mut args = QspiArgs::default();
    args.write = Some("1".to_string());
    args.read = true;
    assert_eq!(select(&args), Ok(ActionKind::ReadRange));
    args.bulkerase = true;
    assert_eq!(select(&args), Ok(ActionKind::BulkErase));
    args.erase = true;
    assert_eq!(select(&args), Ok(ActionKind::SectorErase));
    args.id = true;
    assert_eq!(select(&args), Ok(ActionKind::ReadId));
    args.status = true;
    assert_eq!(select(&args), Ok(ActionKind::ReadStatus));
}

#[test]
fn names_and_arities_of_the_actions() {
    let table = [
        (ActionKind::ReadStatus, "QspiReadStatus", 0),
        (ActionKind::ReadId, "QspiReadId", 0),
        (ActionKind::SectorErase, "QspiSectorErase", 1),
        (ActionKind::BulkErase, "QspiBulkErase", 0),
        (ActionKind::ReadRange, "QspiRead", 2),
        (ActionKind::WriteBytes, "QspiPageProgram", 2),
    ];
    for (kind, name, arity) in table {
        assert_eq!(kind.function_name(), name);
        assert_eq!(kind.arity(), arity);
    }
}

#[test]
fn new_validates_what_each_action_needs() {
    assert_eq!(Action::new(ActionKind::ReadStatus, None, None, None), Ok(Action::ReadStatus));
    assert_eq!(Action::new(ActionKind::ReadId, Some(1), Some(2), None), Ok(Action::ReadId));
    assert_eq!(Action::new(ActionKind::BulkErase, None, None, None), Ok(Action::BulkErase));
    assert_eq!(
        Action::new(ActionKind::SectorErase, Some(0x1000), None, None),
        Ok(Action::SectorErase { addr: 0x1000 })
    );
    assert_eq!(
        Action::new(ActionKind::ReadRange, Some(16), Some(32), None),
        Ok(Action::ReadRange { addr: 16, nbytes: 32 })
    );
    assert_eq!(
        Action::new(ActionKind::WriteBytes, Some(8), None, Some(vec![1, 2])),
        Ok(Action::WriteBytes { addr: 8, data: vec![1, 2] })
    );
}

#[test]
fn new_says_which_parameter_is_missing() {
    assert_eq!(
        Action::new(ActionKind::SectorErase, None, Some(4), None),
        Err(QspiError::MissingAddress)
    );
    assert_eq!(
        Action::new(ActionKind::ReadRange, None, Some(4), None),
        Err(QspiError::MissingAddress)
    );
    assert_eq!(Action::new(ActionKind::ReadRange, None, None, None), Err(QspiError::MissingAddress));
    assert_eq!(
        Action::new(ActionKind::ReadRange, Some(4), None, None),
        Err(QspiError::MissingLength)
    );
    assert_eq!(
        Action::new(ActionKind::WriteBytes, None, None, Some(vec![1])),
        Err(QspiError::MissingAddress)
    );
    assert_eq!(
        Action::new(ActionKind::WriteBytes, Some(4), None, None),
        Err(QspiError::MissingBytes)
    );
    assert_eq!(
        Action::new(ActionKind::WriteBytes, Some(4), None, Some(Vec::new())),
        Err(QspiError::MissingBytes)
    );
    assert_eq!(QspiError::MissingAddress.message(), "expected an address");
    assert_eq!(QspiError::MissingLength.message(), "expected a byte count");
    assert_eq!(QspiError::MissingBytes.message(), "expected bytes to write");
}

#[test]
fn kind_of_each_action() {
    assert_eq!(Action::ReadStatus.kind(), ActionKind::ReadStatus);
    assert_eq!(Action::ReadId.kind(), ActionKind::ReadId);
    assert_eq!(Action::SectorErase { addr: 0 }.kind(), ActionKind::SectorErase);
    assert_eq!(Action::BulkErase.kind(), ActionKind::BulkErase);
    assert_eq!(Action::ReadRange { addr: 0, nbytes: 0 }.kind(), ActionKind::ReadRange);
    assert_eq!(Action::WriteBytes { addr: 0, data: vec![0] }.kind(), ActionKind::WriteBytes);
}

#[test]
fn encode_without_operands() {
    for action in [Action::ReadStatus, Action::ReadId, Action::BulkErase] {
        let operation = encode(action, 9);
        assert_eq!(operation.ops, vec![Instruction::Call(9), Instruction::Done]);
        assert_eq!(operation.payload, None);
    }
}

#[test]
fn encode_read_pushes_address_then_length() {
    let operation = encode(Action::ReadRange { addr: 0x40, nbytes: 0x100 }, 5);
    assert_eq!(
        operation.ops,
        vec![
            Instruction::Push32(0x40),
            Instruction::Push32(0x100),
            Instruction::Call(5),
            Instruction::Done
        ]
    );
    assert_eq!(operation.payload, None);
}

#[test]
fn encode_write_pushes_the_length_of_the_payload() {
    let data: Vec<u8> = (0..=255).collect();
    let operation = encode(Action::WriteBytes { addr: 0, data: data.clone() }, 4);
    assert_eq!(
        operation.ops,
        vec![
            Instruction::Push32(0),
            Instruction::Push32(256),
            Instruction::Call(4),
            Instruction::Done
        ]
    );
    assert_eq!(operation.payload, Some(data));
}

#[test]
fn encode_keeps_the_low_32_bits_of_an_operand() {
    let operation = encode(Action::SectorErase { addr: u32::MAX as usize }, 6);
    assert_eq!(operation.ops[0], Instruction::Push32(u32::MAX));
    if usize::BITS > 32 {
        let wide = (1u64 << 32) as usize;
        let operation = encode(Action::ReadRange { addr: wide + 0x1000, nbytes: wide * 3 + 7 }, 5);
        assert_eq!(operation.ops[0], Instruction::Push32(0x1000));
        assert_eq!(operation.ops[1], Instruction::Push32(7));
    }
}

#[test]
fn expected_results_counts_the_calls() {
    assert_eq!(encode(Action::ReadStatus, 1).expected_results(), 1);
    assert_eq!(encode(Action::WriteBytes { addr: 0, data: vec![1] }, 1).expected_results(), 1);
    let none = Operation { ops: vec![Instruction::Push32(1), Instruction::Done], payload: None };
    assert_eq!(none.expected_results(), 0);
    let two = Operation {
        ops: vec![Instruction::Call(1), Instruction::Push32(1), Instruction::Call(2), Instruction::Done],
        payload: None,
    };
    assert_eq!(two.expected_results(), 2);
}

#[test]
fn planned_pushes_match_the_declared_arity() {
    let catalog = full_catalog();
    let requests: Vec<fn(&mut QspiArgs)> = vec![
        |a| a.status = true,
        |a| a.id = true,
        |a| a.erase = true,
        |a| a.bulkerase = true,
        |a| a.read = true,
        |a| a.write = Some("9,8,7".to_string()),
    ];
    for set in requests {
        let mut args = QspiArgs::default();
        args.addr = Some(0x100);
        args.nbytes = Some(4);
        set(&mut args);
        let kind = select(&args).unwrap();
        let descriptor = catalog.resolve(kind.function_name()).unwrap();
        let operation = plan(&args, &catalog).unwrap();
        assert_eq!(pushes(&operation), descriptor.arity);
        assert_eq!(operation.ops[descriptor.arity], Instruction::Call(descriptor.id));
        assert_eq!(operation.ops.len(), descriptor.arity + 2);
        assert_eq!(operation.ops.last(), Some(&Instruction::Done));
        assert_eq!(operation.expected_results(), 1);
    }
}

#[test]
fn plan_rejects_an_erase_without_address() {
    let mut args = QspiArgs::default();
    args.erase = true;
    args.nbytes = Some(4);
    assert_eq!(plan(&args, &full_catalog()), Err(QspiError::MissingAddress));
}

#[test]
fn plan_rejects_a_read_without_address_or_length() {
    let mut args = QspiArgs::default();
    args.read = true;
    assert_eq!(plan(&args, &full_catalog()), Err(QspiError::MissingAddress));
    args.nbytes = Some(4);
    assert_eq!(plan(&args, &full_catalog()), Err(QspiError::MissingAddress));
    args.nbytes = None;
    args.addr = Some(0);
    assert_eq!(plan(&args, &full_catalog()), Err(QspiError::MissingLength));
}

#[test]
fn plan_rejects_a_write_without_address() {
    let mut args = QspiArgs::default();
    args.write = Some("1,2".to_string());
    assert_eq!(plan(&args, &full_catalog()), Err(QspiError::MissingAddress));
}

#[test]
fn plan_checks_the_function_before_the_parameters() {
    let mut catalog = FunctionCatalog::new();
    catalog.insert("QspiRead", 5, 3);
    let mut args = QspiArgs::default();
    args.erase = true;
    assert_eq!(
        plan(&args, &catalog),
        Err(QspiError::FunctionNotFound("QspiSectorErase".to_string()))
    );
    args.erase = false;
    args.read = true;
    assert_eq!(plan(&args, &catalog), Err(QspiError::SignatureMismatch("QspiRead".to_string())));
    args.read = false;
    args.write = Some("zz".to_string());
    assert_eq!(
        plan(&args, &catalog),
        Err(QspiError::FunctionNotFound("QspiPageProgram".to_string()))
    );
}

#[test]
fn plan_reads_the_bytes_before_it_asks_for_the_address() {
    let mut args = QspiArgs::default();
    args.write = Some("1,zz,3".to_string());
    assert_eq!(plan(&args, &full_catalog()), Err(QspiError::InvalidByte("zz".to_string())));
}

#[test]
fn plan_write_count_is_the_number_of_bytes_read() {
    let catalog = full_catalog();
    for (list, bytes) in [
        ("7", vec![7u8]),
        (" 1, 2 ,3", vec![1, 2, 3]),
        ("0x10,0b11,0o7,1_0", vec![16, 3, 7, 10]),
    ] {
        let mut args = QspiArgs::default();
        args.addr = Some(0x80);
        args.write = Some(list.to_string());
        let operation = plan(&args, &catalog).unwrap();
        assert_eq!(operation.ops[1], Instruction::Push32(bytes.len() as u32));
        assert_eq!(operation.payload, Some(bytes));
    }
}

#[test]
fn plan_ignores_parameters_that_the_action_does_not_take() {
    let mut args = QspiArgs::default();
    args.bulkerase = true;
    args.addr = Some(1);
    args.nbytes = Some(2);
    args.write = Some("zz".to_string());
    let operation = plan(&args, &full_catalog()).unwrap();
    assert_eq!(operation.ops, vec![Instruction::Call(3), Instruction::Done]);
    assert_eq!(operation.payload, None);
}
