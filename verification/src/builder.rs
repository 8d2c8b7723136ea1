//! From a request to the operation that is submitted to the target.

use crate::action::{
    select, selected, validated, Action, ActionKind, ActionView, QspiArgs, QspiArgsView,
};
use crate::bytes::{
    byte_list, evaluated, fields, lemma_collected_bytes, lemma_collected_names_first_gap,
    parse_bytes, parsed_byte,
};
use crate::catalog::{checked, FunctionCatalog, FunctionDescriptor};
use crate::error::{QspiError, QspiErrorView};
use crate::instruction::{call_count, push_count, terminated, Instruction, Operation, OperationView};
use vstd::prelude::*;

verus! {

/// The low 32 bits of a number: what a 32-bit operand keeps of it.
pub open spec fn low32(value: int) -> u32 {
    (value % 0x1_0000_0000) as u32
}

fn low_word(value: usize) -> (word: u32)
    ensures
        word == low32(value as int),
{
    let wide = value as u64;
    (wide % 0x1_0000_0000) as u32
}

/// The constants that an action pushes before its call, first pushed first.
pub open spec fn operands(action: ActionView) -> Seq<u32> {
    match action {
        ActionView::ReadStatus => seq![],
        ActionView::ReadId => seq![],
        ActionView::BulkErase => seq![],
        ActionView::SectorErase { addr } => seq![low32(addr as int)],
        ActionView::ReadRange { addr, nbytes } => seq![low32(addr as int), low32(nbytes as int)],
        ActionView::WriteBytes { addr, data } => seq![low32(addr as int), low32(data.len() as int)],
    }
}

/// The instructions that push `words`, in order.
pub open spec fn pushes(words: Seq<u32>) -> Seq<Instruction> {
    words.map_values(|word: u32| Instruction::Push32(word))
}

/// The bytes that go to the target with an action's instructions.
pub open spec fn payload_of(action: ActionView) -> Option<Seq<u8>> {
    match action {
        ActionView::WriteBytes { data, .. } => Some(data),
        _ => None,
    }
}

/// The operation that performs `action` through the function `id`: a push
/// for each operand, the call, the terminator.
pub open spec fn encoded(action: ActionView, id: u8) -> OperationView {
    OperationView {
        ops: pushes(operands(action)) + seq![Instruction::Call(id), Instruction::Done],
        payload: payload_of(action),
    }
}

/// Builds the operation that performs `action` through the function `id`.
pub fn encode(action: Action, id: u8) -> (operation: Operation)
    ensures
        operation@ == encoded(action@, id),
{
    let mut ops: Vec<Instruction> = Vec::new();
    let payload = match action {
        Action::ReadStatus => None,
        Action::ReadId => None,
        Action::BulkErase => None,
        Action::SectorErase { addr } => {
            ops.push(Instruction::Push32(low_word(addr)));
            None
        },
        Action::ReadRange { addr, nbytes } => {
            ops.push(Instruction::Push32(low_word(addr)));
            ops.push(Instruction::Push32(low_word(nbytes)));
            None
        },
        Action::WriteBytes { addr, data } => {
            ops.push(Instruction::Push32(low_word(addr)));
            ops.push(Instruction::Push32(low_word(data.len())));
            Some(data)
        },
    };
    ops.push(Instruction::Call(id));
    ops.push(Instruction::Done);
    let operation = Operation { ops, payload };
    proof {
        assert(operation@.ops =~= encoded(action@, id).ops);
    }
    operation
}

/// The bytes that a request of the given kind writes: those of its byte list
/// for a write, none for the other actions.
pub open spec fn write_data(kind: ActionKind, write: Option<Seq<char>>) -> Result<
    Option<Seq<u8>>,
    QspiErrorView,
> {
    match (kind, write) {
        (ActionKind::WriteBytes, Some(list)) => match byte_list(list) {
            Ok(bytes) => Ok(Some(bytes)),
            Err(error) => Err(error),
        },
        _ => Ok(None),
    }
}

/// What a request comes to against a function table: the operation to
/// submit, or the first fault found. The action is selected first; then its
/// function is looked up; then the byte list is read; then the parameters are
/// validated.
pub open spec fn planned(args: QspiArgsView, table: Map<Seq<char>, FunctionDescriptor>) -> Result<
    OperationView,
    QspiErrorView,
> {
    match selected(args) {
        None => Err(QspiErrorView::NoOperation),
        Some(kind) => match checked(table, kind.name(), kind.operand_count() as usize) {
            Err(error) => Err(error),
            Ok(descriptor) => match write_data(kind, args.write) {
                Err(error) => Err(error),
                Ok(data) => match validated(kind, args.addr, args.nbytes, data) {
                    Err(error) => Err(error),
                    Ok(action) => Ok(encoded(action, descriptor.id)),
                },
            },
        },
    }
}

/// Turns a request into the operation to submit, or says why there is none.
/// Nothing here touches the target.
pub fn plan(args: &QspiArgs, catalog: &FunctionCatalog) -> (result: Result<Operation, QspiError>)
    ensures
        result matches Ok(operation) ==> planned(args@, catalog@) == Ok::<
            OperationView,
            QspiErrorView,
        >(operation@),
        result matches Err(error) ==> planned(args@, catalog@) == Err::<
            OperationView,
            QspiErrorView,
        >(error@),
{
    let kind = match select(args) {
        Ok(kind) => kind,
        Err(error) => {
            return Err(error);
        },
    };
    let descriptor = match catalog.lookup(kind.function_name(), kind.arity()) {
        Ok(descriptor) => descriptor,
        Err(error) => {
            return Err(error);
        },
    };
    let data = match kind {
        ActionKind::WriteBytes => match &args.write {
            Some(list) => match parse_bytes(list.as_str()) {
                Ok(bytes) => Some(bytes),
                Err(error) => {
                    return Err(error);
                },
            },
            None => None,
        },
        _ => None,
    };
    match Action::new(kind, args.addr, args.nbytes, data) {
        Ok(action) => Ok(encode(action, descriptor.id)),
        Err(error) => Err(error),
    }
}

proof fn lemma_pushes_only_push(words: Seq<u32>)
    ensures
        push_count(pushes(words)) == words.len(),
        call_count(pushes(words)) == 0,
    decreases words.len(),
{
    if words.len() > 0 {
        assert(pushes(words).drop_last() =~= pushes(words.drop_last()));
        lemma_pushes_only_push(words.drop_last());
    }
}

/// The shape of every encoded operation: as many pushes as the action has
/// operands, then the one call, then the one terminator, and nothing else.
pub proof fn lemma_encoded_shape(action: ActionView, id: u8)
    ensures
        encoded(action, id).ops.len() == operands(action).len() + 2,
        operands(action).len() == action.kind().operand_count(),
        push_count(encoded(action, id).ops) == operands(action).len(),
        call_count(encoded(action, id).ops) == 1,
        encoded(action, id).ops[operands(action).len() as int] == Instruction::Call(id),
        terminated(encoded(action, id).ops),
        encoded(action, id).payload is Some <==> action is WriteBytes,
{
    let ops = encoded(action, id).ops;
    let front = pushes(operands(action));
    lemma_pushes_only_push(operands(action));
    let called = front.push(Instruction::Call(id));
    assert(called.drop_last() =~= front);
    assert(push_count(called) == push_count(front));
    assert(call_count(called) == call_count(front) + 1);
    assert(ops.drop_last() =~= called);
}

/// The number of constants that a planned operation pushes before its call is
/// the number of arguments that the function table declares for the function
/// it calls, and the call names that function.
pub proof fn lemma_planned_arity_is_declared(
    args: QspiArgsView,
    table: Map<Seq<char>, FunctionDescriptor>,
)
    requires
        planned(args, table) is Ok,
    ensures
        selected(args) matches Some(kind) && table.contains_key(kind.name()) && ({
            let ops = planned(args, table)->Ok_0.ops;
            let descriptor = table[kind.name()];
            &&& push_count(ops) == descriptor.arity
            &&& call_count(ops) == 1
            &&& ops[descriptor.arity as int] == Instruction::Call(descriptor.id)
            &&& terminated(ops)
        }),
{
    let kind = selected(args)->0;
    let descriptor = table[kind.name()];
    let data = write_data(kind, args.write)->Ok_0;
    let action = validated(kind, args.addr, args.nbytes, data)->Ok_0;
    lemma_encoded_shape(action, descriptor.id);
}

/// A sector erase without an address, and a read without an address or
/// without a byte count, come to no operation: there is nothing to submit.
/// Where the function table has the action's function, the error says which
/// parameter is missing.
pub proof fn lemma_missing_parameter_is_rejected(
    args: QspiArgsView,
    table: Map<Seq<char>, FunctionDescriptor>,
)
    requires
        ({
            ||| selected(args) == Some(ActionKind::SectorErase) && args.addr is None
            ||| selected(args) == Some(ActionKind::ReadRange) && (args.addr is None
                || args.nbytes is None)
        }),
    ensures
        planned(args, table) is Err,
        checked(table, selected(args)->0.name(), selected(args)->0.operand_count() as usize) is Ok
            ==> planned(args, table) == Err::<OperationView, QspiErrorView>(
            if args.addr is None {
                QspiErrorView::MissingAddress
            } else {
                QspiErrorView::MissingLength
            },
        ),
{
}

/// In a planned write the second constant pushed is the number of bytes in
/// the payload, and the payload holds one byte for each field of the byte
/// list: the byte that the field was read as. The count is pushed as a
/// 32-bit constant, so it is exact for every payload of less than 2^32 bytes.
pub proof fn lemma_write_count_is_payload_length(
    args: QspiArgsView,
    table: Map<Seq<char>, FunctionDescriptor>,
)
    requires
        selected(args) == Some(ActionKind::WriteBytes),
        planned(args, table) is Ok,
    ensures
        args.write matches Some(list) && planned(args, table)->Ok_0.payload matches Some(data) && ({
            let ops = planned(args, table)->Ok_0.ops;
            &&& byte_list(list) == Ok::<Seq<u8>, QspiErrorView>(data)
            &&& data.len() == fields(list).len()
            &&& forall|i: int|
                0 <= i < data.len() ==> parsed_byte(fields(list)[i]) == Some(#[trigger] data[i])
            &&& ops[1] == Instruction::Push32(low32(data.len() as int))
            &&& data.len() <= u32::MAX ==> ops[1] == Instruction::Push32(data.len() as u32)
        }),
{
    let list = args.write->0;
    lemma_collected_bytes(evaluated(fields(list)));
}

/// A byte list with a field that is no byte fails the whole request, with
/// the error that names the first such field; no operation comes of it.
pub proof fn lemma_malformed_field_fails_request(
    args: QspiArgsView,
    table: Map<Seq<char>, FunctionDescriptor>,
    at: int,
)
    requires
        selected(args) == Some(ActionKind::WriteBytes),
        checked(table, ActionKind::WriteBytes.name(), 2) is Ok,
        0 <= at < fields(args.write->0).len(),
        parsed_byte(fields(args.write->0)[at]) is None,
        forall|i: int| 0 <= i < at ==> parsed_byte(fields(args.write->0)[i]) is Some,
    ensures
        planned(args, table) == Err::<OperationView, QspiErrorView>(
            QspiErrorView::InvalidByte(fields(args.write->0)[at]),
        ),
{
    let list = args.write->0;
    lemma_collected_names_first_gap(evaluated(fields(list)), at);
}

} // verus!
