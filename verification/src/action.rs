//! What a caller asks for, and the validated action that comes of it.

use crate::error::{QspiError, QspiErrorView};
use vstd::prelude::*;

verus! {

/// How long the target is given to run an operation where the caller does not
/// say, in milliseconds.
pub const DEFAULT_TIMEOUT_MS: u32 = 5000;

/// A request as the caller states it: one switch for each action, and the
/// parameters that the actions take.
#[derive(Debug, PartialEq, Eq)]
pub struct QspiArgs {
    /// How long the target is given to run the operation, in milliseconds.
    pub timeout: u32,
    /// Read the status register.
    pub status: bool,
    /// Read the device identifier.
    pub id: bool,
    /// Erase the sector at `addr`.
    pub erase: bool,
    /// Erase the whole device.
    pub bulkerase: bool,
    /// Read `nbytes` bytes at `addr`.
    pub read: bool,
    /// Flash address in bytes.
    pub addr: Option<usize>,
    /// Size in bytes.
    pub nbytes: Option<usize>,
    /// Comma-separated bytes to write at `addr`.
    pub write: Option<String>,
}

/// `QspiArgs` with the byte list as a sequence of characters.
pub struct QspiArgsView {
    pub timeout: u32,
    pub status: bool,
    pub id: bool,
    pub erase: bool,
    pub bulkerase: bool,
    pub read: bool,
    pub addr: Option<usize>,
    pub nbytes: Option<usize>,
    pub write: Option<Seq<char>>,
}

impl View for QspiArgs {
    type V = QspiArgsView;

    open spec fn view(&self) -> QspiArgsView {
        QspiArgsView {
            timeout: self.timeout,
            status: self.status,
            id: self.id,
            erase: self.erase,
            bulkerase: self.bulkerase,
            read: self.read,
            addr: self.addr,
            nbytes: self.nbytes,
            write: match self.write {
                Some(list) => Some(list@),
                None => None,
            },
        }
    }
}

impl Default for QspiArgs {
    /// No action selected, no parameter given, the default timeout.
    fn default() -> (args: QspiArgs)
        ensures
            args@ == (QspiArgsView {
                timeout: DEFAULT_TIMEOUT_MS,
                status: false,
                id: false,
                erase: false,
                bulkerase: false,
                read: false,
                addr: None,
                nbytes: None,
                write: None,
            }),
    {
        QspiArgs {
            timeout: DEFAULT_TIMEOUT_MS,
            status: false,
            id: false,
            erase: false,
            bulkerase: false,
            read: false,
            addr: None,
            nbytes: None,
            write: None,
        }
    }
}

/// The six things that can be asked of the flash device.
#[derive(Clone, Copy, Debug, PartialEq, Eq, Structural)]
pub enum ActionKind {
    ReadStatus,
    ReadId,
    SectorErase,
    BulkErase,
    ReadRange,
    WriteBytes,
}

impl ActionKind {
    /// The name of the target's function that performs the action.
    pub open spec fn name(self) -> Seq<char> {
        match self {
            ActionKind::ReadStatus => "QspiReadStatus"@,
            ActionKind::ReadId => "QspiReadId"@,
            ActionKind::SectorErase => "QspiSectorErase"@,
            ActionKind::BulkErase => "QspiBulkErase"@,
            ActionKind::ReadRange => "QspiRead"@,
            ActionKind::WriteBytes => "QspiPageProgram"@,
        }
    }

    /// The number of arguments that the action passes to that function.
    pub open spec fn operand_count(self) -> nat {
        match self {
            ActionKind::ReadStatus => 0,
            ActionKind::ReadId => 0,
            ActionKind::SectorErase => 1,
            ActionKind::BulkErase => 0,
            ActionKind::ReadRange => 2,
            ActionKind::WriteBytes => 2,
        }
    }

    /// The name of the target's function that performs the action.
    pub fn function_name(self) -> (name: &'static str)
        ensures
            name@ == self.name(),
    {
        match self {
            ActionKind::ReadStatus => "QspiReadStatus",
            ActionKind::ReadId => "QspiReadId",
            ActionKind::SectorErase => "QspiSectorErase",
            ActionKind::BulkErase => "QspiBulkErase",
            ActionKind::ReadRange => "QspiRead",
            ActionKind::WriteBytes => "QspiPageProgram",
        }
    }

    /// The number of arguments that the action passes to that function.
    pub fn arity(self) -> (count: usize)
        ensures
            count == self.operand_count(),
    {
        match self {
            ActionKind::ReadStatus => 0,
            ActionKind::ReadId => 0,
            ActionKind::SectorErase => 1,
            ActionKind::BulkErase => 0,
            ActionKind::ReadRange => 2,
            ActionKind::WriteBytes => 2,
        }
    }
}

/// The action that a request selects. Where several switches are set, the
/// first in the order status, id, erase, bulk erase, read, write decides.
pub open spec fn selected(args: QspiArgsView) -> Option<ActionKind> {
    if args.status {
        Some(ActionKind::ReadStatus)
    } else if args.id {
        Some(ActionKind::ReadId)
    } else if args.erase {
        Some(ActionKind::SectorErase)
    } else if args.bulkerase {
        Some(ActionKind::BulkErase)
    } else if args.read {
        Some(ActionKind::ReadRange)
    } else if args.write is Some {
        Some(ActionKind::WriteBytes)
    } else {
        None
    }
}

/// Finds the action that a request selects.
pub fn select(args: &QspiArgs) -> (result: Result<ActionKind, QspiError>)
    ensures
        result matches Ok(kind) ==> selected(args@) == Some(kind),
        result matches Err(error) ==> selected(args@) is None && error@
            == QspiErrorView::NoOperation,
{
    if args.status {
        Ok(ActionKind::ReadStatus)
    } else if args.id {
        Ok(ActionKind::ReadId)
    } else if args.erase {
        Ok(ActionKind::SectorErase)
    } else if args.bulkerase {
        Ok(ActionKind::BulkErase)
    } else if args.read {
        Ok(ActionKind::ReadRange)
    } else if args.write.is_some() {
        Ok(ActionKind::WriteBytes)
    } else {
        Err(QspiError::NoOperation)
    }
}

/// A validated request: one action with the parameters it needs.
#[derive(Debug, PartialEq, Eq)]
pub enum Action {
    ReadStatus,
    ReadId,
    SectorErase { addr: usize },
    BulkErase,
    ReadRange { addr: usize, nbytes: usize },
    WriteBytes { addr: usize, data: Vec<u8> },
}

/// An `Action` with its bytes as a sequence.
pub enum ActionView {
    ReadStatus,
    ReadId,
    SectorErase { addr: usize },
    BulkErase,
    ReadRange { addr: usize, nbytes: usize },
    WriteBytes { addr: usize, data: Seq<u8> },
}

impl View for Action {
    type V = ActionView;

    open spec fn view(&self) -> ActionView {
        match self {
            Action::ReadStatus => ActionView::ReadStatus,
            Action::ReadId => ActionView::ReadId,
            Action::SectorErase { addr } => ActionView::SectorErase { addr: *addr },
            Action::BulkErase => ActionView::BulkErase,
            Action::ReadRange { addr, nbytes } => ActionView::ReadRange {
                addr: *addr,
                nbytes: *nbytes,
            },
            Action::WriteBytes { addr, data } => ActionView::WriteBytes { addr: *addr, data: data@ },
        }
    }
}

impl ActionView {
    /// Which of the six actions this is.
    pub open spec fn kind(self) -> ActionKind {
        match self {
            ActionView::ReadStatus => ActionKind::ReadStatus,
            ActionView::ReadId => ActionKind::ReadId,
            ActionView::SectorErase { .. } => ActionKind::SectorErase,
            ActionView::BulkErase => ActionKind::BulkErase,
            ActionView::ReadRange { .. } => ActionKind::ReadRange,
            ActionView::WriteBytes { .. } => ActionKind::WriteBytes,
        }
    }
}

/// The bytes of an optional buffer.
pub open spec fn data_view(data: Option<Vec<u8>>) -> Option<Seq<u8>> {
    match data {
        Some(bytes) => Some(bytes@),
        None => None,
    }
}

/// The action of the given kind with the given parameters, or what it lacks:
/// an erase, a read and a write need an address, a read needs a byte count as
/// well, and a write needs at least one byte.
pub open spec fn validated(
    kind: ActionKind,
    addr: Option<usize>,
    nbytes: Option<usize>,
    data: Option<Seq<u8>>,
) -> Result<ActionView, QspiErrorView> {
    match kind {
        ActionKind::ReadStatus => Ok(ActionView::ReadStatus),
        ActionKind::ReadId => Ok(ActionView::ReadId),
        ActionKind::BulkErase => Ok(ActionView::BulkErase),
        ActionKind::SectorErase => match addr {
            Some(addr) => Ok(ActionView::SectorErase { addr }),
            None => Err(QspiErrorView::MissingAddress),
        },
        ActionKind::ReadRange => match (addr, nbytes) {
            (Some(addr), Some(nbytes)) => Ok(ActionView::ReadRange { addr, nbytes }),
            (None, _) => Err(QspiErrorView::MissingAddress),
            (Some(_), None) => Err(QspiErrorView::MissingLength),
        },
        ActionKind::WriteBytes => match (data, addr) {
            (Some(data), Some(addr)) => if data.len() > 0 {
                Ok(ActionView::WriteBytes { addr, data })
            } else {
                Err(QspiErrorView::MissingBytes)
            },
            (None, _) => Err(QspiErrorView::MissingBytes),
            (Some(_), None) => Err(QspiErrorView::MissingAddress),
        },
    }
}

impl Action {
    /// Validates the parameters of an action of the given kind. Parameters
    /// that the action does not take are ignored.
    pub fn new(
        kind: ActionKind,
        addr: Option<usize>,
        nbytes: Option<usize>,
        data: Option<Vec<u8>>,
    ) -> (result: Result<Action, QspiError>)
        ensures
            result matches Ok(action) ==> validated(kind, addr, nbytes, data_view(data)) == Ok::<
                ActionView,
                QspiErrorView,
            >(action@),
            result matches Err(error) ==> validated(kind, addr, nbytes, data_view(data)) == Err::<
                ActionView,
                QspiErrorView,
            >(error@),
    {
        match kind {
            ActionKind::ReadStatus => Ok(Action::ReadStatus),
            ActionKind::ReadId => Ok(Action::ReadId),
            ActionKind::BulkErase => Ok(Action::BulkErase),
            ActionKind::SectorErase => match addr {
                Some(addr) => Ok(Action::SectorErase { addr }),
                None => Err(QspiError::MissingAddress),
            },
            ActionKind::ReadRange => match addr {
                None => Err(QspiError::MissingAddress),
                Some(addr) => match nbytes {
                    Some(nbytes) => Ok(Action::ReadRange { addr, nbytes }),
                    None => Err(QspiError::MissingLength),
                },
            },
            ActionKind::WriteBytes => match data {
                None => Err(QspiError::MissingBytes),
                Some(data) => match addr {
                    None => Err(QspiError::MissingAddress),
                    Some(addr) => if data.len() > 0 {
                        Ok(Action::WriteBytes { addr, data })
                    } else {
                        Err(QspiError::MissingBytes)
                    },
                },
            },
        }
    }

    /// Which of the six actions this is.
    pub fn kind(&self) -> (kind: ActionKind)
        ensures
            kind == self@.kind(),
    {
        match self {
            Action::ReadStatus => ActionKind::ReadStatus,
            Action::ReadId => ActionKind::ReadId,
            Action::SectorErase { .. } => ActionKind::SectorErase,
            Action::BulkErase => ActionKind::BulkErase,
            Action::ReadRange { .. } => ActionKind::ReadRange,
            Action::WriteBytes { .. } => ActionKind::WriteBytes,
        }
    }
}

} // verus!
