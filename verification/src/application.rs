//! Installed applications as the conductor reports them: identifier, status
//! and cell handles.

use vstd::prelude::*;

verus! {

/// The kind of an application's status, by which a listing can be filtered.
#[derive(Clone, Copy, Debug, PartialEq, Eq, Structural)]
pub enum StatusKind {
    Running,
    Paused,
    Disabled,
    AwaitingInput,
}

/// The status of an installed application at the time of a query.
#[derive(Debug, PartialEq, Eq)]
pub enum ApplicationStatus {
    /// The application runs.
    Running,
    /// The application was started and has been paused.
    Paused { reason: String },
    /// The application is switched off.
    Disabled { reason: String },
    /// The application is installed and waits for input before it can be
    /// activated.
    AwaitingInput,
}

/// An `ApplicationStatus` with its text as sequences of characters.
pub enum StatusModel {
    Running,
    Paused { reason: Seq<char> },
    Disabled { reason: Seq<char> },
    AwaitingInput,
}

impl StatusModel {
    /// The kind of the status.
    pub open spec fn kind(self) -> StatusKind {
        match self {
            StatusModel::Running => StatusKind::Running,
            StatusModel::Paused { .. } => StatusKind::Paused,
            StatusModel::Disabled { .. } => StatusKind::Disabled,
            StatusModel::AwaitingInput => StatusKind::AwaitingInput,
        }
    }
}

impl View for ApplicationStatus {
    type V = StatusModel;

    open spec fn view(&self) -> StatusModel {
        match *self {
            ApplicationStatus::Running => StatusModel::Running,
            ApplicationStatus::Paused { reason } => StatusModel::Paused { reason: reason@ },
            ApplicationStatus::Disabled { reason } => StatusModel::Disabled { reason: reason@ },
            ApplicationStatus::AwaitingInput => StatusModel::AwaitingInput,
        }
    }
}

impl Clone for ApplicationStatus {
    fn clone(&self) -> (out: Self)
        ensures
            out@ == self@,
    {
        match self {
            ApplicationStatus::Running => ApplicationStatus::Running,
            ApplicationStatus::Paused { reason } => ApplicationStatus::Paused {
                reason: reason.clone(),
            },
            ApplicationStatus::Disabled { reason } => ApplicationStatus::Disabled {
                reason: reason.clone(),
            },
            ApplicationStatus::AwaitingInput => ApplicationStatus::AwaitingInput,
        }
    }
}

impl ApplicationStatus {
    /// The kind of the status.
    pub fn kind(&self) -> (k: StatusKind)
        ensures
            k == self@.kind(),
    {
        match self {
            ApplicationStatus::Running => StatusKind::Running,
            ApplicationStatus::Paused { .. } => StatusKind::Paused,
            ApplicationStatus::Disabled { .. } => StatusKind::Disabled,
            ApplicationStatus::AwaitingInput => StatusKind::AwaitingInput,
        }
    }
}

/// The handle of one cell of an application: the hash of its code and the
/// key of the agent that runs it. The library carries both as opaque bytes.
#[derive(Debug, PartialEq, Eq)]
pub struct CellHandle {
    pub dna: Vec<u8>,
    pub agent: Vec<u8>,
}

/// A `CellHandle` as two sequences of bytes.
pub struct CellModel {
    pub dna: Seq<u8>,
    pub agent: Seq<u8>,
}

impl View for CellHandle {
    type V = CellModel;

    open spec fn view(&self) -> CellModel {
        CellModel { dna: self.dna@, agent: self.agent@ }
    }
}

impl Clone for CellHandle {
    fn clone(&self) -> (out: Self)
        ensures
            out@ == self@,
    {
        CellHandle { dna: self.dna.clone(), agent: self.agent.clone() }
    }
}

/// One installed application.
#[derive(Debug, PartialEq, Eq)]
pub struct ApplicationDescriptor {
    pub id: String,
    pub status: ApplicationStatus,
    pub cells: Vec<CellHandle>,
}

/// An `ApplicationDescriptor` over sequences.
pub struct DescriptorModel {
    pub id: Seq<char>,
    pub status: StatusModel,
    pub cells: Seq<CellModel>,
}

/// The models of the cell handles, in order.
pub open spec fn cell_models(cells: Seq<CellHandle>) -> Seq<CellModel> {
    Seq::new(cells.len(), |i: int| cells[i]@)
}

impl View for ApplicationDescriptor {
    type V = DescriptorModel;

    open spec fn view(&self) -> DescriptorModel {
        DescriptorModel { id: self.id@, status: self.status@, cells: cell_models(self.cells@) }
    }
}

/// The models of the descriptors, in order.
pub open spec fn models(apps: Seq<ApplicationDescriptor>) -> Seq<DescriptorModel> {
    Seq::new(apps.len(), |i: int| apps[i]@)
}

/// The identifiers of the descriptors, in order.
pub open spec fn ids_of(apps: Seq<DescriptorModel>) -> Seq<Seq<char>> {
    Seq::new(apps.len(), |i: int| apps[i].id)
}

} // verus!
