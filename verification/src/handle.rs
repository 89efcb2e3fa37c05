//! Load handles, load states and reload notifications.

use vstd::prelude::*;

verus! {

/// Opaque token identifying one in-flight or completed load of a source
/// location. Handles are issued by the store with increasing identifiers;
/// requesting a new load for the same location supersedes the earlier
/// handle without cancelling its in-flight work.
#[derive(Clone, Copy, PartialEq, Eq, Structural, Debug)]
pub struct LoadHandle {
    pub id: u64,
}

/// State attached to a load handle. A handle starts `Pending` and makes at
/// most one transition, to `Loaded` (carrying the fetched bytes) or to
/// `Failed` (carrying an I/O description).
#[derive(Debug)]
pub enum LoadState {
    Pending,
    Loaded(Vec<u8>),
    Failed(String),
}

/// Mathematical model of a [`LoadState`].
pub enum LoadStateModel {
    Pending,
    Loaded(Seq<u8>),
    Failed(Seq<char>),
}

impl View for LoadState {
    type V = LoadStateModel;

    open spec fn view(&self) -> LoadStateModel {
        match self {
            LoadState::Pending => LoadStateModel::Pending,
            LoadState::Loaded(bytes) => LoadStateModel::Loaded(bytes@),
            LoadState::Failed(reason) => LoadStateModel::Failed(reason@),
        }
    }
}

/// Notification emitted exactly once per successful publish.
#[derive(Debug)]
pub struct ReloadEvent {
    /// The location whose payload was republished.
    pub location: String,
    /// Publish counter of the emitting controller after this publish;
    /// the first publish carries generation 1.
    pub generation: u64,
}

/// Mathematical model of a [`ReloadEvent`].
pub struct ReloadEventModel {
    pub location: Seq<char>,
    pub generation: u64,
}

impl View for ReloadEvent {
    type V = ReloadEventModel;

    open spec fn view(&self) -> ReloadEventModel {
        ReloadEventModel { location: self.location@, generation: self.generation }
    }
}

impl DeepView for ReloadEvent {
    type V = ReloadEventModel;

    open spec fn deep_view(&self) -> ReloadEventModel {
        self.view()
    }
}

} // verus!
