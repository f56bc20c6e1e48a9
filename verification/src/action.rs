//! What has to be done outside the store once a change is committed.

use vstd::prelude::*;

verus! {

/// One thing that the caller of an operation has to do. The caller carries
/// the actions of an operation out in their order: first the commit of the
/// store's change, then the side effects on the volume manager and the
/// mailer. When an action fails that is not best-effort, the rest is left
/// undone; what was committed stays.
#[derive(Debug)]
pub enum Action {
    /// Commit the store as the operation has left it.
    Commit,
    /// Provision the volume.
    CreateVolume { volume: String },
    /// Restrict access to the volume to `owner`.
    RestrictToOwner { volume: String, owner: String },
    /// Mark the volume read-only, or writable again.
    SetReadOnly { volume: String, read_only: bool },
    /// Rename the volume.
    RenameVolume { volume: String, new_volume: String },
    /// Tell `owner` that the workspace was created and expires in `days`
    /// days.
    NotifyCreated { owner: String, name: String, volume: String, days: i64 },
    /// Tell `owner` that the workspace was extended: it now expires at
    /// `expiration`, in `days` days.
    NotifyExtended { owner: String, name: String, expiration: i64, days: i64 },
}

/// An action as a mathematical value.
pub enum ActionView {
    Commit,
    CreateVolume { volume: Seq<char> },
    RestrictToOwner { volume: Seq<char>, owner: Seq<char> },
    SetReadOnly { volume: Seq<char>, read_only: bool },
    RenameVolume { volume: Seq<char>, new_volume: Seq<char> },
    NotifyCreated { owner: Seq<char>, name: Seq<char>, volume: Seq<char>, days: i64 },
    NotifyExtended { owner: Seq<char>, name: Seq<char>, expiration: i64, days: i64 },
}

impl View for Action {
    type V = ActionView;

    open spec fn view(&self) -> ActionView {
        match self {
            Action::Commit => ActionView::Commit,
            Action::CreateVolume { volume } => ActionView::CreateVolume { volume: volume@ },
            Action::RestrictToOwner { volume, owner } => ActionView::RestrictToOwner {
                volume: volume@,
                owner: owner@,
            },
            Action::SetReadOnly { volume, read_only } => ActionView::SetReadOnly {
                volume: volume@,
                read_only: *read_only,
            },
            Action::RenameVolume { volume, new_volume } => ActionView::RenameVolume {
                volume: volume@,
                new_volume: new_volume@,
            },
            Action::NotifyCreated { owner, name, volume, days } => ActionView::NotifyCreated {
                owner: owner@,
                name: name@,
                volume: volume@,
                days: *days,
            },
            Action::NotifyExtended { owner, name, expiration, days } => ActionView::NotifyExtended {
                owner: owner@,
                name: name@,
                expiration: *expiration,
                days: *days,
            },
        }
    }
}

/// The actions of a vector, as mathematical values.
pub open spec fn action_views(actions: Seq<Action>) -> Seq<ActionView> {
    actions.map_values(|action: Action| action@)
}

impl ActionView {
    /// Whether a failure of the action is only reported, and the actions
    /// after it are still carried out. That holds of the notifications.
    pub open spec fn is_best_effort(self) -> bool {
        self is NotifyCreated || self is NotifyExtended
    }
}

impl Action {
    /// Whether a failure of the action is only reported, and the actions
    /// after it are still carried out.
    pub fn is_best_effort(&self) -> (best_effort: bool)
        ensures
            best_effort == self@.is_best_effort(),
    {
        match self {
            Action::NotifyCreated { .. } => true,
            Action::NotifyExtended { .. } => true,
            _ => false,
        }
    }
}

} // verus!
