//! Postures of the session and the panes that can have the focus.
use vstd::prelude::*;

verus! {

/// How commands are carried out.
#[derive(Clone, Copy, Debug, PartialEq, Eq, Structural)]
pub enum ExecutionMode {
    Plan,
    Agent,
    Yolo,
}

impl ExecutionMode {
    /// The posture that follows: plan and agent alternate, and YOLO is retired.
    pub open spec fn following(self) -> Self {
        match self {
            ExecutionMode::Plan => ExecutionMode::Agent,
            ExecutionMode::Agent => ExecutionMode::Plan,
            ExecutionMode::Yolo => ExecutionMode::Plan,
        }
    }

    /// The name that the user sees.
    pub open spec fn title(self) -> Seq<char> {
        match self {
            ExecutionMode::Plan => "Plan"@,
            ExecutionMode::Agent => "Agent"@,
            ExecutionMode::Yolo => "YOLO"@,
        }
    }

    /// The posture that follows: the read-only plan and the live agent alternate.
    pub fn next(self) -> (mode: Self)
        ensures
            mode == self.following(),
    {
        match self {
            Self::Plan => Self::Agent,
            Self::Agent => Self::Plan,
            Self::Yolo => Self::Plan,
        }
    }

    /// The name that the user sees.
    pub fn label(self) -> (label: &'static str)
        ensures
            label@ == self.title(),
    {
        match self {
            Self::Plan => "Plan",
            Self::Agent => "Agent",
            Self::Yolo => "YOLO",
        }
    }
}

/// How much is asked before acting.
#[derive(Clone, Copy, Debug, PartialEq, Eq, Structural)]
pub enum PermissionMode {
    Ask,
    AutoReview,
    FullAccess,
}

impl PermissionMode {
    /// The posture that follows.
    pub open spec fn following(self) -> Self {
        match self {
            PermissionMode::Ask => PermissionMode::AutoReview,
            PermissionMode::AutoReview => PermissionMode::FullAccess,
            PermissionMode::FullAccess => PermissionMode::Ask,
        }
    }

    /// The name that the user sees.
    pub open spec fn title(self) -> Seq<char> {
        match self {
            PermissionMode::Ask => "Ask"@,
            PermissionMode::AutoReview => "Auto-review"@,
            PermissionMode::FullAccess => "Full access"@,
        }
    }

    /// The posture that follows.
    pub fn next(self) -> (mode: Self)
        ensures
            mode == self.following(),
    {
        match self {
            Self::Ask => Self::AutoReview,
            Self::AutoReview => Self::FullAccess,
            Self::FullAccess => Self::Ask,
        }
    }

    /// The name that the user sees.
    pub fn label(self) -> (label: &'static str)
        ensures
            label@ == self.title(),
    {
        match self {
            Self::Ask => "Ask",
            Self::AutoReview => "Auto-review",
            Self::FullAccess => "Full access",
        }
    }
}

/// The pane that has the focus.
#[derive(Clone, Copy, Debug, PartialEq, Eq, Structural)]
pub enum ActivePane {
    Workspace,
    Transcript,
    Findings,
}

impl ActivePane {
    /// The pane to the right, around the edge.
    pub open spec fn following(self) -> Self {
        match self {
            ActivePane::Workspace => ActivePane::Transcript,
            ActivePane::Transcript => ActivePane::Findings,
            ActivePane::Findings => ActivePane::Workspace,
        }
    }

    /// The pane to the left, around the edge.
    pub open spec fn preceding(self) -> Self {
        match self {
            ActivePane::Workspace => ActivePane::Findings,
            ActivePane::Transcript => ActivePane::Workspace,
            ActivePane::Findings => ActivePane::Transcript,
        }
    }

    /// The name that the user sees.
    pub open spec fn title(self) -> Seq<char> {
        match self {
            ActivePane::Workspace => "Workspace"@,
            ActivePane::Transcript => "Session transcript"@,
            ActivePane::Findings => "Findings inspector"@,
        }
    }

    /// The pane to the right, around the edge.
    pub fn next(self) -> (pane: Self)
        ensures
            pane == self.following(),
    {
        match self {
            Self::Workspace => Self::Transcript,
            Self::Transcript => Self::Findings,
            Self::Findings => Self::Workspace,
        }
    }

    /// The pane to the left, around the edge.
    pub fn previous(self) -> (pane: Self)
        ensures
            pane == self.preceding(),
    {
        match self {
            Self::Workspace => Self::Findings,
            Self::Transcript => Self::Workspace,
            Self::Findings => Self::Transcript,
        }
    }
}

/// Cycling never arrives at the retired posture, and two steps from a live one lead back.
pub proof fn mode_cycle_alternates(mode: ExecutionMode)
    ensures
        mode.following() != ExecutionMode::Yolo,
        mode != ExecutionMode::Yolo ==> mode.following().following() == mode,
{
}

/// Three steps lead through every permission posture and back.
pub proof fn permission_cycle_visits_all(mode: PermissionMode)
    ensures
        mode.following() != mode,
        mode.following().following() != mode,
        mode.following().following().following() == mode,
{
}

/// Going forth and back, or back and forth, returns to the same pane; three steps lead
/// around.
pub proof fn pane_cycle_is_reversible(pane: ActivePane)
    ensures
        pane.following().preceding() == pane,
        pane.preceding().following() == pane,
        pane.following().following().following() == pane,
{
}

} // verus!
