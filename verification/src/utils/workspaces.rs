//! Workspaces: a fixed row of places where outputs show their windows.
use vstd::prelude::*;

verus! {

/// One workspace.
pub struct Workspace {
    /// The outputs that show the workspace, by their ids, in the order in
    /// which they were attached.
    pub outputs: Vec<u64>,
}

impl Workspace {
    /// A workspace that no output shows.
    pub fn new() -> (workspace: Workspace)
        ensures
            workspace.outputs@ == Seq::<u64>::empty(),
    {
        Workspace { outputs: Vec::new() }
    }
}

/// All the workspaces. Their number is set once, from the settings, and
/// stays.
pub struct Workspaces {
    pub workspaces: Vec<Workspace>,
}

impl Workspaces {
    /// Makes as many workspaces as the settings ask for, each without an
    /// output.
    pub fn create_workspaces(count: u32) -> (all: Workspaces)
        ensures
            all.workspaces@.len() == count,
            forall|i: int|
                0 <= i < count ==> (#[trigger] all.workspaces@[i]).outputs@ == Seq::<u64>::empty(),
    {
        let mut workspaces: Vec<Workspace> = Vec::new();
        let mut i: u32 = 0;
        while i < count
            invariant
                i <= count,
                workspaces@.len() == i,
                forall|j: int|
                    0 <= j < i ==> (#[trigger] workspaces@[j]).outputs@ == Seq::<u64>::empty(),
            decreases count - i,
        {
            workspaces.push(Workspace::new());
            i += 1;
        }
        Workspaces { workspaces }
    }
}

} // verus!
