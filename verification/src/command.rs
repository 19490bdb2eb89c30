use vstd::prelude::*;

verus! {

/// A fully determined external command: the program to run and its
/// arguments, in order, plus whether the caller must capture the child's
/// standard output (otherwise the child inherits this process's standard
/// streams verbatim).
///
/// This crate only ever decides *which* command to run; the embedding
/// program performs the process creation and reports a [`ToolOutcome`]
/// back.
pub struct CommandPlan {
    /// The program name, resolved by the embedding program's spawner.
    pub program: String,
    /// The arguments, handed to the program exactly in this order.
    pub args: Vec<String>,
    /// Whether standard output must be captured for later interpretation.
    pub capture_stdout: bool,
}

/// What the embedding program observed after running a command to
/// completion: whether the child's exit status reported success, and the
/// captured standard output (empty when the streams were inherited).
pub struct ToolOutcome {
    /// True exactly when the child's exit status reported success.
    pub success: bool,
    /// The bytes the child wrote to its captured standard output.
    pub stdout: Vec<u8>,
}

} // verus!
