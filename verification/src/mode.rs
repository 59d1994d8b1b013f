use vstd::prelude::*;

verus! {

/// Differentiate how the dependency graph is created
/// (user, root, or project)
#[derive(Debug, Clone, Copy, PartialEq, Eq, Structural)]
pub enum Mode {
    User,
    Root,
    Project,
}

impl Default for Mode {
    fn default() -> (m: Mode)
        ensures
            m == Mode::User,
    {
        Mode::User
    }
}

/// The name under which a mode is written in the configuration.
pub open spec fn mode_name_spec(mode: Mode) -> Seq<char> {
    match mode {
        Mode::Root => "Root"@,
        Mode::User => "User"@,
        Mode::Project => "Project"@,
    }
}

impl Mode {
    /// The name under which this mode is written in the configuration.
    pub fn name(&self) -> (s: &'static str)
        ensures
            s@ == mode_name_spec(*self),
    {
        match self {
            Mode::Root => "Root",
            Mode::User => "User",
            Mode::Project => "Project",
        }
    }
}

} // verus!
