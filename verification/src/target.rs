use vstd::prelude::*;

verus! {

/// A set of services that is started or stopped as a whole.
#[derive(Debug, Clone, Copy, PartialEq, Eq, Hash, Structural)]
pub enum Target {
    Default,
    Boot,
    Graphical,
}

impl Default for Target {
    fn default() -> (t: Target)
        ensures
            t == Target::Default,
    {
        Target::Default
    }
}

/// The error returned when a string names no target.
#[derive(Debug)]
pub struct TargetParseError {
    pub runlevel: String,
}

/// The name by which a target is written and read back.
pub open spec fn target_name(t: Target) -> Seq<char> {
    match t {
        Target::Boot => "boot"@,
        Target::Default => "default"@,
        Target::Graphical => "graphical"@,
    }
}

/// The target that a string names, if any.
pub open spec fn parse_target_spec(s: Seq<char>) -> Option<Target> {
    if s == "boot"@ {
        Some(Target::Boot)
    } else if s == "default"@ {
        Some(Target::Default)
    } else if s == "graphical"@ {
        Some(Target::Graphical)
    } else {
        None
    }
}

impl Target {
    /// Reads a target from its name; any other string is refused and
    /// handed back inside the error.
    pub fn parse(s: &str) -> (r: Result<Target, TargetParseError>)
        ensures
            match r {
                Ok(t) => parse_target_spec(s@) == Some(t),
                Err(e) => parse_target_spec(s@) is None && e.runlevel@ == s@,
            },
    {
        let owned = s.to_owned();
        if owned == "boot".to_owned() {
            Ok(Target::Boot)
        } else if owned == "default".to_owned() {
            Ok(Target::Default)
        } else if owned == "graphical".to_owned() {
            Ok(Target::Graphical)
        } else {
            Err(TargetParseError { runlevel: owned })
        }
    }

    /// The name of this target.
    pub fn as_str(&self) -> (s: &'static str)
        ensures
            s@ == target_name(*self),
    {
        match self {
            Target::Boot => "boot",
            Target::Default => "default",
            Target::Graphical => "graphical",
        }
    }

    /// The name of this target, as an owned string.
    pub fn to_string(&self) -> (s: String)
        ensures
            s@ == target_name(*self),
    {
        self.as_str().to_owned()
    }
}

impl std::str::FromStr for Target {
    type Err = TargetParseError;

    fn from_str(s: &str) -> (r: Result<Target, TargetParseError>)
        ensures
            match r {
                Ok(t) => parse_target_spec(s@) == Some(t),
                Err(e) => parse_target_spec(s@) is None && e.runlevel@ == s@,
            },
    {
        Target::parse(s)
    }
}

/// Reading back the name of a target gives that target.
pub proof fn lemma_parse_name_roundtrip(t: Target)
    ensures
        parse_target_spec(target_name(t)) == Some(t),
{
    reveal_strlit("boot");
    reveal_strlit("default");
    reveal_strlit("graphical");
    assert("boot"@.len() == 4 && "default"@.len() == 7 && "graphical"@.len() == 9);
}

/// A string that is read as a target is exactly that target's name.
pub proof fn lemma_parse_only_names(s: Seq<char>, t: Target)
    requires
        parse_target_spec(s) == Some(t),
    ensures
        s == target_name(t),
{
}

} // verus!
