//! Selection of the primitive topology from the program's first argument.

use vstd::prelude::*;

verus! {

/// What the user asked the program to draw.
#[derive(PartialEq, Eq, Structural, Clone, Copy, Debug)]
pub enum UserSelection {
    /// Print usage and render nothing.
    Help,
    PointList,
    LineList,
    LineStrip,
    TriangleList,
    TriangleStrip,
}

impl Default for UserSelection {
    fn default() -> (r: Self)
        ensures
            r == UserSelection::Help,
    {
        UserSelection::Help
    }
}

/// How the pipeline assembles vertices into primitives.
#[derive(PartialEq, Eq, Structural, Clone, Copy, Debug)]
pub enum Topology {
    PointList,
    LineList,
    LineStrip,
    TriangleList,
    TriangleStrip,
}

/// The selection that a mode name stands for, or `None` for an unknown name.
pub open spec fn mode_of(s: Seq<char>) -> Option<UserSelection> {
    if s == "help"@ {
        Some(UserSelection::Help)
    } else if s == "point-list"@ {
        Some(UserSelection::PointList)
    } else if s == "line-list"@ {
        Some(UserSelection::LineList)
    } else if s == "line-strip"@ {
        Some(UserSelection::LineStrip)
    } else if s == "triangle-list"@ {
        Some(UserSelection::TriangleList)
    } else if s == "triangle-strip"@ {
        Some(UserSelection::TriangleStrip)
    } else {
        None
    }
}

/// The selection made by a command line (program name first): help when the
/// mode is missing or unknown.
pub open spec fn selection_of(args: Seq<String>) -> UserSelection {
    if args.len() < 2 {
        UserSelection::Help
    } else {
        match mode_of(args[1]@) {
            Some(s) => s,
            None => UserSelection::Help,
        }
    }
}

fn same_text(a: &str, b: &str) -> (r: bool)
    ensures
        r == (a@ == b@),
{
    let x = a.to_owned();
    let y = b.to_owned();
    x == y
}

/// Reads one mode name; `None` when it is not a known mode.
pub fn parse_mode(arg: &str) -> (r: Option<UserSelection>)
    ensures
        r == mode_of(arg@),
{
    if same_text(arg, "help") {
        Some(UserSelection::Help)
    } else if same_text(arg, "point-list") {
        Some(UserSelection::PointList)
    } else if same_text(arg, "line-list") {
        Some(UserSelection::LineList)
    } else if same_text(arg, "line-strip") {
        Some(UserSelection::LineStrip)
    } else if same_text(arg, "triangle-list") {
        Some(UserSelection::TriangleList)
    } else if same_text(arg, "triangle-strip") {
        Some(UserSelection::TriangleStrip)
    } else {
        None
    }
}

/// Reads the selection from the command line (program name first). A missing
/// or unknown mode selects help.
pub fn parse_user_input(args: &Vec<String>) -> (r: UserSelection)
    ensures
        r == selection_of(args@),
{
    if args.len() < 2 {
        return UserSelection::Help;
    }
    match parse_mode(args[1].as_str()) {
        Some(s) => s,
        None => UserSelection::Help,
    }
}

impl UserSelection {
    /// The topology to build the pipeline with; help draws nothing.
    pub fn topology(&self) -> (r: Option<Topology>)
        ensures
            r == topology_of(*self),
    {
        match self {
            UserSelection::Help => None,
            UserSelection::PointList => Some(Topology::PointList),
            UserSelection::LineList => Some(Topology::LineList),
            UserSelection::LineStrip => Some(Topology::LineStrip),
            UserSelection::TriangleList => Some(Topology::TriangleList),
            UserSelection::TriangleStrip => Some(Topology::TriangleStrip),
        }
    }
}

/// The topology each selection stands for.
pub open spec fn topology_of(s: UserSelection) -> Option<Topology> {
    match s {
        UserSelection::Help => None,
        UserSelection::PointList => Some(Topology::PointList),
        UserSelection::LineList => Some(Topology::LineList),
        UserSelection::LineStrip => Some(Topology::LineStrip),
        UserSelection::TriangleList => Some(Topology::TriangleList),
        UserSelection::TriangleStrip => Some(Topology::TriangleStrip),
    }
}

} // verus!
