//! What the host tells the plugin about the command a menu is open on, and
//! what a render is about.
//!
//! The host's own vocabulary says the same things in its own types; these hold
//! exactly what the plugin reads of them, as plain values, so that what the
//! plugin does with them can be stated and proved.
use vstd::prelude::*;

verus! {

/// One command, as much of it as this plugin was allowed to see.
///
/// `ran` is `None` for a plugin not granted a sight of the command, and
/// `place` is `None` for one not granted where it ran, or for a shell that
/// never said.
#[derive(Clone, Debug, PartialEq, Eq)]
pub struct BlockFacts {
    /// Which command this is, as a number that says nothing else.
    pub key: u64,
    /// What was run and how it ended.
    pub ran: Option<Ran>,
    /// Where it ran.
    pub place: Option<Place>,
}

/// What a command was and what became of it.
#[derive(Clone, Debug, Default, PartialEq, Eq)]
pub struct Ran {
    /// The command line, or `None` when the shell never said.
    pub command: Option<String>,
    /// The status the shell reported, or `None` when it reported none.
    pub exit: Option<i32>,
}

/// Where a command ran.
#[derive(Clone, Debug, PartialEq, Eq)]
pub struct Place {
    /// The working directory, whole.
    pub directory: String,
    /// The branch, or the short sha of a detached head, when there is one.
    pub branch: Option<String>,
    /// Whether it is a linked git worktree.
    pub worktree: bool,
}

/// What one render is about.
#[derive(Clone, Debug, PartialEq, Eq)]
pub enum Subject {
    /// One row of the tab panel, which this plugin never draws in.
    Tab,
    /// The command whose menu this is being drawn in.
    Block(BlockFacts),
}

/// What the host is asking to have drawn, and what it is about.
#[derive(Clone, Debug, PartialEq, Eq)]
pub struct Render {
    /// The slot, by the name the plugin contributed to.
    pub slot: String,
    /// This contribution's own name.
    pub entry: String,
    /// What this render is about, when the slot is drawn per thing.
    pub subject: Option<Subject>,
}

impl Ran {
    /// A copy of this, field for field.
    pub fn duplicate(&self) -> (copy: Ran)
        ensures
            copy == *self,
    {
        Ran {
            command: match &self.command {
                Some(command) => Some(command.clone()),
                None => None,
            },
            exit: self.exit,
        }
    }
}

impl Place {
    /// A copy of this, field for field.
    pub fn duplicate(&self) -> (copy: Place)
        ensures
            copy == *self,
    {
        Place {
            directory: self.directory.clone(),
            branch: match &self.branch {
                Some(branch) => Some(branch.clone()),
                None => None,
            },
            worktree: self.worktree,
        }
    }
}

impl BlockFacts {
    /// A copy of this, field for field.
    pub fn duplicate(&self) -> (copy: BlockFacts)
        ensures
            copy == *self,
    {
        BlockFacts {
            key: self.key,
            ran: match &self.ran {
                Some(ran) => Some(ran.duplicate()),
                None => None,
            },
            place: match &self.place {
                Some(place) => Some(place.duplicate()),
                None => None,
            },
        }
    }
}

} // verus!
