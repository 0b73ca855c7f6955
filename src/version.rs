//! The two format versions that a project file can be written in.
use vstd::prelude::*;

verus! {

/// The GameMaker release whose project format is written.
#[derive(Clone, Copy, Debug, PartialEq, Eq, Structural)]
pub enum GameVersion {
    GameMaker8_0,
    GameMaker8_1,
}

/// The version code that the file header carries.
pub open spec fn version_code(version: GameVersion) -> u32 {
    match version {
        GameVersion::GameMaker8_0 => 800,
        GameVersion::GameMaker8_1 => 810,
    }
}

impl GameVersion {
    /// The version code that the file header carries.
    pub fn code(self) -> (r: u32)
        ensures
            r == version_code(self),
    {
        match self {
            GameVersion::GameMaker8_0 => 800,
            GameVersion::GameMaker8_1 => 810,
        }
    }
}

} // verus!
