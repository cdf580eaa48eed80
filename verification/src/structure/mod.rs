//! The states of structures that act on their own, such as towers.
use vstd::prelude::*;

verus! {

/// Whether a structure is working.
#[derive(Debug, Clone, Copy, PartialEq, Eq, Structural)]
pub enum StructWorkStatus {
    NoWork,
    Work,
}

impl Default for StructWorkStatus {
    fn default() -> (r: Self)
        ensures
            r == StructWorkStatus::NoWork,
    {
        StructWorkStatus::NoWork
    }
}

impl StructWorkStatus {
    pub open spec fn text_spec(self) -> Seq<char> {
        match self {
            StructWorkStatus::NoWork => "NoWork"@,
            StructWorkStatus::Work => "Work"@,
        }
    }

    pub fn text(&self) -> (r: &'static str)
        ensures
            r@ == self.text_spec(),
    {
        match self {
            StructWorkStatus::NoWork => "NoWork",
            StructWorkStatus::Work => "Work",
        }
    }
}

/// What a structure is doing.
#[derive(Debug, Clone, Copy, PartialEq, Eq, Structural)]
pub enum StructActionStatus {
    NoWork,
    Attack,
    Repair,
}

impl Default for StructActionStatus {
    fn default() -> (r: Self)
        ensures
            r == StructActionStatus::NoWork,
    {
        StructActionStatus::NoWork
    }
}

impl StructActionStatus {
    pub open spec fn symbol_spec(self) -> Seq<char> {
        match self {
            StructActionStatus::NoWork => "☹"@,
            StructActionStatus::Attack => "🤛"@,
            StructActionStatus::Repair => "💉"@,
        }
    }

    /// The glyph shown for the action.
    pub fn symbol(&self) -> (r: &'static str)
        ensures
            r@ == self.symbol_spec(),
    {
        match self {
            StructActionStatus::NoWork => "☹",
            StructActionStatus::Attack => "🤛",
            StructActionStatus::Repair => "💉",
        }
    }
}

} // verus!
