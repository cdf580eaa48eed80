use vstd::prelude::*;
use vstd::string::*;

verus! {

/// The errors of the colony logic.
#[derive(Debug)]
pub enum ScreepError {
    /// No room with this name is known.
    RoomNotfound(String),
    /// The role found nothing to do.
    RoleCanNotWork(String),
    /// The game refused an action.
    ScreepInner,
}

impl ScreepError {
    /// The text of the error.
    pub open spec fn message_spec(&self) -> Seq<char> {
        match self {
            ScreepError::RoomNotfound(s) => "room notfound: "@ + s@,
            ScreepError::RoleCanNotWork(s) => "role can not: "@ + s@,
            ScreepError::ScreepInner => "screep 内部错误"@,
        }
    }

    pub fn message(&self) -> (r: String)
        ensures
            r@ == self.message_spec(),
    {
        match self {
            ScreepError::RoomNotfound(s) => String::from_str("room notfound: ").concat(s.as_str()),
            ScreepError::RoleCanNotWork(s) => String::from_str("role can not: ").concat(
                s.as_str(),
            ),
            ScreepError::ScreepInner => String::from_str("screep 内部错误"),
        }
    }
}

} // verus!
