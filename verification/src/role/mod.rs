use vstd::prelude::*;
use vstd::string::*;

use crate::model::ctx::{ActionStatus, CreepStatus, StoreStatus};

pub mod action;
pub mod work;

verus! {

/// The state of a creep inside its role.
#[derive(Debug, Clone, Copy, PartialEq, Eq, Structural)]
pub struct RoleStatus {
    pub creep_status: CreepStatus,
    pub action_status: ActionStatus,
}

impl RoleStatus {
    /// The state a creep starts a role in.
    pub open spec fn initial() -> RoleStatus {
        RoleStatus { creep_status: CreepStatus::SourceNotfound, action_status: ActionStatus::NoWork }
    }

    /// The text shown for the state: creep status glyph, then action glyph.
    pub open spec fn text_spec(self) -> Seq<char> {
        self.creep_status.symbol_spec() + self.action_status.symbol_spec()
    }

    pub fn to_text(&self) -> (r: String)
        ensures
            r@ == self.text_spec(),
    {
        let s = String::from_str(self.creep_status.symbol());
        s.concat(self.action_status.symbol())
    }
}

impl Default for RoleStatus {
    fn default() -> (r: Self)
        ensures
            r == RoleStatus::initial(),
    {
        RoleStatus { creep_status: CreepStatus::default(), action_status: ActionStatus::default() }
    }
}

/// The role of a creep, with its state in that role.
#[derive(Debug, Clone, Copy, PartialEq, Eq, Structural)]
pub enum RoleEnum {
    Harvester(RoleStatus),
    Upgrader(RoleStatus),
    Builder(RoleStatus),
    /// Carries energy around.
    Porter(RoleStatus),
    Repairer(RoleStatus),
}

/// The role named by a role name; an unknown name is a harvester. The state
/// is the initial one.
pub open spec fn role_from_name(name: Seq<char>) -> RoleEnum {
    if name == "harvester"@ {
        RoleEnum::Harvester(RoleStatus::initial())
    } else if name == "upgrader"@ {
        RoleEnum::Upgrader(RoleStatus::initial())
    } else if name == "builder"@ {
        RoleEnum::Builder(RoleStatus::initial())
    } else if name == "porter"@ {
        RoleEnum::Porter(RoleStatus::initial())
    } else if name == "repairer"@ {
        RoleEnum::Repairer(RoleStatus::initial())
    } else {
        RoleEnum::Harvester(RoleStatus::initial())
    }
}

/// Where a creep stands after its store has been looked at: a full creep
/// spends energy, an empty one looks for it, a partly filled one goes on.
pub open spec fn creep_status_after(current: CreepStatus, store: StoreStatus) -> CreepStatus {
    match store {
        StoreStatus::Full => CreepStatus::UseEnergy,
        StoreStatus::Empty => CreepStatus::FindEnergy,
        StoreStatus::UnderFill => current,
    }
}

impl RoleEnum {
    pub open spec fn status_spec(self) -> RoleStatus {
        match self {
            RoleEnum::Harvester(s) => s,
            RoleEnum::Upgrader(s) => s,
            RoleEnum::Builder(s) => s,
            RoleEnum::Porter(s) => s,
            RoleEnum::Repairer(s) => s,
        }
    }

    /// The same role with another state.
    pub open spec fn with_status(self, s: RoleStatus) -> RoleEnum {
        match self {
            RoleEnum::Harvester(_) => RoleEnum::Harvester(s),
            RoleEnum::Upgrader(_) => RoleEnum::Upgrader(s),
            RoleEnum::Builder(_) => RoleEnum::Builder(s),
            RoleEnum::Porter(_) => RoleEnum::Porter(s),
            RoleEnum::Repairer(_) => RoleEnum::Repairer(s),
        }
    }

    pub open spec fn same_role(self, other: RoleEnum) -> bool {
        self.with_status(RoleStatus::initial()) == other.with_status(RoleStatus::initial())
    }

    pub open spec fn role_name_spec(self) -> Seq<char> {
        match self {
            RoleEnum::Harvester(_) => "harvester"@,
            RoleEnum::Upgrader(_) => "upgrader"@,
            RoleEnum::Builder(_) => "builder"@,
            RoleEnum::Porter(_) => "porter"@,
            RoleEnum::Repairer(_) => "repairer"@,
        }
    }

    pub open spec fn symbol_spec(self) -> Seq<char> {
        match self {
            RoleEnum::Harvester(_) => "⛏️"@,
            RoleEnum::Upgrader(_) => "🔥"@,
            RoleEnum::Builder(_) => "🚧"@,
            RoleEnum::Porter(_) => "🐌"@,
            RoleEnum::Repairer(_) => "💘"@,
        }
    }

    /// What the creep says: its role glyph and its action glyph, said only
    /// while it has no work; otherwise nothing.
    pub open spec fn say_spec(self) -> Seq<char> {
        if self.status_spec().action_status != ActionStatus::NoWork {
            Seq::empty()
        } else {
            self.symbol_spec() + self.status_spec().action_status.symbol_spec()
        }
    }

    /// Actions by which the role gathers energy.
    pub open spec fn gathers(self, action: ActionStatus) -> bool {
        match self {
            RoleEnum::Harvester(_) => action == ActionStatus::Harversting || action
                == ActionStatus::CarryUp,
            RoleEnum::Upgrader(_) => action == ActionStatus::CarryUp,
            RoleEnum::Builder(_) => action == ActionStatus::CarryUp,
            RoleEnum::Porter(_) => action == ActionStatus::CarryUp || action == ActionStatus::PickUp
                || action == ActionStatus::Harversting,
            RoleEnum::Repairer(_) => action == ActionStatus::CarryUp,
        }
    }

    /// Actions by which the role spends energy.
    pub open spec fn spends(self, action: ActionStatus) -> bool {
        match self {
            RoleEnum::Harvester(_) => action == ActionStatus::Upgrade || action
                == ActionStatus::Building || action == ActionStatus::CarryDown,
            RoleEnum::Upgrader(_) => action == ActionStatus::Building || action
                == ActionStatus::Upgrade,
            RoleEnum::Builder(_) => action == ActionStatus::Building || action
                == ActionStatus::Upgrade || action == ActionStatus::CarryDown,
            RoleEnum::Porter(_) => action == ActionStatus::CarryDown || action
                == ActionStatus::Building || action == ActionStatus::Upgrade,
            RoleEnum::Repairer(_) => action == ActionStatus::Repair || action
                == ActionStatus::CarryDown || action == ActionStatus::Building || action
                == ActionStatus::Upgrade,
        }
    }

    /// An action is allowed when the role gathers by it and the creep looks
    /// for energy, or the role spends by it and the creep uses energy.
    pub open spec fn allows(self, action: ActionStatus) -> bool {
        let c = self.status_spec().creep_status;
        (self.gathers(action) && (c == CreepStatus::FindEnergy || c == CreepStatus::SourceNotfound))
            || (self.spends(action) && c == CreepStatus::UseEnergy)
    }

    /// Whether the creep gives up the structure it is bound to: a harvester
    /// keeps its source while harvesting, a repairer its rampart while
    /// repairing; every other creep lets go.
    pub open spec fn cancel_bind_spec(self) -> bool {
        match self {
            RoleEnum::Harvester(s) => s.action_status != ActionStatus::Harversting,
            RoleEnum::Repairer(s) => s.action_status != ActionStatus::Repair,
            _ => true,
        }
    }

    /// The state after the store has been looked at.
    pub open spec fn reset_spec(self, store: StoreStatus) -> RoleEnum {
        self.with_status(
            RoleStatus {
                creep_status: creep_status_after(self.status_spec().creep_status, store),
                action_status: ActionStatus::NoWork,
            },
        )
    }

    pub fn status(&self) -> (r: RoleStatus)
        ensures
            r == self.status_spec(),
    {
        match self {
            RoleEnum::Harvester(s) => *s,
            RoleEnum::Upgrader(s) => *s,
            RoleEnum::Builder(s) => *s,
            RoleEnum::Porter(s) => *s,
            RoleEnum::Repairer(s) => *s,
        }
    }

    pub fn symbol(&self) -> (r: &'static str)
        ensures
            r@ == self.symbol_spec(),
    {
        match self {
            RoleEnum::Harvester(_) => "⛏️",
            RoleEnum::Upgrader(_) => "🔥",
            RoleEnum::Builder(_) => "🚧",
            RoleEnum::Porter(_) => "🐌",
            RoleEnum::Repairer(_) => "💘",
        }
    }

    pub fn get_role_name(&self) -> (r: String)
        ensures
            r@ == self.role_name_spec(),
    {
        match self {
            RoleEnum::Harvester(_) => String::from_str("harvester"),
            RoleEnum::Upgrader(_) => String::from_str("upgrader"),
            RoleEnum::Builder(_) => String::from_str("builder"),
            RoleEnum::Porter(_) => String::from_str("porter"),
            RoleEnum::Repairer(_) => String::from_str("repairer"),
        }
    }

    /// The text the creep says: role glyph and action glyph while idle,
    /// nothing otherwise.
    pub fn get_say_test(&self) -> (r: String)
        ensures
            r@ == self.say_spec(),
    {
        let status = self.status();
        if status.action_status != ActionStatus::NoWork {
            return String::new();
        }
        String::from_str(self.symbol()).concat(status.action_status.symbol())
    }

    pub fn is_cancel_bind(&self) -> (r: bool)
        ensures
            r == self.cancel_bind_spec(),
    {
        match self {
            RoleEnum::Harvester(s) => s.action_status != ActionStatus::Harversting,
            RoleEnum::Upgrader(_) => true,
            RoleEnum::Builder(_) => true,
            RoleEnum::Porter(_) => true,
            RoleEnum::Repairer(s) => s.action_status != ActionStatus::Repair,
        }
    }

    /// The same role in its initial state.
    pub fn default(&self) -> (r: Self)
        ensures
            r == self.with_status(RoleStatus::initial()),
    {
        let status = RoleStatus::default();
        match self {
            RoleEnum::Harvester(_) => RoleEnum::Harvester(status),
            RoleEnum::Upgrader(_) => RoleEnum::Upgrader(status),
            RoleEnum::Builder(_) => RoleEnum::Builder(status),
            RoleEnum::Porter(_) => RoleEnum::Porter(status),
            RoleEnum::Repairer(_) => RoleEnum::Repairer(status),
        }
    }

    /// Resets the action and brings the creep status in line with the store.
    pub fn reset_status(&mut self, store_status: StoreStatus)
        ensures
            *final(self) == old(self).reset_spec(store_status),
    {
        let old_status = self.status();
        let creep_status = match store_status {
            StoreStatus::Full => CreepStatus::UseEnergy,
            StoreStatus::Empty => CreepStatus::FindEnergy,
            StoreStatus::UnderFill => old_status.creep_status,
        };
        let s = RoleStatus { creep_status, action_status: ActionStatus::NoWork };
        *self = match self {
            RoleEnum::Harvester(_) => RoleEnum::Harvester(s),
            RoleEnum::Upgrader(_) => RoleEnum::Upgrader(s),
            RoleEnum::Builder(_) => RoleEnum::Builder(s),
            RoleEnum::Porter(_) => RoleEnum::Porter(s),
            RoleEnum::Repairer(_) => RoleEnum::Repairer(s),
        };
    }

    /// Whether the role may take the action in its current state.
    pub fn check(&self, action: ActionStatus) -> (r: bool)
        ensures
            r == self.allows(action),
    {
        let c = self.status().creep_status;
        let finding = match c {
            CreepStatus::FindEnergy | CreepStatus::SourceNotfound => true,
            CreepStatus::UseEnergy => false,
        };
        let using = match c {
            CreepStatus::UseEnergy => true,
            _ => false,
        };
        match self {
            RoleEnum::Harvester(_) => match action {
                ActionStatus::Harversting | ActionStatus::CarryUp => finding,
                ActionStatus::Upgrade | ActionStatus::Building | ActionStatus::CarryDown => using,
                _ => false,
            },
            RoleEnum::Upgrader(_) => match action {
                ActionStatus::CarryUp => finding,
                ActionStatus::Building | ActionStatus::Upgrade => using,
                _ => false,
            },
            RoleEnum::Builder(_) => match action {
                ActionStatus::CarryUp => finding,
                ActionStatus::Building | ActionStatus::Upgrade | ActionStatus::CarryDown => using,
                _ => false,
            },
            RoleEnum::Porter(_) => match action {
                ActionStatus::CarryUp | ActionStatus::PickUp | ActionStatus::Harversting => finding,
                ActionStatus::CarryDown | ActionStatus::Building | ActionStatus::Upgrade => using,
                _ => false,
            },
            RoleEnum::Repairer(_) => match action {
                ActionStatus::CarryUp => finding,
                ActionStatus::Repair
                | ActionStatus::CarryDown
                | ActionStatus::Building
                | ActionStatus::Upgrade => using,
                _ => false,
            },
        }
    }

    /// Records the action the creep takes.
    pub fn change_action(&mut self, action: ActionStatus)
        ensures
            *final(self) == old(self).with_status(
                RoleStatus { action_status: action, ..old(self).status_spec() },
            ),
    {
        let s = RoleStatus { action_status: action, ..self.status() };
        *self = match self {
            RoleEnum::Harvester(_) => RoleEnum::Harvester(s),
            RoleEnum::Upgrader(_) => RoleEnum::Upgrader(s),
            RoleEnum::Builder(_) => RoleEnum::Builder(s),
            RoleEnum::Porter(_) => RoleEnum::Porter(s),
            RoleEnum::Repairer(_) => RoleEnum::Repairer(s),
        };
    }
}

impl From<String> for RoleEnum {
    /// The role named by `value`, in its initial state; an unknown name gives
    /// a harvester.
    fn from(value: String) -> (r: Self) {
        let status = RoleStatus::default();
        if value == String::from_str("harvester") {
            RoleEnum::Harvester(status)
        } else if value == String::from_str("upgrader") {
            RoleEnum::Upgrader(status)
        } else if value == String::from_str("builder") {
            RoleEnum::Builder(status)
        } else if value == String::from_str("porter") {
            RoleEnum::Porter(status)
        } else if value == String::from_str("repairer") {
            RoleEnum::Repairer(status)
        } else {
            RoleEnum::Harvester(status)
        }
    }
}

impl vstd::std_specs::convert::FromSpecImpl<String> for RoleEnum {
    open spec fn obeys_from_spec() -> bool {
        true
    }

    open spec fn from_spec(v: String) -> Self {
        role_from_name(v@)
    }
}

/// Naming a role and reading the name back gives the same role, in its
/// initial state.
pub proof fn lemma_role_name_round_trip(r: RoleEnum)
    ensures
        role_from_name(r.role_name_spec()) == r.with_status(RoleStatus::initial()),
{
    reveal_strlit("harvester");
    reveal_strlit("upgrader");
    reveal_strlit("builder");
    reveal_strlit("porter");
    reveal_strlit("repairer");
    // The five names already differ in their first letter.
    assert("harvester"@[0] == 'h');
    assert("upgrader"@[0] == 'u');
    assert("builder"@[0] == 'b');
    assert("porter"@[0] == 'p');
    assert("repairer"@[0] == 'r');
}

/// Looking at the same store twice changes nothing the second time, and the
/// role itself never changes.
pub proof fn lemma_reset_idempotent(r: RoleEnum, store: StoreStatus)
    ensures
        r.reset_spec(store).reset_spec(store) == r.reset_spec(store),
        r.reset_spec(store).same_role(r),
        r.reset_spec(store).status_spec().action_status == ActionStatus::NoWork,
{
}

/// A creep whose store is full may only spend energy, one whose store is
/// empty may only gather it.
pub proof fn lemma_store_decides_actions(r: RoleEnum, action: ActionStatus)
    ensures
        r.reset_spec(StoreStatus::Full).allows(action) == r.spends(action),
        r.reset_spec(StoreStatus::Empty).allows(action) == r.gathers(action),
{
}

/// No action is both a way of gathering and of spending energy, so no state
/// allows an action for both reasons.
pub proof fn lemma_gather_spend_disjoint(r: RoleEnum, action: ActionStatus)
    ensures
        !(r.gathers(action) && r.spends(action)),
{
}

/// Recording an action keeps the role and the creep status, and the
/// recorded action is the one given.
pub proof fn lemma_change_action_records(r: RoleEnum, action: ActionStatus)
    ensures
        ({
            let n = r.with_status(RoleStatus { action_status: action, ..r.status_spec() });
            &&& n.same_role(r)
            &&& n.status_spec().action_status == action
            &&& n.status_spec().creep_status == r.status_spec().creep_status
        }),
{
}


/// What each role may do. A creep using energy may: as a harvester
/// upgrade, build or carry energy down; as an upgrader build or upgrade; as
/// a builder build, upgrade or carry down; as a porter carry down, build or
/// upgrade; as a repairer repair, carry down, build or upgrade. A creep
/// looking for energy may: as a harvester harvest or carry energy up; as a
/// porter carry up, pick up or harvest; as any other role carry up. Nothing
/// else is allowed.
pub proof fn lemma_role_table(st: RoleStatus, a: ActionStatus)
    ensures
        ({
            let using = st.creep_status == CreepStatus::UseEnergy;
            &&& RoleEnum::Harvester(st).allows(a) == if using {
                a == ActionStatus::Upgrade || a == ActionStatus::Building || a == ActionStatus::CarryDown
            } else {
                a == ActionStatus::Harversting || a == ActionStatus::CarryUp
            }
            &&& RoleEnum::Upgrader(st).allows(a) == if using {
                a == ActionStatus::Building || a == ActionStatus::Upgrade
            } else {
                a == ActionStatus::CarryUp
            }
            &&& RoleEnum::Builder(st).allows(a) == if using {
                a == ActionStatus::Building || a == ActionStatus::Upgrade || a == ActionStatus::CarryDown
            } else {
                a == ActionStatus::CarryUp
            }
            &&& RoleEnum::Porter(st).allows(a) == if using {
                a == ActionStatus::CarryDown || a == ActionStatus::Building || a == ActionStatus::Upgrade
            } else {
                a == ActionStatus::CarryUp || a == ActionStatus::PickUp || a == ActionStatus::Harversting
            }
            &&& RoleEnum::Repairer(st).allows(a) == if using {
                a == ActionStatus::Repair || a == ActionStatus::CarryDown || a == ActionStatus::Building
                    || a == ActionStatus::Upgrade
            } else {
                a == ActionStatus::CarryUp
            }
        }),
{
}

/// Every role, once its store is full, may build and upgrade; once its
/// store is empty, it may take energy from a store.
pub proof fn lemma_full_store_builds(r: RoleEnum)
    ensures
        r.reset_spec(StoreStatus::Full).allows(ActionStatus::Building),
        r.reset_spec(StoreStatus::Full).allows(ActionStatus::Upgrade),
        r.reset_spec(StoreStatus::Empty).allows(ActionStatus::CarryUp),
        !r.reset_spec(StoreStatus::Empty).allows(ActionStatus::Building),
{
}

} // verus!
