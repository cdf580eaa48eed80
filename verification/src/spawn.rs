//! Which body a new creep gets and when a spawn may make it.
use vstd::prelude::*;

verus! {

/// The parts a creep's body is made of.
#[derive(Debug, Clone, Copy, PartialEq, Eq, Structural)]
pub enum BodyPart {
    Move,
    Work,
    Carry,
    Attack,
    RangedAttack,
    Tough,
    Heal,
    Claim,
}

impl BodyPart {
    /// The energy a part costs.
    pub open spec fn cost_spec(self) -> nat {
        match self {
            BodyPart::Move => 50,
            BodyPart::Work => 100,
            BodyPart::Carry => 50,
            BodyPart::Attack => 80,
            BodyPart::RangedAttack => 150,
            BodyPart::Tough => 10,
            BodyPart::Heal => 250,
            BodyPart::Claim => 600,
        }
    }
}

/// `screeps::Part::cost`: the game's cost of a body part, which the crate's
/// source gives as a fixed table. This is trusted, not proved.
#[verifier::external_body]
fn part_cost(part: BodyPart) -> (r: u32)
    ensures
        r == part.cost_spec(),
{
    let p = match part {
        BodyPart::Move => screeps::Part::Move,
        BodyPart::Work => screeps::Part::Work,
        BodyPart::Carry => screeps::Part::Carry,
        BodyPart::Attack => screeps::Part::Attack,
        BodyPart::RangedAttack => screeps::Part::RangedAttack,
        BodyPart::Tough => screeps::Part::Tough,
        BodyPart::Heal => screeps::Part::Heal,
        BodyPart::Claim => screeps::Part::Claim,
    };
    p.cost()
}

/// The body of the next creep of a room with `ext_count` extensions: two
/// work parts, a carry and a move, and more parts the more extensions there
/// are to fill from.
pub open spec fn body_spec(ext_count: nat) -> Seq<BodyPart> {
    let base = seq![BodyPart::Move, BodyPart::Carry, BodyPart::Work, BodyPart::Work];
    if ext_count >= 10 {
        base + seq![
            BodyPart::Carry,
            BodyPart::Carry,
            BodyPart::Move,
            BodyPart::Move,
            BodyPart::Carry,
            BodyPart::Work,
            BodyPart::Work,
        ]
    } else if ext_count >= 6 {
        base + seq![BodyPart::Carry, BodyPart::Move, BodyPart::Carry, BodyPart::Work]
    } else if ext_count >= 4 {
        base + seq![BodyPart::Move, BodyPart::Carry, BodyPart::Work]
    } else if ext_count > 2 {
        base + seq![BodyPart::Move, BodyPart::Carry]
    } else {
        base
    }
}

/// The energy a body costs.
pub open spec fn body_cost_spec(body: Seq<BodyPart>) -> nat
    decreases body.len(),
{
    if body.len() == 0 {
        0
    } else {
        body_cost_spec(body.drop_last()) + body.last().cost_spec()
    }
}

pub fn spawn_body(ext_count: usize) -> (r: Vec<BodyPart>)
    ensures
        r@ == body_spec(ext_count as nat),
{
    let mut body = vec![BodyPart::Move, BodyPart::Carry, BodyPart::Work, BodyPart::Work];
    let mut more = if ext_count >= 10 {
        vec![
            BodyPart::Carry,
            BodyPart::Carry,
            BodyPart::Move,
            BodyPart::Move,
            BodyPart::Carry,
            BodyPart::Work,
            BodyPart::Work,
        ]
    } else if ext_count >= 6 {
        vec![BodyPart::Carry, BodyPart::Move, BodyPart::Carry, BodyPart::Work]
    } else if ext_count >= 4 {
        vec![BodyPart::Move, BodyPart::Carry, BodyPart::Work]
    } else if ext_count > 2 {
        vec![BodyPart::Move, BodyPart::Carry]
    } else {
        Vec::new()
    };
    body.append(&mut more);
    assert(body@ =~= body_spec(ext_count as nat));
    body
}

/// The energy the body costs.
pub fn body_cost(body: &Vec<BodyPart>) -> (r: u32)
    requires
        body_cost_spec(body@) <= u32::MAX,
    ensures
        r == body_cost_spec(body@),
{
    let mut total: u32 = 0;
    let mut i: usize = 0;
    while i < body.len()
        invariant
            i <= body.len(),
            body_cost_spec(body@) <= u32::MAX,
            total == body_cost_spec(body@.take(i as int)),
        decreases body.len() - i,
    {
        assert(body@.take(i as int + 1).drop_last() == body@.take(i as int));
        assert(body@.take(i as int + 1).last() == body@[i as int]);
        proof {
            lemma_cost_prefix(body@, i as int + 1);
        }
        total = total + part_cost(body[i]);
        i += 1;
    }
    assert(body@.take(body@.len() as int) == body@);
    total
}

proof fn lemma_cost_prefix(s: Seq<BodyPart>, n: int)
    requires
        0 <= n <= s.len(),
    ensures
        body_cost_spec(s.take(n)) <= body_cost_spec(s),
    decreases s.len(),
{
    if n < s.len() {
        assert(s.drop_last().take(n) == s.take(n));
        lemma_cost_prefix(s.drop_last(), n);
    } else {
        assert(s.take(n) == s);
    }
}

/// Whether a spawn makes the creep now: the room holds the energy the body
/// costs, and the room may spawn.
pub fn should_spawn(energy_available: u32, cost: u32, allowed: bool) -> (r: bool)
    ensures
        r == (energy_available >= cost && allowed),
{
    if energy_available < cost {
        return false;
    }
    if !allowed {
        return false;
    }
    energy_available >= cost
}

/// The body bought with the energy of a room: 300 with up to two
/// extensions, 400 with three, 500 with four or five, 550 with six to
/// nine, and 750 from ten on, so a room with more extensions never gets a
/// cheaper body.
pub proof fn lemma_body_costs(a: nat, b: nat)
    requires
        a <= b,
    ensures
        body_cost_spec(body_spec(a)) <= body_cost_spec(body_spec(b)),
        body_cost_spec(body_spec(b)) <= 750,
        body_cost_spec(body_spec(0)) == 300,
        body_cost_spec(body_spec(3)) == 400,
        body_cost_spec(body_spec(4)) == 500,
        body_cost_spec(body_spec(6)) == 550,
        body_cost_spec(body_spec(10)) == 750,
{
    reveal_with_fuel(body_cost_spec, 12);
    assert(body_cost_spec(body_spec(0)) == 300);
    assert(body_cost_spec(body_spec(3)) == 400);
    assert(body_cost_spec(body_spec(4)) == 500);
    assert(body_cost_spec(body_spec(6)) == 550);
    assert(body_cost_spec(body_spec(10)) == 750);
}

} // verus!
