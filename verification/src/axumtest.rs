//! Dice rolls served by the demo server.

use vstd::prelude::*;
use rand::Rng;

verus! {

/// The most sides a die may have.
pub const MAX_SIDES: u32 = 100;

/// A roll of a die with `sides` sides.
///
/// Trusted: `rand::Rng::gen_range(1..=sides)` on the thread's generator;
/// the roll is random, and only its range, which the documentation gives,
/// is claimed.  `thread_rng` panics only when the operating system's entropy
/// source fails, a state of the machine that no `requires` can leave out.
#[verifier::external_body]
fn roll_die(sides: u32) -> (r: u32)
    requires
        sides >= 1,
    ensures
        1 <= r <= sides,
{
    rand::thread_rng().gen_range(1..=sides)
}

/// Rolls `num` dice with `sides` sides each.
pub fn roll_dice(num: u32, sides: u32) -> (rolls: Vec<u32>)
    requires
        num == 0 || sides >= 1,
    ensures
        rolls@.len() == num,
        forall|i: int| 0 <= i < rolls@.len() ==> 1 <= #[trigger] rolls@[i] <= sides,
{
    let mut rolls: Vec<u32> = Vec::new();
    let mut i: u32 = 0;
    while i < num
        invariant
            i <= num,
            num == 0 || sides >= 1,
            rolls@.len() == i,
            forall|k: int| 0 <= k < rolls@.len() ==> 1 <= #[trigger] rolls@[k] <= sides,
        decreases num - i,
    {
        let r = roll_die(sides);
        rolls.push(r);
        i = i + 1;
    }
    rolls
}

/// Rolls dice for a request, refusing dice with more than 100 sides.
pub fn roll_dice_handler(num: u32, sides: u32) -> (r: Result<Vec<u32>, (u16, &'static str)>)
    requires
        num == 0 || sides >= 1,
    ensures
        sides > MAX_SIDES <==> r is Err,
        r matches Err(e) ==> e.0 == 400 && e.1@ == "Error: Dice can have a maximum of 100 sides."@,
        r matches Ok(rolls) ==> rolls@.len() == num
            && forall|i: int| 0 <= i < rolls@.len() ==> 1 <= #[trigger] rolls@[i] <= sides,
{
    if sides > MAX_SIDES {
        return Err((400, "Error: Dice can have a maximum of 100 sides."));
    }
    Ok(roll_dice(num, sides))
}

/// The greeting of the demo server.
pub fn hello_world() -> (s: &'static str)
    ensures
        s@ == "Hello, world!"@,
{
    "Hello, world!"
}

} // verus!
