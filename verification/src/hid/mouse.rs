//! The mouse report and the jiggle movements.
use rand::rngs::ThreadRng;
use rand::Rng;
use vstd::prelude::*;

verus! {

/// The byte that carries a signed relative movement in a HID report
/// (two's complement).
pub open spec fn movement_byte(v: i8) -> u8 {
    if v >= 0 {
        v as u8
    } else {
        (v + 256) as u8
    }
}

/// The signed movement that a report byte stands for (two's complement).
pub open spec fn movement_of_byte(b: u8) -> int {
    if b < 128 {
        b as int
    } else {
        b - 256
    }
}

/// One input report of the boot-protocol mouse.
pub struct MouseReport {
    /// bit 0 = left, bit 1 = right, bit 2 = middle
    pub buttons: u8,
    /// relative X movement (-127 to 127)
    pub x: i8,
    /// relative Y movement (-127 to 127)
    pub y: i8,
    /// scroll wheel (-127 to 127)
    pub wheel: i8,
}

impl MouseReport {
    /// The bytes of this report on the interrupt IN endpoint.
    pub open spec fn spec_bytes(self) -> Seq<u8> {
        seq![self.buttons, movement_byte(self.x), movement_byte(self.y), movement_byte(self.wheel)]
    }

    /// A report with no button pressed and no movement.
    pub fn zero() -> (r: Self)
        ensures
            r.buttons == 0,
            r.x == 0,
            r.y == 0,
            r.wheel == 0,
    {
        Self { buttons: 0, x: 0, y: 0, wheel: 0 }
    }

    /// The 4-byte wire form `[buttons, x, y, wheel]`, movements in two's complement.
    pub fn to_bytes(self) -> (r: [u8; 4])
        ensures
            r@ == self.spec_bytes(),
    {
        [self.buttons, signed_to_byte(self.x), signed_to_byte(self.y), signed_to_byte(self.wheel)]
    }
}

fn signed_to_byte(v: i8) -> (b: u8)
    ensures
        b == movement_byte(v),
{
    assert(v as u8 == movement_byte(v)) by (bit_vector);
    v as u8
}

/// Seconds between two jiggles.
pub const JIGGLE_INTERVAL_SECS: u64 = 30;

/// The largest displacement of a jiggle on either axis, in pixels.
pub const MAX_DISPLACEMENT: i8 = 20;

/// A jiggle displacement: 1 to 20 pixels in either direction.
pub open spec fn is_displacement(v: int) -> bool {
    (1 <= v <= MAX_DISPLACEMENT) || (-MAX_DISPLACEMENT <= v <= -1)
}

#[verifier::external_type_specification]
#[verifier::external_body]
pub struct ExThreadRng(ThreadRng);

/// `rand::thread_rng`: a handle to the lazily seeded thread-local generator.
/// Nothing is stated of it. It panics if the operating system's random
/// source fails when the generator is first seeded; no `requires` can rule
/// that out.
#[verifier::external_body]
fn thread_rng() -> ThreadRng {
    rand::thread_rng()
}

/// `Rng::gen_range` of rand on the inclusive range `low..=high`: it asserts
/// that the range is not empty and returns a value inside it.
#[verifier::external_body]
fn gen_range_inclusive(rng: &mut ThreadRng, low: i8, high: i8) -> (r: i8)
    requires
        low <= high,
    ensures
        low <= r <= high,
{
    rng.gen_range(low..=high)
}

/// `Rng::gen_ratio` of rand: `true` with probability
/// `numerator / denominator`. It panics when `denominator` is 0 or
/// `numerator` exceeds it; it is always `false` when `numerator` is 0 and
/// always `true` when `numerator == denominator`.
#[verifier::external_body]
fn gen_ratio(rng: &mut ThreadRng, numerator: u32, denominator: u32) -> (r: bool)
    requires
        0 < denominator,
        numerator <= denominator,
    ensures
        numerator == 0 ==> !r,
        numerator == denominator ==> r,
{
    rng.gen_ratio(numerator, denominator)
}

/// The displacement of the given magnitude, positive or negative.
pub fn signed_displacement(magnitude: i8, positive: bool) -> (r: i8)
    requires
        magnitude > -128,
    ensures
        r == (if positive { magnitude as int } else { -magnitude }),
{
    if positive {
        magnitude
    } else {
        -magnitude
    }
}

/// A random displacement: a magnitude drawn uniformly from 1..=20 and a
/// fair sign.
pub fn random_displacement() -> (r: i8)
    ensures
        is_displacement(r as int),
{
    let mut rng = thread_rng();
    let mag = gen_range_inclusive(&mut rng, 1, MAX_DISPLACEMENT);
    let positive = gen_ratio(&mut rng, 1, 2);
    signed_displacement(mag, positive)
}

/// The report that moves by `(dx, dy)` with no button and no wheel.
pub open spec fn movement(dx: int, dy: int) -> MouseReport {
    MouseReport { buttons: 0, x: dx as i8, y: dy as i8, wheel: 0 }
}

/// The two reports of one jiggle: a move by `(dx, dy)`, then the move back.
pub fn jiggle_reports(dx: i8, dy: i8) -> (r: ([u8; 4], [u8; 4]))
    requires
        dx > -128,
        dy > -128,
    ensures
        r.0@ == movement(dx as int, dy as int).spec_bytes(),
        r.1@ == movement(-dx, -dy).spec_bytes(),
{
    let tick1 = MouseReport { buttons: 0, x: dx, y: dy, wheel: 0 }.to_bytes();
    let tick2 = MouseReport { buttons: 0, x: -dx, y: -dy, wheel: 0 }.to_bytes();
    (tick1, tick2)
}

/// One jiggle: two reports that move the cursor by a random displacement
/// of 1 to 20 pixels on each axis and then back, with no button and no
/// wheel.
pub fn jiggle_cycle() -> (r: ([u8; 4], [u8; 4]))
    ensures
        r.0@.len() == 4,
        r.1@.len() == 4,
        r.0@[0] == 0 && r.1@[0] == 0,
        r.0@[3] == 0 && r.1@[3] == 0,
        is_displacement(movement_of_byte(r.0@[1])),
        is_displacement(movement_of_byte(r.0@[2])),
        movement_of_byte(r.1@[1]) == -movement_of_byte(r.0@[1]),
        movement_of_byte(r.1@[2]) == -movement_of_byte(r.0@[2]),
{
    let dx = random_displacement();
    let dy = random_displacement();
    jiggle_reports(dx, dy)
}

/// Whether a jiggle may be queued when the report queue has `free_slots`
/// free places: its two reports are queued together or not at all, so
/// that a full queue never keeps the move without the move back.
pub fn jiggle_fits(free_slots: usize) -> (r: bool)
    ensures
        r == (free_slots >= 2),
{
    free_slots >= 2
}

/// A report's bytes are its buttons, then its X, Y and wheel movements, each
/// read back as exactly the movement it carries.
pub proof fn report_bytes_carry_the_movements(r: MouseReport)
    ensures
        r.spec_bytes().len() == 4,
        r.spec_bytes()[0] == r.buttons,
        movement_of_byte(r.spec_bytes()[1]) == r.x,
        movement_of_byte(r.spec_bytes()[2]) == r.y,
        movement_of_byte(r.spec_bytes()[3]) == r.wheel,
{
}

/// A report byte carries exactly the movement it was made from.
pub proof fn movement_byte_roundtrip(v: i8)
    ensures
        movement_of_byte(movement_byte(v)) == v,
{
}

/// Every jiggle is net-zero: the two reports carry opposite movements on
/// each axis, so the cursor ends where it started; neither presses a
/// button or turns the wheel.
pub proof fn jiggle_is_net_zero(dx: i8, dy: i8)
    requires
        dx > -128,
        dy > -128,
    ensures
        movement_of_byte(movement(dx as int, dy as int).spec_bytes()[1]) + movement_of_byte(
            movement(-dx, -dy).spec_bytes()[1],
        ) == 0,
        movement_of_byte(movement(dx as int, dy as int).spec_bytes()[2]) + movement_of_byte(
            movement(-dx, -dy).spec_bytes()[2],
        ) == 0,
        movement(dx as int, dy as int).spec_bytes()[0] == 0,
        movement(-dx, -dy).spec_bytes()[0] == 0,
        movement_of_byte(movement(dx as int, dy as int).spec_bytes()[3]) == 0,
        movement_of_byte(movement(-dx, -dy).spec_bytes()[3]) == 0,
{
}

} // verus!
