//! How the player's character moves: time on and off the ground, gravity,
//! jumping, walking, and handing the tick's velocity to the physics
//! controller.
//!
//! Each step works on one character. The velocity gathers what the steps of
//! a tick add to it and is emptied when it is handed over, so nothing is
//! carried from tick to tick but the two timers.

use crate::timer::{advanced, ticked, Timer, CEILING};
use vstd::prelude::*;

verus! {

/// Microseconds in a second.
pub const MICROS_PER_SECOND: u64 = 1_000_000;

/// Base gravity per tick, in pico-units. It points down.
pub const GRAVITY: i64 = -9_810_000_000_000;

/// The strongest gravity per tick: five times the base.
pub const MAX_GRAVITY: i64 = -49_050_000_000_000;

/// The weakest gravity per tick: the base itself.
pub const MIN_GRAVITY: i64 = -9_810_000_000_000;

/// A character counts as standing while less than this many microseconds
/// have passed since it last touched the ground.
pub const GROUNDED_EPSILON: u64 = 10;

/// Upward speed at the height of a jump, in world units per second.
pub const JUMP_SPEED: u64 = 1_100;

/// Samples of the jump curve at or below this many millionths count as 0.
pub const JUMP_CUTOFF: u32 = 1_000;

/// The stick asks for a jump when it is pushed up beyond this many
/// millionths of its way.
pub const JUMP_THRESHOLD: i32 = 100_000;

/// Walking speed at full stick, in world units per second.
pub const WALK_SPEED: i64 = 450;

/// A sideways translation within this many pico-units of zero counts as
/// standing still.
pub const STUCK_EPSILON: i64 = 100_000_000;

/// Two lengths along the axes, in pico-units.
#[derive(Clone, Copy, Debug, PartialEq, Eq, Structural)]
pub struct Vector2 {
    pub x: i64,
    pub y: i64,
}

impl Vector2 {
    /// No length along either axis.
    pub open spec fn zero() -> Vector2 {
        Vector2 { x: 0, y: 0 }
    }
}

impl Default for Vector2 {
    fn default() -> (vector: Self)
        ensures
            vector == Vector2::zero(),
    {
        Vector2 { x: 0, y: 0 }
    }
}

/// Where the stick points, each axis in millionths of its full way.
#[derive(Clone, Copy, Debug, PartialEq, Eq, Structural)]
pub struct MovementIntent {
    pub x: i32,
    pub y: i32,
}

/// What the physics controller reports of its last move.
#[derive(Clone, Copy, Debug, PartialEq, Eq, Structural)]
pub struct ControllerOutput {
    /// Whether the character touches the ground.
    pub grounded: bool,
    /// The translation that was asked for.
    pub desired_translation: Vector2,
    /// The translation that was made.
    pub effective_translation: Vector2,
}

/// What the physics controller is asked to do in its next move.
#[derive(Clone, Copy, Debug, PartialEq, Eq, Structural)]
pub struct CharacterController {
    pub translation: Option<Vector2>,
}

/// The translation that the steps of one tick have gathered for a character.
#[derive(Clone, Copy, Debug, PartialEq, Eq, Structural)]
pub struct CharacterVelocity(pub Vector2);

impl Default for CharacterVelocity {
    fn default() -> (velocity: Self)
        ensures
            velocity.0 == Vector2::zero(),
    {
        CharacterVelocity(Vector2 { x: 0, y: 0 })
    }
}

/// Time since a character last touched the ground.
#[derive(Clone, Copy, Debug)]
pub struct Grounded {
    time_since_last_grounded: Timer,
}

impl View for Grounded {
    type V = nat;

    closed spec fn view(&self) -> nat {
        self.time_since_last_grounded@
    }
}

impl Default for Grounded {
    /// A character that has never touched the ground.
    fn default() -> (grounded: Self)
        ensures
            grounded@ == CEILING,
    {
        Grounded { time_since_last_grounded: Timer::default() }
    }
}

impl Grounded {
    /// Microseconds since the character last touched the ground.
    pub fn elapsed(&self) -> (elapsed: u64)
        ensures
            elapsed == self@,
    {
        self.time_since_last_grounded.elapsed()
    }

    /// Whether the character counts as standing.
    pub fn is_grounded(&self) -> (standing: bool)
        ensures
            standing == (self@ < GROUNDED_EPSILON),
    {
        self.time_since_last_grounded.elapsed() < GROUNDED_EPSILON
    }
}

/// Time since a character last took off.
#[derive(Clone, Copy, Debug)]
pub struct Jump {
    time_since_start: Timer,
}

impl View for Jump {
    type V = nat;

    closed spec fn view(&self) -> nat {
        self.time_since_start@
    }
}

impl Default for Jump {
    /// A character that has never jumped.
    fn default() -> (jump: Self)
        ensures
            jump@ == CEILING,
    {
        Jump { time_since_start: Timer::default() }
    }
}

/// `value`, or the end of the `i64` range that it lies beyond.
pub open spec fn saturated(value: int) -> int {
    if value < i64::MIN {
        i64::MIN as int
    } else if value > i64::MAX {
        i64::MAX as int
    } else {
        value
    }
}

/// Gravity for one tick on a character that left the ground `airborne`
/// microseconds ago: the base times the seconds in the air, held between
/// five times the base and the base.
pub open spec fn gravity_at(airborne: nat) -> int {
    let ramped = (GRAVITY as int) / (MICROS_PER_SECOND as int) * airborne;
    let capped = if ramped > MAX_GRAVITY {
        ramped
    } else {
        MAX_GRAVITY as int
    };
    if capped < MIN_GRAVITY {
        capped
    } else {
        MIN_GRAVITY as int
    }
}

/// The part of the full jump speed that a sample of the jump curve gives,
/// both in millionths: the sample itself, or nothing where it is at or
/// below the cutoff.
pub open spec fn fraction_of(suggestion: nat) -> nat {
    if suggestion > JUMP_CUTOFF {
        suggestion
    } else {
        0
    }
}

/// What a jump adds to the upward translation of a tick of `dt`
/// microseconds, in pico-units, for a sample of the jump curve.
pub open spec fn thrust(suggestion: nat, dt: nat) -> int {
    fraction_of(suggestion) * JUMP_SPEED * dt
}

/// Whether the stick asks for a jump.
pub open spec fn asks_to_jump(player_movement: Option<MovementIntent>) -> bool {
    player_movement matches Some(movement) && movement.y > JUMP_THRESHOLD
}

/// How far sideways the stick is pushed, in millionths; 0 with no stick.
pub open spec fn sideways(player_movement: Option<MovementIntent>) -> int {
    match player_movement {
        Some(movement) => movement.x as int,
        None => 0,
    }
}

/// What walking adds to the sideways translation of a tick of `dt`
/// microseconds, in pico-units.
pub open spec fn stride(player_movement: Option<MovementIntent>, dt: nat) -> int {
    sideways(player_movement) * WALK_SPEED * dt
}

/// Whether a jump starts in this tick: the stick asks for one, and it is
/// less than the epsilon since the character last touched the ground.
pub open spec fn jump_starts(player_movement: Option<MovementIntent>, since_grounded: nat) -> bool {
    asks_to_jump(player_movement) && since_grounded < GROUNDED_EPSILON
}

/// Whether the character ran into something sideways: the controller's last
/// move got it nowhere sideways although the velocity still pushes.
pub open spec fn stuck(velocity: Vector2, output: ControllerOutput) -> bool {
    &&& -STUCK_EPSILON < output.effective_translation.x < STUCK_EPSILON
    &&& (velocity.x > STUCK_EPSILON || velocity.x < -STUCK_EPSILON)
}

/// The translation to ask of the controller: the gathered velocity, but for
/// a stuck character with no push in the direction in which the controller
/// was last asked to go.
pub open spec fn reconciled(velocity: Vector2, output: Option<&ControllerOutput>) -> Vector2 {
    match output {
        Some(output) if stuck(velocity, *output) && (output.desired_translation.x < 0 && velocity.x
            < 0 || output.desired_translation.x > 0 && velocity.x > 0) => Vector2 {
            x: 0,
            y: velocity.y,
        },
        _ => velocity,
    }
}

/// A tick on the ground leaves the ground timer at 0. A tick in the air
/// moves it on by the tick's length exactly, so it rises with every tick
/// that takes time, until it is full; then it stays full.
pub proof fn ground_timer_counts_time_in_the_air(since_grounded: nat, dt: nat)
    requires
        since_grounded <= CEILING,
    ensures
        ticked(since_grounded, true, dt) == 0,
        since_grounded + dt <= CEILING ==> ticked(since_grounded, false, dt) == since_grounded + dt,
        since_grounded + dt <= CEILING && dt > 0 ==> ticked(since_grounded, false, dt)
            > since_grounded,
        since_grounded + dt > CEILING ==> ticked(since_grounded, false, dt) == CEILING,
{
}

/// A jump starts only from the ground. In the air the time since the last
/// jump runs on whatever the stick asks, and it goes back only where a
/// standing character is asked to jump.
pub proof fn jump_starts_only_from_the_ground(
    since_start: nat,
    player_movement: Option<MovementIntent>,
    since_grounded: nat,
    dt: nat,
)
    requires
        since_start <= CEILING,
    ensures
        since_grounded >= GROUNDED_EPSILON ==> !jump_starts(player_movement, since_grounded),
        !jump_starts(player_movement, since_grounded) ==> ticked(since_start, false, dt)
            >= since_start,
        ticked(since_start, jump_starts(player_movement, since_grounded), dt) < since_start
            ==> asks_to_jump(player_movement) && since_grounded < GROUNDED_EPSILON,
        asks_to_jump(player_movement) && since_grounded < GROUNDED_EPSILON ==> ticked(
            since_start,
            jump_starts(player_movement, since_grounded),
            dt,
        ) == 0,
{
}

/// Gravity always pulls down, at least as hard as the base and at most five
/// times as hard.
pub proof fn gravity_stays_in_band(airborne: nat)
    ensures
        5 * GRAVITY <= gravity_at(airborne) <= GRAVITY,
        gravity_at(airborne) < 0,
{
}

/// The longer in the air, the harder gravity pulls, never the weaker.
pub proof fn gravity_grows_with_time_in_the_air(earlier: nat, later: nat)
    requires
        earlier <= later,
    ensures
        gravity_at(later) <= gravity_at(earlier),
{
}

/// A lower sample of the jump curve never gives more of the jump speed than
/// a higher one, no sample gives more than itself, and samples at or below
/// the cutoff give none. So a curve that falls with time gives a push that
/// falls with time and then ends.
pub proof fn lower_samples_give_no_more_speed(lower: nat, higher: nat)
    requires
        lower <= higher,
    ensures
        fraction_of(lower) <= fraction_of(higher),
        fraction_of(lower) <= lower,
        lower <= JUMP_CUTOFF ==> fraction_of(lower) == 0 && thrust(lower, 1) == 0,
{
}

/// Gravity and the jump do not get in each other's way: as long as the
/// velocity stays within its range, it is the same whichever of the two is
/// added first, and it is what was there plus both.
pub proof fn gravity_and_jump_in_either_order(y: int, airborne: nat, suggestion: nat, dt: nat)
    requires
        saturated(y + gravity_at(airborne)) == y + gravity_at(airborne),
        saturated(y + thrust(suggestion, dt)) == y + thrust(suggestion, dt),
        saturated(y + gravity_at(airborne) + thrust(suggestion, dt)) == y + gravity_at(airborne)
            + thrust(suggestion, dt),
    ensures
        saturated(saturated(y + gravity_at(airborne)) + thrust(suggestion, dt)) == y + gravity_at(
            airborne,
        ) + thrust(suggestion, dt),
        saturated(saturated(y + thrust(suggestion, dt)) + gravity_at(airborne)) == y + gravity_at(
            airborne,
        ) + thrust(suggestion, dt),
{
}

/// A step of the tick.
#[derive(Clone, Copy, Debug, PartialEq, Eq, Structural)]
pub enum Step {
    UpdateGrounded,
    HandleJump,
    ApplyGravity,
    HandleHorizontalMovement,
    ApplyVelocity,
}

/// The player's part of the game: the steps of a tick and their order.
pub struct PlayerPlugin;

impl PlayerPlugin {
    /// Whether `first` has to be done before `second` in every tick: the
    /// ground is checked before anything else, and the velocity is handed
    /// over after everything else.
    pub open spec fn precedes(first: Step, second: Step) -> bool {
        ||| first is UpdateGrounded && !(second is UpdateGrounded)
        ||| second is ApplyVelocity && !(first is ApplyVelocity)
    }

    /// Whether `steps` is a tick: every step once, none before a step that
    /// has to be done before it.
    pub open spec fn is_tick(steps: Seq<Step>) -> bool {
        &&& steps.len() == 5
        &&& forall|step: Step| steps.contains(step)
        &&& forall|i: int, j: int|
            0 <= i < steps.len() && 0 <= j < steps.len() && Self::precedes(
                #[trigger] steps[i],
                #[trigger] steps[j],
            ) ==> i < j
    }

    /// The steps in the order in which a tick takes them.
    pub open spec fn steps() -> Seq<Step> {
        seq![
            Step::UpdateGrounded,
            Step::HandleJump,
            Step::ApplyGravity,
            Step::HandleHorizontalMovement,
            Step::ApplyVelocity,
        ]
    }

    /// Whether `first` has to be done before `second` in every tick.
    pub fn must_precede(first: Step, second: Step) -> (before: bool)
        ensures
            before == Self::precedes(first, second),
    {
        match (first, second) {
            (Step::UpdateGrounded, Step::UpdateGrounded) => false,
            (Step::ApplyVelocity, Step::ApplyVelocity) => false,
            (Step::UpdateGrounded, _) => true,
            (_, Step::ApplyVelocity) => true,
            _ => false,
        }
    }

    /// The steps of a tick, in an order that they can be taken in.
    pub fn build(&self) -> (steps: Vec<Step>)
        ensures
            steps@ == Self::steps(),
            Self::is_tick(steps@),
    {
        let steps = vec![
            Step::UpdateGrounded,
            Step::HandleJump,
            Step::ApplyGravity,
            Step::HandleHorizontalMovement,
            Step::ApplyVelocity,
        ];
        assert(steps@ =~= Self::steps());
        proof {
            Self::steps_are_a_tick();
        }
        steps
    }

    /// The order in which a tick takes its steps breaks none of the rules
    /// on their order.
    pub proof fn steps_are_a_tick()
        ensures
            Self::is_tick(Self::steps()),
    {
        let steps = Self::steps();
        assert forall|step: Step| steps.contains(step) by {
            match step {
                Step::UpdateGrounded => assert(steps[0] == step),
                Step::HandleJump => assert(steps[1] == step),
                Step::ApplyGravity => assert(steps[2] == step),
                Step::HandleHorizontalMovement => assert(steps[3] == step),
                Step::ApplyVelocity => assert(steps[4] == step),
            }
        }
    }

    /// The rules on the order of steps are themselves an order: no step
    /// has to come before itself, no two before each other, and what comes
    /// before a step comes before all that it comes before.
    pub proof fn rules_are_an_order(a: Step, b: Step, c: Step)
        ensures
            !Self::precedes(a, a),
            !(Self::precedes(a, b) && Self::precedes(b, a)),
            Self::precedes(a, b) && Self::precedes(b, c) ==> Self::precedes(a, c),
    {
    }
}

/// `value`, or the end of the `i64` range that it lies beyond.
fn saturate(value: i128) -> (held: i64)
    ensures
        held == saturated(value as int),
{
    if value < i64::MIN as i128 {
        i64::MIN
    } else if value > i64::MAX as i128 {
        i64::MAX
    } else {
        value as i64
    }
}

impl Jump {
    /// Microseconds since the character last took off. The jump curve is
    /// sampled at this time.
    pub fn elapsed(&self) -> (elapsed: u64)
        ensures
            elapsed == self@,
    {
        self.time_since_start.elapsed()
    }

    /// The part of the full jump speed that a sample of the jump curve
    /// gives, both in millionths. Small samples give nothing, so that a jump
    /// ends.
    pub fn speed_fraction(suggestion: u32) -> (fraction: u32)
        ensures
            fraction == fraction_of(suggestion as nat),
    {
        if suggestion > JUMP_CUTOFF {
            suggestion
        } else {
            0
        }
    }
}

/// Keeps the time since the character last touched the ground: none if it
/// touches it now, `dt` microseconds more if it does not.
pub fn update_grounded(grounded: &mut Grounded, output: &ControllerOutput, dt: u64)
    ensures
        final(grounded)@ == ticked(old(grounded)@, output.grounded, dt as nat),
{
    if output.grounded {
        grounded.time_since_last_grounded.start()
    } else {
        grounded.time_since_last_grounded.update(dt)
    }
}

/// Adds the tick's gravity to the velocity. The longer the character has
/// been in the air, the stronger it pulls.
pub fn apply_gravity(velocity: &mut CharacterVelocity, grounded: &Grounded)
    ensures
        final(velocity).0.x == old(velocity).0.x,
        final(velocity).0.y == saturated(old(velocity).0.y + gravity_at(grounded@)),
{
    let airborne = grounded.time_since_last_grounded.elapsed();
    let gravity: i64 = if airborne >= 5 * MICROS_PER_SECOND {
        MAX_GRAVITY
    } else if airborne <= MICROS_PER_SECOND {
        MIN_GRAVITY
    } else {
        0 - 9_810_000 * (airborne as i64)
    };
    velocity.0.y = saturate(velocity.0.y as i128 + gravity as i128);
}

/// Starts a jump if the stick asks for one and the character stands, and
/// lets the time since the last jump run on otherwise.
pub fn handle_jump(
    grounded: &Grounded,
    jump: &mut Jump,
    player_movement: Option<MovementIntent>,
    dt: u64,
)
    ensures
        final(jump)@ == ticked(old(jump)@, jump_starts(player_movement, grounded@), dt as nat),
{
    let jump_requested = match player_movement {
        Some(movement) => movement.y > JUMP_THRESHOLD,
        None => false,
    };
    if jump_requested && grounded.is_grounded() {
        jump.time_since_start.start();
    } else {
        jump.time_since_start.update(dt);
    }
}

/// Adds the jump's push to the velocity, for a tick of `dt` microseconds.
/// `suggestion` is the jump curve, in millionths, at the time that the jump
/// timer shows.
pub fn apply_jump(velocity: &mut CharacterVelocity, suggestion: u32, dt: u64)
    ensures
        final(velocity).0.x == old(velocity).0.x,
        final(velocity).0.y == saturated(
            old(velocity).0.y + thrust(suggestion as nat, dt as nat),
        ),
{
    let per_micro: i128 = 1_100 * (Jump::speed_fraction(suggestion) as i128);
    assert(0 <= per_micro * dt <= 0xffff_ffff * 1_100 * 0xffff_ffff_ffff_ffff && per_micro * dt
        == thrust(suggestion as nat, dt as nat)) by (nonlinear_arith)
        requires
            0 <= per_micro <= 0xffff_ffff * 1_100,
            0 <= dt <= 0xffff_ffff_ffff_ffff,
            per_micro == fraction_of(suggestion as nat) * JUMP_SPEED,
            thrust(suggestion as nat, dt as nat) == fraction_of(suggestion as nat) * JUMP_SPEED
                * dt,
    ;
    let push: i128 = per_micro * dt as i128;
    velocity.0.y = saturate(velocity.0.y as i128 + push);
}

/// Adds walking to the velocity, for a tick of `dt` microseconds.
pub fn handle_horizontal_movement(
    velocity: &mut CharacterVelocity,
    player_movement: Option<MovementIntent>,
    dt: u64,
)
    ensures
        final(velocity).0.y == old(velocity).0.y,
        final(velocity).0.x == saturated(old(velocity).0.x + stride(player_movement, dt as nat)),
{
    let x: i128 = match player_movement {
        Some(movement) => movement.x as i128,
        None => 0,
    };
    let per_micro: i128 = 450 * x;
    assert(-0x8000_0000 * 450 * 0xffff_ffff_ffff_ffff <= per_micro * dt <= 0x8000_0000 * 450
        * 0xffff_ffff_ffff_ffff && per_micro * dt == stride(player_movement, dt as nat))
        by (nonlinear_arith)
        requires
            -0x8000_0000 * 450 <= per_micro <= 0x8000_0000 * 450,
            0 <= dt <= 0xffff_ffff_ffff_ffff,
            per_micro == sideways(player_movement) * WALK_SPEED,
            stride(player_movement, dt as nat) == sideways(player_movement) * WALK_SPEED * dt,
    ;
    let step: i128 = per_micro * dt as i128;
    velocity.0.x = saturate(velocity.0.x as i128 + step);
}

/// Hands the tick's velocity to the controller and empties it.
///
/// Where the controller's last move got the character nowhere sideways
/// although the velocity still pushes, the push in the direction that the
/// controller was last asked to go is dropped first.
pub fn apply_velocity(
    velocity: &mut CharacterVelocity,
    controller: &mut CharacterController,
    output: Option<&ControllerOutput>,
)
    ensures
        final(controller).translation == Some(reconciled(old(velocity).0, output)),
        final(velocity).0 == Vector2::zero(),
{
    if let Some(output) = output {
        let moved = output.effective_translation.x;
        let x = velocity.0.x;
        if -STUCK_EPSILON < moved && moved < STUCK_EPSILON && (x > STUCK_EPSILON || x
            < -STUCK_EPSILON) {
            if output.desired_translation.x < 0 {
                if x < 0 {
                    velocity.0.x = 0;
                }
            } else if output.desired_translation.x > 0 {
                if x > 0 {
                    velocity.0.x = 0;
                }
            }
        }
    }
    controller.translation = Some(velocity.0);
    velocity.0 = Vector2::default();
}

} // verus!
