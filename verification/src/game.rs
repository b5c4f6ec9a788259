//! The simulation engine: owns the aircraft roster and the scenario, and
//! advances the world one tick at a time — spawning traffic, flying every
//! aircraft, retiring safe arrivals, and evaluating the loss conditions.

use vstd::prelude::*;
use rand::Rng;
use crate::command::Command;
use crate::level::Level;
use crate::locations::LocationId;
use crate::plane::Plane;
use crate::plane::PlaneState;
use crate::plane::PlaneType;
use crate::plane::PlaneVisibility;
use crate::plane::TICK_LIMIT;

verus! {

/// Most aircraft that may be alive at once; spawning pauses at this cap.
pub const MAX_PLANES: i32 = 20;

/// Altitude at which an aircraft enters the map through an exit.
pub const ENTRY_ALTITUDE: i32 = 7;

/// Altitude at which an aircraft waits on an airport runway.
pub const AIRPORT_ENTRY_ALTITUDE: i32 = 0;

/// Fuel level at and below which displays flag an aircraft as low on fuel.
pub const LOW_FUEL_THRESHOLD: i32 = 15;

#[verifier::external_type_specification]
#[verifier::external_body]
pub struct ExThreadRng(rand::rngs::ThreadRng);

/// Relies on `rand::thread_rng`: fetches the thread-local random number
/// generator. Nothing is assumed of it beyond what each draw states.
#[verifier::external_body]
fn new_rng() -> rand::rngs::ThreadRng {
    rand::thread_rng()
}

/// Relies on `Rng::gen_range` over `0..n`: returns a uniformly distributed
/// value below `n`, and panics only on an empty range, which the
/// precondition rules out. No two draws are assumed related.
#[verifier::external_body]
fn rand_below(rng: &mut rand::rngs::ThreadRng, n: usize) -> (r: usize)
    requires
        n >= 1,
    ensures
        r < n,
{
    rng.gen_range(0..n)
}

/// The four terminal outcomes of a simulation, each naming the offending
/// aircraft.
#[derive(Debug, Clone, Copy, PartialEq, Eq, Structural)]
pub enum LoseCondition {
    PlaneCollision { plane_a: char, plane_b: char },
    PlaneIllegallyExited { plane: char },
    PlaneHitGround { plane: char },
    PlaneRanOutOfFuel { plane: char },
}

impl LoseCondition {
    /// The human-readable message for this outcome.
    pub open spec fn message_spec(self) -> Seq<char> {
        match self {
            LoseCondition::PlaneCollision { plane_a, plane_b } => "Plane "@ + seq![plane_a]
                + " hit plane "@ + seq![plane_b],
            LoseCondition::PlaneIllegallyExited { plane } => "Plane "@ + seq![plane]
                + " exited illegally"@,
            LoseCondition::PlaneHitGround { plane } => "Plane "@ + seq![plane]
                + " hit the ground"@,
            LoseCondition::PlaneRanOutOfFuel { plane } => "Plane "@ + seq![plane]
                + " ran out of fuel"@,
        }
    }

    pub fn to_message(&self) -> (r: String)
        ensures
            r@ == self.message_spec(),
    {
        let mut s = String::new();
        s.append("Plane ");
        match self {
            LoseCondition::PlaneCollision { plane_a, plane_b } => {
                crate::text::push_char(&mut s, *plane_a);
                s.append(" hit plane ");
                crate::text::push_char(&mut s, *plane_b);
            },
            LoseCondition::PlaneIllegallyExited { plane } => {
                crate::text::push_char(&mut s, *plane);
                s.append(" exited illegally");
            },
            LoseCondition::PlaneHitGround { plane } => {
                crate::text::push_char(&mut s, *plane);
                s.append(" hit the ground");
            },
            LoseCondition::PlaneRanOutOfFuel { plane } => {
                crate::text::push_char(&mut s, *plane);
                s.append(" ran out of fuel");
            },
        }
        proof {
            assert(s@ =~= self.message_spec());
        }
        s
    }
}

/// Ground strike: altitude zero while airborne.
pub open spec fn ground_struck(p: Plane) -> bool {
    p.altitude == 0 && !p.is_at_airport_spec()
}

/// Outside the strict interior of the map.
pub open spec fn out_of_bounds(level: Level, p: Plane) -> bool {
    p.position.x <= 0 || p.position.y <= 0 || p.position.x >= level.size.x - 1 || p.position.y
        >= level.size.y - 1
}

/// Illegal exit: out of bounds after the first tick of grace that newly
/// spawned edge-entry aircraft get.
pub open spec fn illegally_exited(level: Level, p: Plane) -> bool {
    out_of_bounds(level, p) && p.ticks_since_created > 1
}

/// Fuel exhaustion.
pub open spec fn out_of_fuel(p: Plane) -> bool {
    p.remaining_fuel == 0
}

/// A collision loss between two distinct airborne aircraft whose proximity
/// boxes touch.
pub open spec fn collision_pair(p: Plane, q: Plane) -> bool {
    &&& !p.is_at_airport_spec()
    &&& !q.is_at_airport_spec()
    &&& p.name != q.name
    &&& p.colliding_spec(q)
}

/// Whether any loss condition holds anywhere in the roster.
pub open spec fn any_loss(level: Level, planes: Seq<Plane>) -> bool {
    ||| exists|i: int|
        0 <= i < planes.len() && (ground_struck(#[trigger] planes[i]) || illegally_exited(
            level,
            planes[i],
        ) || out_of_fuel(planes[i]))
    ||| exists|i: int, j: int|
        0 <= i < planes.len() && 0 <= j < planes.len() && collision_pair(
            #[trigger] planes[i],
            #[trigger] planes[j],
        )
}

/// The returned loss names an aircraft (or pair) of the roster that indeed
/// suffers that condition.
pub open spec fn loss_witness(level: Level, planes: Seq<Plane>, e: LoseCondition) -> bool {
    match e {
        LoseCondition::PlaneHitGround { plane } => exists|i: int|
            0 <= i < planes.len() && ground_struck(#[trigger] planes[i]) && planes[i].name
                == plane,
        LoseCondition::PlaneIllegallyExited { plane } => exists|i: int|
            0 <= i < planes.len() && illegally_exited(level, #[trigger] planes[i]) && planes[i].name
                == plane,
        LoseCondition::PlaneRanOutOfFuel { plane } => exists|i: int|
            0 <= i < planes.len() && out_of_fuel(#[trigger] planes[i]) && planes[i].name == plane,
        LoseCondition::PlaneCollision { plane_a, plane_b } => exists|i: int, j: int|
            0 <= i < planes.len() && 0 <= j < planes.len() && collision_pair(
                #[trigger] planes[i],
                #[trigger] planes[j],
            ) && planes[i].name == plane_a && planes[j].name == plane_b,
    }
}

/// An aircraft as it leaves the spawner: fresh fuel derived from the map
/// size, marked, no pending commands, placed at an airport (grounded, at
/// its flight heading) or at an exit (airborne at entry altitude, at its
/// entry heading), with an airport or exit as destination.
pub open spec fn fresh_spawn(p: Plane, level: Level) -> bool {
    &&& p.ticks_since_created == 0
    &&& p.visibility == PlaneVisibility::Marked
    &&& p.directional_command is None
    &&& p.visibility_command is None
    &&& p.altitude_command is None
    &&& p.remaining_fuel == level.size.x + level.size.y
    &&& level.valid_destination(p.destination)
    &&& p.target_altitude == p.altitude
    &&& spawned_at_entry(p, level)
}

/// The spawn point of a fresh aircraft is one of the scenario's entry
/// points.
pub open spec fn spawned_at_entry(p: Plane, level: Level) -> bool {
    ||| exists|i: int|
        0 <= i < level.airports@.len() && p.position == (#[trigger] level.airports@[i]).position
            && p.direction == level.airports@[i].flight_direction && p.state
            == PlaneState::AtAirport(i as usize) && p.altitude == AIRPORT_ENTRY_ALTITUDE
    ||| exists|i: int|
        0 <= i < level.exits@.len() && p.position == (#[trigger] level.exits@[i]).position
            && p.direction == level.exits@[i].entry_direction && p.state == PlaneState::Flying
            && p.altitude == ENTRY_ALTITUDE
}

/// The engine: the live roster, the scenario, and the two counters the
/// status display shows.
pub struct Game {
    pub planes: Vec<Plane>,
    pub level: Level,
    pub ticks: i32,
    pub planes_safe: i32,
}

/// One spawn happened between `pre` and `post`: one fresh aircraft with an
/// unused lowercase name was appended and nothing else changed.
pub open spec fn spawned_one(pre: Game, post: Game) -> bool {
    &&& post.level == pre.level
    &&& post.ticks == pre.ticks
    &&& post.planes_safe == pre.planes_safe
    &&& post.planes@.len() == pre.planes@.len() + 1
    &&& post.planes@ == pre.planes@.push(post.planes@.last())
    &&& fresh_spawn(post.planes@.last(), pre.level)
    &&& 97 <= post.planes@.last().name as int <= 122
    &&& forall|i: int|
        0 <= i < pre.planes@.len() ==> (#[trigger] pre.planes@[i]).name
            != post.planes@.last().name
    &&& forall|k: int|
        97 <= k < post.planes@.last().name as int ==> #[trigger] Game::name_in_use(
            pre.planes@,
            k,
        )
}

impl Game {
    /// The subsequence of a roster that stays after arrivals are retired:
    /// exactly the aircraft not safely at their destination, in order.
    pub open spec fn survivors(level: Level, planes: Seq<Plane>) -> Seq<Plane>
        decreases planes.len(),
    {
        if planes.len() == 0 {
            Seq::empty()
        } else {
            let rest = Self::survivors(level, planes.drop_last());
            if !planes.last().at_destination_spec(level) {
                rest.push(planes.last())
            } else {
                rest
            }
        }
    }

    /// The roster after every aircraft of `planes` has flown one tick.
    pub open spec fn after_flying(level: Level, planes: Seq<Plane>) -> Seq<Plane> {
        planes.map_values(|p: Plane| p.fly_spec(level))
    }

    /// Exactly how one tick transforms the roster and the safe counter:
    /// either no aircraft spawned, or — only below the cap — one fresh
    /// aircraft with the lowest unused lowercase name joined; then every
    /// aircraft flew exactly once and precisely the safe arrivals left the
    /// roster, each adding one to the counter.
    pub open spec fn tick_roster_relation(pre: Game, post: Game) -> bool {
        ||| {
            &&& post.planes@ == Game::survivors(
                pre.level,
                Game::after_flying(pre.level, pre.planes@),
            )
            &&& post.planes_safe == pre.planes_safe + pre.planes@.len() - post.planes@.len()
        }
        ||| exists|fresh: Plane|
            {
                &&& #[trigger] fresh_spawn(fresh, pre.level)
                &&& pre.planes@.len() < MAX_PLANES
                &&& 97 <= fresh.name as int <= 122
                &&& forall|i: int|
                    0 <= i < pre.planes@.len() ==> (#[trigger] pre.planes@[i]).name != fresh.name
                &&& forall|k: int|
                    97 <= k < fresh.name as int ==> #[trigger] Game::name_in_use(pre.planes@, k)
                &&& post.planes@ == Game::survivors(
                    pre.level,
                    Game::after_flying(pre.level, pre.planes@.push(fresh)),
                )
                &&& post.planes_safe == pre.planes_safe + pre.planes@.len() + 1
                    - post.planes@.len()
            }
    }

    /// No two live aircraft share a name.
    pub open spec fn names_distinct(planes: Seq<Plane>) -> bool {
        forall|i: int, j: int|
            0 <= i < j < planes.len() ==> (#[trigger] planes[i]).name != (#[trigger] planes[j]).name
    }

    /// Well-formedness of the whole simulation state: a well-formed
    /// scenario, a roster within the cap whose aircraft are each
    /// well-formed, no older than the simulation, lowercase-named and
    /// distinctly named, and counters consistent with at most one spawn
    /// per tick.
    pub open spec fn wf(self) -> bool {
        &&& self.level.wf()
        &&& 0 <= self.ticks
        &&& 0 <= self.planes_safe
        &&& self.planes@.len() <= MAX_PLANES
        &&& self.planes_safe + self.planes@.len() <= 1 + self.ticks
        &&& Self::names_distinct(self.planes@)
        &&& forall|i: int|
            0 <= i < self.planes@.len() ==> (#[trigger] self.planes@[i]).wf(self.level)
        &&& forall|i: int|
            0 <= i < self.planes@.len() ==> (#[trigger] self.planes@[i]).ticks_since_created
                <= self.ticks
        &&& forall|i: int|
            0 <= i < self.planes@.len() ==> 97 <= (#[trigger] self.planes@[i]).name as int <= 122
    }

    /// Starts a simulation of the given scenario with one aircraft already
    /// spawned.
    pub fn new(level: Level) -> (g: Game)
        requires
            level.wf(),
        ensures
            g.wf(),
            g.level == level,
            g.ticks == 0,
            g.planes_safe == 0,
            g.planes@.len() == 1,
            fresh_spawn(g.planes@[0], level),
            g.planes@[0].name == 'a',
    {
        let mut g = Game { planes: Vec::new(), level, ticks: 0, planes_safe: 0 };
        let ghost pre = g;
        g.create_new_plane();
        proof {
            assert(spawned_one(pre, g));
            if g.planes@[0].name as int > 97 {
                assert(Game::name_in_use(pre.planes@, 97));
                assert(false);
            }
            assert(g.planes@[0].name as int == 'a' as int);
        }
        g
    }

    /// One tick of the world: advance the clock, perhaps spawn one
    /// aircraft, fly every aircraft, retire the safe arrivals, then
    /// evaluate the loss conditions over the survivors.
    pub fn tick(&mut self) -> (r: Result<(), LoseCondition>)
        requires
            old(self).wf(),
            old(self).ticks < TICK_LIMIT,
        ensures
            final(self).wf(),
            final(self).ticks == old(self).ticks + 1,
            final(self).level == old(self).level,
            final(self).planes_safe >= old(self).planes_safe,
            final(self).planes@.len() <= MAX_PLANES,
            final(self).planes@.len() <= old(self).planes@.len() + 1,
            Game::tick_roster_relation(*old(self), *final(self)),
            forall|i: int|
                0 <= i < final(self).planes@.len() ==> !(#[trigger] final(self).planes@[i]).at_destination_spec(old(self).level),
            r == match Self::first_loss_from(final(self).level, final(self).planes@, 0) {
                None => Result::<(), LoseCondition>::Ok(()),
                Some(e) => Result::<(), LoseCondition>::Err(e),
            },
            r is Ok <==> !any_loss(final(self).level, final(self).planes@),
            match r {
                Ok(()) => true,
                Err(e) => loss_witness(final(self).level, final(self).planes@, e),
            },
    {
        self.ticks = self.ticks + 1;
        self.maybe_create_new_plane();
        let ghost mid = self.planes@;
        let ghost spawned = mid.len() > old(self).planes@.len();
        self.move_planes();
        proof {
            assert(self.planes@ =~= Game::after_flying(old(self).level, mid));
        }
        self.remove_safe_planes();
        proof {
            if spawned {
                let fresh = mid.last();
                assert(mid =~= old(self).planes@.push(fresh));
                assert(fresh_spawn(fresh, old(self).level));
            } else {
                assert(mid =~= old(self).planes@);
            }
            assert(Game::tick_roster_relation(*old(self), *self));
        }
        self.check_lose_conditions()
    }

    /// With probability `plane_spawn_chance / 1000`, and only below the
    /// aircraft cap, spawns one new aircraft.
    fn maybe_create_new_plane(&mut self)
        requires
            old(self).level.wf(),
        ensures
            *final(self) == *old(self) || (old(self).planes@.len() < MAX_PLANES && spawned_one(
                *old(self),
                *final(self),
            )),
    {
        if self.planes.len() < (MAX_PLANES as usize) {
            let mut rng = new_rng();
            let draw = rand_below(&mut rng, 1000);
            if (draw as u32) < self.level.plane_spawn_chance {
                self.create_new_plane();
            }
        }
    }

    /// Spawns one aircraft: a random entry point, a random airport-or-exit
    /// destination, a random type, the first free name, fresh fuel.
    fn create_new_plane(&mut self)
        requires
            old(self).level.wf(),
            old(self).planes@.len() < MAX_PLANES,
        ensures
            spawned_one(*old(self), *final(self)),
    {
        let mut rng = new_rng();
        let spawn_point = self.random_airport_or_exit(&mut rng);
        let name = self.next_free_plane_name();
        let destination = self.random_airport_or_exit(&mut rng);
        let plane_type = if rand_below(&mut rng, 2) == 0 {
            PlaneType::Jet
        } else {
            PlaneType::Propeller
        };

        let (direction, state, position, alt) = match spawn_point {
            LocationId::Airport(i) => {
                let a = &self.level.airports[i];
                (a.flight_direction, PlaneState::AtAirport(i), a.position, AIRPORT_ENTRY_ALTITUDE)
            },
            LocationId::Exit(i) => {
                let e = &self.level.exits[i];
                (e.entry_direction, PlaneState::Flying, e.position, ENTRY_ALTITUDE)
            },
            LocationId::Beacon(_) => vstd::pervasive::unreached(),
        };

        let plane = Plane {
            name,
            plane_type,
            altitude: alt,
            target_altitude: alt,
            direction,
            position,
            state,
            visibility: PlaneVisibility::Marked,
            ticks_since_created: 0,
            remaining_fuel: self.level.size.x + self.level.size.y,
            destination,
            directional_command: None,
            visibility_command: None,
            altitude_command: None,
        };
        self.planes.push(plane);
    }

    /// Advances every aircraft by one tick.
    fn move_planes(&mut self)
        requires
            old(self).level.wf(),
            forall|i: int|
                0 <= i < old(self).planes@.len() ==> (#[trigger] old(self).planes@[i]).wf(
                    old(self).level,
                ) && old(self).planes@[i].ticks_since_created < TICK_LIMIT,
        ensures
            final(self).level == old(self).level,
            final(self).ticks == old(self).ticks,
            final(self).planes_safe == old(self).planes_safe,
            final(self).planes@.len() == old(self).planes@.len(),
            forall|i: int|
                0 <= i < final(self).planes@.len() ==> #[trigger] final(self).planes@[i] == old(self).planes@[i].fly_spec(old(self).level),
            forall|i: int|
                0 <= i < final(self).planes@.len() ==> (#[trigger] final(self).planes@[i]).wf(
                    old(self).level,
                ),
            forall|i: int|
                0 <= i < final(self).planes@.len() ==> (#[trigger] final(self).planes@[i]).ticks_since_created == old(self).planes@[i].ticks_since_created + 1
                    && final(self).planes@[i].name == old(self).planes@[i].name && final(self).planes@[i].destination == old(self).planes@[i].destination,
    {
        let n = self.planes.len();
        let mut i: usize = 0;
        while i < n
            invariant
                n == self.planes@.len(),
                n == old(self).planes@.len(),
                0 <= i <= n,
                self.level == old(self).level,
                self.ticks == old(self).ticks,
                self.planes_safe == old(self).planes_safe,
                self.level.wf(),
                forall|k: int|
                    0 <= k < old(self).planes@.len() ==> (#[trigger] old(self).planes@[k]).wf(
                        old(self).level,
                    ) && old(self).planes@[k].ticks_since_created < TICK_LIMIT,
                forall|k: int|
                    i <= k < n ==> #[trigger] self.planes@[k] == old(self).planes@[k],
                forall|k: int|
                    0 <= k < i ==> #[trigger] self.planes@[k] == old(self).planes@[k].fly_spec(
                        old(self).level,
                    ),
                forall|k: int|
                    0 <= k < i ==> (#[trigger] self.planes@[k]).wf(old(self).level),
                forall|k: int|
                    0 <= k < i ==> (#[trigger] self.planes@[k]).ticks_since_created == old(self).planes@[k].ticks_since_created + 1 && self.planes@[k].name == old(self).planes@[k].name && self.planes@[k].destination == old(self).planes@[k].destination,
            decreases n - i,
        {
            let mut p = self.planes[i];
            p.fly(&self.level);
            self.planes.set(i, p);
            i += 1;
        }
    }

    /// Removes every aircraft that has reached its destination safely,
    /// counting each toward the safe-arrival tally. Aircraft at their
    /// destination's position with the wrong heading or altitude stay in
    /// the roster.
    fn remove_safe_planes(&mut self)
        requires
            old(self).level.wf(),
            forall|i: int|
                0 <= i < old(self).planes@.len() ==> old(self).level.valid_destination(
                    (#[trigger] old(self).planes@[i]).destination,
                ),
            Self::names_distinct(old(self).planes@),
            0 <= old(self).planes_safe,
            old(self).planes_safe + old(self).planes@.len() <= 1 + TICK_LIMIT,
        ensures
            final(self).level == old(self).level,
            final(self).ticks == old(self).ticks,
            final(self).planes@ == Game::survivors(old(self).level, old(self).planes@),
            final(self).planes@.len() <= old(self).planes@.len(),
            final(self).planes_safe == old(self).planes_safe + old(self).planes@.len() - final(self).planes@.len(),
            Self::names_distinct(final(self).planes@),
            forall|i: int|
                0 <= i < final(self).planes@.len() ==> !(#[trigger] final(self).planes@[i]).at_destination_spec(old(self).level),
            forall|i: int|
                #![trigger final(self).planes@[i]]
                0 <= i < final(self).planes@.len() ==> exists|j: int|
                    #![trigger old(self).planes@[j]]
                    0 <= j < old(self).planes@.len() && final(self).planes@[i] == old(
                        self,
                    ).planes@[j],
    {
        let n = self.planes.len();
        let mut kept: Vec<Plane> = Vec::new();
        let mut i: usize = 0;
        while i < n
            invariant
                n == self.planes@.len(),
                *self == *old(self),
                self.level.wf(),
                0 <= i <= n,
                forall|k: int|
                    0 <= k < n ==> old(self).level.valid_destination(
                        (#[trigger] old(self).planes@[k]).destination,
                    ),
                Self::names_distinct(old(self).planes@),
                kept@ == Game::survivors(
                    old(self).level,
                    old(self).planes@.subrange(0, i as int),
                ),
                kept@.len() <= i,
                forall|k: int|
                    0 <= k < kept@.len() ==> !(#[trigger] kept@[k]).at_destination_spec(
                        old(self).level,
                    ),
                forall|k: int|
                    #![trigger kept@[k]]
                    0 <= k < kept@.len() ==> exists|j: int|
                        #![trigger old(self).planes@[j]]
                        0 <= j < i && kept@[k] == old(self).planes@[j],
                Self::names_distinct(kept@),
            decreases n - i,
        {
            let p = self.planes[i];
            proof {
                let prefix = old(self).planes@.subrange(0, i as int + 1);
                assert(prefix.drop_last() =~= old(self).planes@.subrange(0, i as int));
                assert(prefix.last() == old(self).planes@[i as int]);
            }
            if !p.is_at_destination(&self.level) {
                proof {
                    assert forall|k: int| 0 <= k < kept@.len() implies (#[trigger] kept@[k]).name
                        != p.name by {
                        let j = choose|j: int|
                            #![trigger old(self).planes@[j]]
                            0 <= j < i && kept@[k] == old(self).planes@[j];
                        assert(old(self).planes@[j].name != old(self).planes@[i as int].name);
                    }
                }
                kept.push(p);
            }
            i += 1;
        }
        proof {
            assert(old(self).planes@.subrange(0, n as int) =~= old(self).planes@);
        }
        let removed = n - kept.len();
        self.planes = kept;
        self.planes_safe = self.planes_safe + (removed as i32);
    }

    /// The first collision loss of aircraft `i`, scanning partners from
    /// `j` in roster order.
    pub open spec fn first_collision_from(
        level: Level,
        planes: Seq<Plane>,
        i: int,
        j: int,
    ) -> Option<LoseCondition>
        decreases planes.len() - j,
    {
        if j < 0 || j >= planes.len() {
            None
        } else if collision_pair(planes[i], planes[j]) {
            Some(
                LoseCondition::PlaneCollision {
                    plane_a: planes[i].name,
                    plane_b: planes[j].name,
                },
            )
        } else {
            Self::first_collision_from(level, planes, i, j + 1)
        }
    }

    /// The first loss in the deterministic evaluation order, scanning
    /// aircraft from `i`: for each aircraft in roster order, ground
    /// strike, then illegal exit, then fuel exhaustion, then collisions
    /// against every other aircraft in roster order.
    pub open spec fn first_loss_from(level: Level, planes: Seq<Plane>, i: int) -> Option<
        LoseCondition,
    >
        decreases planes.len() - i,
    {
        if i < 0 || i >= planes.len() {
            None
        } else if ground_struck(planes[i]) {
            Some(LoseCondition::PlaneHitGround { plane: planes[i].name })
        } else if illegally_exited(level, planes[i]) {
            Some(LoseCondition::PlaneIllegallyExited { plane: planes[i].name })
        } else if out_of_fuel(planes[i]) {
            Some(LoseCondition::PlaneRanOutOfFuel { plane: planes[i].name })
        } else {
            match Self::first_collision_from(level, planes, i, 0) {
                Some(e) => Some(e),
                None => Self::first_loss_from(level, planes, i + 1),
            }
        }
    }

    /// Evaluates the loss conditions over the roster and returns exactly
    /// the first one in the documented deterministic order: for each
    /// aircraft in roster order, ground strike, then illegal exit, then
    /// fuel exhaustion, then collisions against every other aircraft.
    pub fn check_lose_conditions(&self) -> (r: Result<(), LoseCondition>)
        requires
            self.level.wf(),
        ensures
            r == match Self::first_loss_from(self.level, self.planes@, 0) {
                None => Result::<(), LoseCondition>::Ok(()),
                Some(e) => Result::<(), LoseCondition>::Err(e),
            },
            r is Ok <==> !any_loss(self.level, self.planes@),
            match r {
                Ok(()) => true,
                Err(e) => loss_witness(self.level, self.planes@, e),
            },
    {
        let n = self.planes.len();
        let mut i: usize = 0;
        while i < n
            invariant
                n == self.planes@.len(),
                self.level.wf(),
                0 <= i <= n,
                forall|k: int|
                    0 <= k < i ==> !ground_struck(#[trigger] self.planes@[k]) && !illegally_exited(
                        self.level,
                        self.planes@[k],
                    ) && !out_of_fuel(self.planes@[k]),
                forall|k: int, l: int|
                    0 <= k < i && 0 <= l < n ==> !collision_pair(
                        #[trigger] self.planes@[k],
                        #[trigger] self.planes@[l],
                    ),
                Self::first_loss_from(self.level, self.planes@, 0) == Self::first_loss_from(
                    self.level,
                    self.planes@,
                    i as int,
                ),
            decreases n - i,
        {
            let plane = self.planes[i];

            if plane.altitude == 0 && !plane.is_at_airport() {
                return Err(LoseCondition::PlaneHitGround { plane: plane.name });
            }
            let is_out_of_bounds = plane.position.x <= 0 || plane.position.y <= 0
                || plane.position.x >= self.level.size.x - 1 || plane.position.y
                >= self.level.size.y - 1;
            if is_out_of_bounds && plane.ticks_since_created > 1 {
                return Err(LoseCondition::PlaneIllegallyExited { plane: plane.name });
            }
            if plane.remaining_fuel == 0 {
                return Err(LoseCondition::PlaneRanOutOfFuel { plane: plane.name });
            }

            let mut j: usize = 0;
            while j < n
                invariant
                    n == self.planes@.len(),
                    0 <= i < n,
                    0 <= j <= n,
                    plane == self.planes@[i as int],
                    self.level.wf(),
                    !ground_struck(plane),
                    !illegally_exited(self.level, plane),
                    !out_of_fuel(plane),
                    Self::first_loss_from(self.level, self.planes@, 0) == Self::first_loss_from(
                        self.level,
                        self.planes@,
                        i as int,
                    ),
                    forall|l: int|
                        0 <= l < j ==> !collision_pair(
                            self.planes@[i as int],
                            #[trigger] self.planes@[l],
                        ),
                    Self::first_collision_from(self.level, self.planes@, i as int, 0)
                        == Self::first_collision_from(self.level, self.planes@, i as int, j as int),
                decreases n - j,
            {
                let other = self.planes[j];
                if !plane.is_at_airport() && !other.is_at_airport() && plane.name != other.name
                    && plane.is_colliding_with(&other) {
                    return Err(
                        LoseCondition::PlaneCollision {
                            plane_a: plane.name,
                            plane_b: other.name,
                        },
                    );
                }
                j += 1;
            }
            i += 1;
        }
        Ok(())
    }

    /// The lowest unused lowercase letter, for a newly spawned aircraft:
    /// every letter below the returned one is already in use. With at most
    /// 25 live aircraft and 26 letters, one is always free.
    fn next_free_plane_name(&self) -> (c: char)
        requires
            self.planes@.len() < 26,
        ensures
            97 <= c as int <= 122,
            forall|i: int| 0 <= i < self.planes@.len() ==> (#[trigger] self.planes@[i]).name != c,
            forall|k: int|
                97 <= k < c as int ==> #[trigger] Self::name_in_use(self.planes@, k),
    {
        let mut code: u8 = 97;
        while code <= 122
            invariant
                97 <= code <= 123,
                forall|k: int|
                    97 <= k < code ==> #[trigger] Self::name_in_use(self.planes@, k),
            decreases 123 - code,
        {
            let candidate = code as char;
            if !name_taken(&self.planes, candidate) {
                return candidate;
            }
            proof {
                let i = choose|i: int|
                    0 <= i < self.planes@.len() && (#[trigger] self.planes@[i]).name == candidate;
                assert(self.planes@[i].name as int == code as int);
                assert(Self::name_in_use(self.planes@, code as int));
            }
            code += 1;
        }
        proof {
            let codes = Self::name_codes(self.planes@);
            assert forall|k: int| 97 <= k < 123 implies codes.to_set().contains(k) by {
                assert(Self::name_in_use(self.planes@, k));
                let i = choose|i: int|
                    0 <= i < self.planes@.len() && (#[trigger] self.planes@[i]).name as int == k;
                assert(codes[i] == k);
                assert(codes.contains(k));
            }
            assert(vstd::set_lib::set_int_range(97, 123).subset_of(codes.to_set()));
            vstd::set_lib::lemma_int_range(97, 123);
            codes.lemma_cardinality_of_set();
            vstd::set_lib::lemma_len_subset(vstd::set_lib::set_int_range(97, 123), codes.to_set());
            assert(false);
        }
        vstd::pervasive::unreached()
    }

    /// The name letters of a roster, as integer code points.
    pub open spec fn name_codes(planes: Seq<Plane>) -> Seq<int> {
        planes.map_values(|p: Plane| p.name as int)
    }

    /// Whether some aircraft of the roster bears the letter with code
    /// point `k`.
    pub open spec fn name_in_use(planes: Seq<Plane>, k: int) -> bool {
        exists|i: int| 0 <= i < planes.len() && (#[trigger] planes[i]).name as int == k
    }

    /// A uniformly random entry point: one of the scenario's exits or
    /// airports.
    fn random_airport_or_exit(&self, rng: &mut rand::rngs::ThreadRng) -> (r: LocationId)
        requires
            self.level.wf(),
        ensures
            !(r is Beacon),
            self.level.valid_location(r),
    {
        let total = self.level.exits.len() + self.level.airports.len();
        let idx = rand_below(rng, total);
        if idx < self.level.exits.len() {
            LocationId::Exit(idx)
        } else {
            LocationId::Airport(idx - self.level.exits.len())
        }
    }

    /// The live aircraft with the given name, if any.
    pub fn get_plane_by_name(&self, name: char) -> (r: Option<Plane>)
        ensures
            match r {
                Some(p) => exists|i: int|
                    0 <= i < self.planes@.len() && #[trigger] self.planes@[i] == p && p.name
                        == name,
                None => forall|i: int|
                    0 <= i < self.planes@.len() ==> (#[trigger] self.planes@[i]).name != name,
            },
    {
        let mut i: usize = 0;
        while i < self.planes.len()
            invariant
                0 <= i <= self.planes@.len(),
                forall|k: int| 0 <= k < i ==> (#[trigger] self.planes@[k]).name != name,
            decreases self.planes@.len() - i,
        {
            if self.planes[i].name == name {
                return Some(self.planes[i]);
            }
            i += 1;
        }
        None
    }

    /// Submits a command to the aircraft with the given name, replacing
    /// any pending command of the same kind; reports whether such an
    /// aircraft exists. This is the one mutation allowed between ticks.
    pub fn add_command(&mut self, name: char, command: Command) -> (found: bool)
        requires
            old(self).wf(),
            crate::plane::command_refs_valid(command, old(self).level),
        ensures
            final(self).wf(),
            final(self).level == old(self).level,
            final(self).ticks == old(self).ticks,
            final(self).planes_safe == old(self).planes_safe,
            final(self).planes@.len() == old(self).planes@.len(),
            found <==> exists|i: int|
                0 <= i < old(self).planes@.len() && (#[trigger] old(self).planes@[i]).name == name,
            found ==> exists|i: int|
                0 <= i < old(self).planes@.len() && (#[trigger] old(self).planes@[i]).name == name
                    && final(self).planes@ == old(self).planes@.update(
                    i,
                    old(self).planes@[i].with_command_spec(command),
                ),
            !found ==> *final(self) == *old(self),
    {
        let mut i: usize = 0;
        while i < self.planes.len()
            invariant
                *self == *old(self),
                old(self).wf(),
                crate::plane::command_refs_valid(command, old(self).level),
                0 <= i <= self.planes@.len(),
                forall|k: int| 0 <= k < i ==> (#[trigger] self.planes@[k]).name != name,
            decreases self.planes@.len() - i,
        {
            if self.planes[i].name == name {
                let mut p = self.planes[i];
                p.add_command(command);
                self.planes.set(i, p);
                return true;
            }
            i += 1;
        }
        false
    }
}

/// Whether any aircraft of the roster bears the given name.
fn name_taken(planes: &Vec<Plane>, c: char) -> (r: bool)
    ensures
        r <==> exists|i: int| 0 <= i < planes@.len() && (#[trigger] planes@[i]).name == c,
{
    let mut i: usize = 0;
    while i < planes.len()
        invariant
            0 <= i <= planes@.len(),
            forall|k: int| 0 <= k < i ==> (#[trigger] planes@[k]).name != c,
        decreases planes@.len() - i,
    {
        if planes[i].name == c {
            return true;
        }
        i += 1;
    }
    false
}

} // verus!
