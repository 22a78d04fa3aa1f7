use vstd::prelude::*;

use crate::error::{decimal_value, message_identifies_car, message_prefix, message_text, NoCarFound};

verus! {

/// A call that changes an engine (or, for the car queries that the engine
/// answers through a mutable borrow, that asks it), with the engine's answer.
pub enum EngineCall<E: ArenaEngine> {
    ResetToRandomKickoff { seed: i32 },
    RemoveCar { car_id: u32, found: bool },
    SetCar { car_id: u32, car_state: E::CarState, found: bool },
    SetCarControls { car_id: u32, car_controls: E::CarControls, found: bool },
    DemolishCar { car_id: u32, found: bool },
    RespawnCar { car_id: u32, seed: i32, found: bool },
    GetCar { car_id: u32, car_state: E::CarState },
    GetCarStates { car_states: Vec<E::CarState> },
}

/// The simulation engine behind an [`Arena`]: the calls that the physics
/// engine answers.
///
/// The engine owns the cars, the ball and the boost pads and computes every
/// step of the simulation; the arena decides what to ask it and what its
/// answers mean.
///
/// What every implementation is trusted to keep (nothing checks an
/// implementation outside this crate against it):
/// - `history` is the sequence of the calls made through this trait's methods
///   that take a mutable borrow, in order, each with the arguments it was handed and the answer it gave; each
///   such call adds exactly its own entry.
/// - the queries through a shared borrow (`get_car_id`, `num_pads`,
///   `get_pad_is_big`, `get_pad_pos`, `get_pad_state`) answer what the
///   engine's current state holds (`car_id_at`, `pad_count`, `pad_is_big_at`,
///   `pad_pos_at`, `pad_state_at`), and pads are only read below `pad_count`.
/// Nothing is said of what the answers are, nor of how the simulated world
/// changes.
///
/// The spec functions that describe an engine (`history`, `car_id_at`,
/// `pad_count`, ...) are defined by each implementation; their default bodies
/// say nothing (an arbitrary value) and only let implementations written
/// outside Verus leave them out.
pub trait ArenaEngine: Sized {
    /// The full state of one car.
    type CarState;

    /// The controls that drive one car.
    type CarControls;

    /// A position in the arena.
    type Position;

    /// The changing state of one boost pad.
    type PadState;

    /// The calls made through a mutable borrow so far, with their answers.
    closed spec fn history(&self) -> Seq<EngineCall<Self>> {
        arbitrary()
    }

    /// The id of the car at `index` in the engine's order.
    closed spec fn car_id_at(&self, index: usize) -> u32 {
        arbitrary()
    }

    /// The number of boost pads.
    closed spec fn pad_count(&self) -> usize {
        arbitrary()
    }

    /// Whether the boost pad at `index` is a big one.
    closed spec fn pad_is_big_at(&self, index: usize) -> bool {
        arbitrary()
    }

    /// The position of the boost pad at `index`.
    closed spec fn pad_pos_at(&self, index: usize) -> Self::Position {
        arbitrary()
    }

    /// The changing state of the boost pad at `index`.
    closed spec fn pad_state_at(&self, index: usize) -> Self::PadState {
        arbitrary()
    }

    /// Puts the ball and the cars at a kickoff chosen by `seed` (`-1`: at random).
    fn reset_to_random_kickoff(&mut self, seed: i32)
        ensures
            final(self).history() == old(self).history().push(
                EngineCall::ResetToRandomKickoff { seed },
            ),
    ;

    /// Removes the car `car_id`; `true` when the engine held that car.
    fn remove_car(&mut self, car_id: u32) -> (found: bool)
        ensures
            final(self).history() == old(self).history().push(
                EngineCall::RemoveCar { car_id, found },
            ),
    ;

    /// Overwrites the state of the car `car_id`; `true` when the engine held that car.
    fn set_car(&mut self, car_id: u32, car_state: Self::CarState) -> (found: bool)
        ensures
            final(self).history() == old(self).history().push(
                EngineCall::SetCar { car_id, car_state, found },
            ),
    ;

    /// Sets the controls of the car `car_id`; `true` when the engine held that car.
    fn set_car_controls(&mut self, car_id: u32, car_controls: Self::CarControls) -> (found: bool)
        ensures
            final(self).history() == old(self).history().push(
                EngineCall::SetCarControls { car_id, car_controls, found },
            ),
    ;

    /// Demolishes the car `car_id`; `true` when the engine held that car.
    fn demolish_car(&mut self, car_id: u32) -> (found: bool)
        ensures
            final(self).history() == old(self).history().push(
                EngineCall::DemolishCar { car_id, found },
            ),
    ;

    /// Respawns the car `car_id` at a spawn point chosen by `seed` (`-1`: at
    /// random); `true` when the engine held that car.
    fn respawn_car(&mut self, car_id: u32, seed: i32) -> (found: bool)
        ensures
            final(self).history() == old(self).history().push(
                EngineCall::RespawnCar { car_id, seed, found },
            ),
    ;

    /// The state of the car `car_id`.
    fn get_car(&mut self, car_id: u32) -> (car_state: Self::CarState)
        ensures
            final(self).history() == old(self).history().push(
                EngineCall::GetCar { car_id, car_state },
            ),
    ;

    /// The states of all cars, in the engine's order.
    fn get_car_states(&mut self) -> (car_states: Vec<Self::CarState>)
        ensures
            final(self).history() == old(self).history().push(
                EngineCall::GetCarStates { car_states },
            ),
    ;

    /// The id of the car at `index` in the engine's order.
    fn get_car_id(&self, index: usize) -> (car_id: u32)
        ensures
            car_id == self.car_id_at(index),
    ;

    /// The number of boost pads.
    fn num_pads(&self) -> (count: usize)
        ensures
            count == self.pad_count(),
    ;

    /// Whether the boost pad at `index` is a big one.
    fn get_pad_is_big(&self, index: usize) -> (is_big: bool)
        requires
            index < self.pad_count(),
        ensures
            is_big == self.pad_is_big_at(index),
    ;

    /// The position of the boost pad at `index`.
    fn get_pad_pos(&self, index: usize) -> (pos: Self::Position)
        requires
            index < self.pad_count(),
        ensures
            pos == self.pad_pos_at(index),
    ;

    /// The changing state of the boost pad at `index`.
    fn get_pad_state(&self, index: usize) -> (state: Self::PadState)
        requires
            index < self.pad_count(),
        ensures
            state == self.pad_state_at(index),
    ;
}

/// The seed handed to the engine for an optional seed: the seed itself, or
/// `-1` (choose at random) when there is none.
pub open spec fn spec_kickoff_seed(seed: Option<i32>) -> i32 {
    match seed {
        Some(s) => s,
        None => -1i32,
    }
}

/// The seed handed to the engine for an optional seed: the seed itself, or
/// `-1` (choose at random) when there is none.
pub fn kickoff_seed(seed: Option<i32>) -> (s: i32)
    ensures
        s == spec_kickoff_seed(seed),
        seed matches Some(v) ==> s == v,
        seed is None ==> s == -1,
{
    match seed {
        Some(s) => s,
        None => -1,
    }
}

/// What an operation on the car `car_id` answers, given whether the engine
/// found that car: success when it did, and otherwise the error that names
/// `car_id`.
pub fn car_result(car_id: u32, found: bool) -> (r: Result<(), NoCarFound>)
    ensures
        r == spec_car_result(car_id, found),
{
    if found {
        Ok(())
    } else {
        Err(NoCarFound(car_id))
    }
}

/// A car operation that fails tells which car was missing: the message of its
/// error reads back as the id that the operation was asked about.
pub proof fn failed_operation_names_car(car_id: u32, r: Result<(), NoCarFound>)
    requires
        r matches Err(e) ==> e == NoCarFound(car_id),
        r is Err,
    ensures
        decimal_value(
            message_text(r->Err_0.0).subrange(
                message_prefix().len() as int,
                message_text(r->Err_0.0).len() - 1,
            ),
        ) == car_id,
{
    message_identifies_car(r->Err_0.0, car_id);
}

/// Whether a car in contact with another car names it: a contact id of `0`
/// names no car.
pub open spec fn names_a_car(other_car_id: u32) -> bool {
    other_car_id != 0
}

/// An explicit seed is handed to the engine as it is, whatever its value
/// (`0` included), so the kickoff or spawn point it picks can be reproduced;
/// only the absence of a seed becomes `-1`, the engine's "at random".
pub proof fn explicit_seed_is_kept()
    ensures
        forall|s: i32| #[trigger] spec_kickoff_seed(Some(s)) == s,
        spec_kickoff_seed(None) == -1,
{
}

/// A contact id names a car exactly when it is not `0`: every nonzero id
/// (the first car's id `1` included) is looked up, and only `0` means "no
/// contact".
pub proof fn nonzero_contact_names_a_car()
    ensures
        forall|id: u32| #[trigger] names_a_car(id) <==> id != 0,
        !names_a_car(0),
        names_a_car(1),
{
}

/// An explicit seed of `-1` asks for the same kickoff or spawn point as no
/// seed: the engine is handed the same value, so the arena makes the same call.
pub proof fn seed_minus_one_is_random()
    ensures
        spec_kickoff_seed(Some(-1i32)) == spec_kickoff_seed(None),
{
}

/// What an operation on the car `car_id` answers when the engine reports
/// `found`.
pub open spec fn spec_car_result(car_id: u32, found: bool) -> Result<(), NoCarFound> {
    if found {
        Ok(())
    } else {
        Err(NoCarFound(car_id))
    }
}

/// Whether `after` is `before` with one more call, `call`.
pub open spec fn one_call<E: ArenaEngine>(before: E, after: E, call: EngineCall<E>) -> bool {
    after.history() == before.history().push(call)
}

/// An arena: the engine that simulates one match, seen through calls that
/// check what the engine reports.
pub struct Arena<E: ArenaEngine> {
    pub engine: E,
}

impl<E: ArenaEngine> Arena<E> {
    /// An arena driven by `engine`.
    pub fn new(engine: E) -> (arena: Self)
        ensures
            arena.engine == engine,
    {
        Arena { engine }
    }

    /// Resets the ball and the cars to a kickoff chosen by `seed`; with no
    /// seed the engine chooses at random (it is handed `-1`).
    pub fn reset_to_random_kickoff(&mut self, seed: Option<i32>)
        ensures
            one_call(
                old(self).engine,
                final(self).engine,
                EngineCall::ResetToRandomKickoff { seed: spec_kickoff_seed(seed) },
            ),
    {
        let s = kickoff_seed(seed);
        self.engine.reset_to_random_kickoff(s);
    }

    /// Removes the car `car_id`; the error names `car_id` when the arena
    /// holds no such car.
    pub fn remove_car(&mut self, car_id: u32) -> (r: Result<(), NoCarFound>)
        ensures
            one_call(
                old(self).engine,
                final(self).engine,
                EngineCall::RemoveCar { car_id, found: r is Ok },
            ),
            r matches Err(e) ==> e == NoCarFound(car_id),
    {
        let found = self.engine.remove_car(car_id);
        car_result(car_id, found)
    }

    /// Overwrites the state of the car `car_id`; the error names `car_id`
    /// when the arena holds no such car.
    pub fn set_car(&mut self, car_id: u32, car_state: E::CarState) -> (r: Result<(), NoCarFound>)
        ensures
            one_call(
                old(self).engine,
                final(self).engine,
                EngineCall::SetCar { car_id, car_state, found: r is Ok },
            ),
            r matches Err(e) ==> e == NoCarFound(car_id),
    {
        let found = self.engine.set_car(car_id, car_state);
        car_result(car_id, found)
    }

    /// Sets the controls of the car `car_id`; the error names `car_id` when
    /// the arena holds no such car.
    pub fn set_car_controls(&mut self, car_id: u32, car_controls: E::CarControls) -> (r: Result<
        (),
        NoCarFound,
    >)
        ensures
            one_call(
                old(self).engine,
                final(self).engine,
                EngineCall::SetCarControls { car_id, car_controls, found: r is Ok },
            ),
            r matches Err(e) ==> e == NoCarFound(car_id),
    {
        let found = self.engine.set_car_controls(car_id, car_controls);
        car_result(car_id, found)
    }

    /// Demolishes the car `car_id`; the error names `car_id` when the arena
    /// holds no such car.
    pub fn demolish_car(&mut self, car_id: u32) -> (r: Result<(), NoCarFound>)
        ensures
            one_call(
                old(self).engine,
                final(self).engine,
                EngineCall::DemolishCar { car_id, found: r is Ok },
            ),
            r matches Err(e) ==> e == NoCarFound(car_id),
    {
        let found = self.engine.demolish_car(car_id);
        car_result(car_id, found)
    }

    /// Respawns the car `car_id` at a spawn point chosen by `seed` (with no
    /// seed, at random); the error names `car_id` when the arena holds no such
    /// car.
    pub fn respawn_car(&mut self, car_id: u32, seed: Option<i32>) -> (r: Result<(), NoCarFound>)
        ensures
            one_call(
                old(self).engine,
                final(self).engine,
                EngineCall::RespawnCar { car_id, seed: spec_kickoff_seed(seed), found: r is Ok },
            ),
            r matches Err(e) ==> e == NoCarFound(car_id),
    {
        let s = kickoff_seed(seed);
        let found = self.engine.respawn_car(car_id, s);
        car_result(car_id, found)
    }

    /// The car that a car touches, given the contact id it records: none when
    /// that id is `0` (and the engine is left alone), and otherwise the state
    /// that the engine gives for the car with that id.
    pub fn contacting_car(&mut self, other_car_id: u32) -> (r: Option<E::CarState>)
        ensures
            r is Some <==> names_a_car(other_car_id),
            r is Some <==> other_car_id != 0,
            !names_a_car(other_car_id) ==> final(self).engine == old(self).engine,
            other_car_id == 0 ==> final(self).engine == old(self).engine,
            r matches Some(car_state) ==> one_call(
                old(self).engine,
                final(self).engine,
                EngineCall::GetCar { car_id: other_car_id, car_state },
            ),
    {
        if other_car_id != 0 {
            Some(self.engine.get_car(other_car_id))
        } else {
            None
        }
    }

    /// Pairs each car state with the id of the car at its index, keeping the
    /// states and their order.
    pub fn label_cars(&self, states: Vec<E::CarState>) -> (r: Vec<(u32, E::CarState)>)
        ensures
            r.len() == states.len(),
            forall|i: int|
                0 <= i < r.len() ==> #[trigger] r[i] == (self.engine.car_id_at(i as usize), states[i]),
    {
        let ghost all = states@;
        let n: usize = states.len();
        let mut rest = states;
        let mut r: Vec<(u32, E::CarState)> = Vec::new();
        let mut i: usize = 0;
        while i < n
            invariant
                n == all.len(),
                i <= n,
                rest@ == all.subrange(i as int, n as int),
                r.len() == i,
                forall|j: int|
                    0 <= j < i ==> #[trigger] r[j] == (self.engine.car_id_at(j as usize), all[j]),
            decreases n - i,
        {
            let s = rest.remove(0);
            let id = self.engine.get_car_id(i);
            r.push((id, s));
            i = i + 1;
            assert(rest@ =~= all.subrange(i as int, n as int));
        }
        r
    }

    /// All cars of the arena with their ids: `(id, state)` for each car, in
    /// the engine's order; the engine is asked once for the states.
    pub fn get_cars(&mut self) -> (r: Vec<(u32, E::CarState)>)
        ensures
            final(self).engine.history().drop_last() == old(self).engine.history(),
            final(self).engine.history().len() == old(self).engine.history().len() + 1,
            final(self).engine.history().last() matches EngineCall::GetCarStates { car_states }
                && r.len() == car_states.len() && forall|i: int|
                0 <= i < r.len() ==> #[trigger] r[i] == (
                    final(self).engine.car_id_at(i as usize),
                    car_states[i],
                ),
    {
        let states = self.engine.get_car_states();
        let ghost h = self.engine.history();
        assert(h.drop_last() =~= old(self).engine.history());
        self.label_cars(states)
    }

    /// The fixed information of the first `count` boost pads: `(position,
    /// is_big)` for pad `0`, `1`, ... in order.
    pub fn pad_static(&self, count: usize) -> (r: Vec<(E::Position, bool)>)
        requires
            count <= self.engine.pad_count(),
        ensures
            r.len() == count,
            forall|i: int|
                0 <= i < r.len() ==> #[trigger] r[i] == (
                    self.engine.pad_pos_at(i as usize),
                    self.engine.pad_is_big_at(i as usize),
                ),
    {
        let mut r: Vec<(E::Position, bool)> = Vec::new();
        let mut i: usize = 0;
        while i < count
            invariant
                i <= count,
                count <= self.engine.pad_count(),
                r.len() == i,
                forall|j: int|
                    0 <= j < i ==> #[trigger] r[j] == (
                        self.engine.pad_pos_at(j as usize),
                        self.engine.pad_is_big_at(j as usize),
                    ),
            decreases count - i,
        {
            let pos = self.engine.get_pad_pos(i);
            let is_big = self.engine.get_pad_is_big(i);
            r.push((pos, is_big));
            i = i + 1;
        }
        r
    }

    /// The fixed `(position, is_big)` information of every boost pad, pad by
    /// pad in order.
    pub fn iter_pad_static(&self) -> (r: Vec<(E::Position, bool)>)
        ensures
            r.len() == self.engine.pad_count(),
            forall|i: int|
                0 <= i < r.len() ==> #[trigger] r[i] == (
                    self.engine.pad_pos_at(i as usize),
                    self.engine.pad_is_big_at(i as usize),
                ),
    {
        let count = self.engine.num_pads();
        self.pad_static(count)
    }

    /// The changing state of the first `count` boost pads, in order.
    pub fn pad_states(&self, count: usize) -> (r: Vec<E::PadState>)
        requires
            count <= self.engine.pad_count(),
        ensures
            r.len() == count,
            forall|i: int| 0 <= i < r.len() ==> #[trigger] r[i] == self.engine.pad_state_at(i as usize),
    {
        let mut r: Vec<E::PadState> = Vec::new();
        let mut i: usize = 0;
        while i < count
            invariant
                i <= count,
                count <= self.engine.pad_count(),
                r.len() == i,
                forall|j: int| 0 <= j < i ==> #[trigger] r[j] == self.engine.pad_state_at(j as usize),
            decreases count - i,
        {
            r.push(self.engine.get_pad_state(i));
            i = i + 1;
        }
        r
    }

    /// The changing state of every boost pad, in order.
    pub fn iter_pad_state(&self) -> (r: Vec<E::PadState>)
        ensures
            r.len() == self.engine.pad_count(),
            forall|i: int| 0 <= i < r.len() ==> #[trigger] r[i] == self.engine.pad_state_at(i as usize),
    {
        let count = self.engine.num_pads();
        self.pad_states(count)
    }
}

} // verus!
