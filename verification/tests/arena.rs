use rocketsim_rs::arena::{car_result, kickoff_seed, Arena, ArenaEngine};
use rocketsim_rs::error::NoCarFound;

/// A car of the test engine: its id and a number that stands for its state.
#[derive(Clone, Copy, Debug, PartialEq)]
struct TestCar {
    id: u32,
    speed: i32,
    demolished: bool,
}

/// An engine that keeps its cars in a list and records what it was asked.
#[derive(Default)]
struct TestEngine {
    cars: Vec<TestCar>,
    controls: Vec<(u32, u8)>,
    pads: Vec<(bool, (i32, i32), bool)>,
    kickoff_seeds: Vec<i32>,
    respawn_seeds: Vec<(u32, i32)>,
}

impl TestEngine {
    fn with_cars(ids: &[u32]) -> TestEngine {
        TestEngine {
            cars: ids.iter().map(|&id| TestCar { id, speed: id as i32 * 10, demolished: false }).collect(),
            ..TestEngine::default()
        }
    }

    fn find(&self, car_id: u32) -> Option<usize> {
        self.cars.iter().position(|c| c.id == car_id)
    }
}

impl ArenaEngine for TestEngine {
    type CarState = TestCar;
    type CarControls = u8;
    type Position = (i32, i32);
    type PadState = bool;

    fn reset_to_random_kickoff(&mut self, seed: i32) {
        self.kickoff_seeds.push(seed);
    }

    fn remove_car(&mut self, car_id: u32) -> bool {
        match self.find(car_id) {
            Some(i) => {
                self.cars.remove(i);
                true
            }
            None => false,
        }
    }

    fn set_car(&mut self, car_id: u32, car_state: TestCar) -> bool {
        match self.find(car_id) {
            Some(i) => {
                self.cars[i] = TestCar { id: car_id, ..car_state };
                true
            }
            None => false,
        }
    }

    fn set_car_controls(&mut self, car_id: u32, car_controls: u8) -> bool {
        match self.find(car_id) {
            Some(_) => {
                self.controls.push((car_id, car_controls));
                true
            }
            None => false,
        }
    }

    fn demolish_car(&mut self, car_id: u32) -> bool {
        match self.find(car_id) {
            Some(i) => {
                self.cars[i].demolished = true;
                true
            }
            None => false,
        }
    }

    fn respawn_car(&mut self, car_id: u32, seed: i32) -> bool {
        match self.find(car_id) {
            Some(i) => {
                self.cars[i].demolished = false;
                self.respawn_seeds.push((car_id, seed));
                true
            }
            None => false,
        }
    }

    fn get_car(&mut self, car_id: u32) -> TestCar {
        let i = self.find(car_id).expect("the test only asks for cars it added");
        self.cars[i]
    }

    fn get_car_states(&mut self) -> Vec<TestCar> {
        self.cars.clone()
    }

    fn get_car_id(&self, index: usize) -> u32 {
        self.cars[index].id
    }

    fn num_pads(&self) -> usize {
        self.pads.len()
    }

    fn get_pad_is_big(&self, index: usize) -> bool {
        self.pads[index].0
    }

    fn get_pad_pos(&self, index: usize) -> (i32, i32) {
        self.pads[index].1
    }

    fn get_pad_state(&self, index: usize) -> bool {
        self.pads[index].2
    }
}

#[test]
fn kickoff_seed_defaults_to_random() {
    assert_eq!(kickoff_seed(None), -1);
    assert_eq!(kickoff_seed(Some(7)), 7);
    assert_eq!(kickoff_seed(Some(-1)), -1);
    assert_eq!(kickoff_seed(Some(i32::MIN)), i32::MIN);
}

#[test]
fn car_result_follows_the_engine() {
    assert_eq!(car_result(4, true), Ok(()));
    assert_eq!(car_result(4, false), Err(NoCarFound(4)));
    assert_eq!(car_result(0, false), Err(NoCarFound(0)));
}

#[test]
fn reset_to_random_kickoff_hands_the_seed_on() {
    let mut arena = Arena::new(TestEngine::default());
    arena.reset_to_random_kickoff(None);
    arena.reset_to_random_kickoff(Some(42));
    assert_eq!(arena.engine.kickoff_seeds, vec![-1, 42]);
}

#[test]
fn remove_car_reports_missing_cars() {
    let mut arena = Arena::new(TestEngine::with_cars(&[1, 2]));
    assert_eq!(arena.remove_car(1), Ok(()));
    assert_eq!(arena.remove_car(1), Err(NoCarFound(1)));
    assert_eq!(arena.remove_car(9), Err(NoCarFound(9)));
    assert_eq!(arena.engine.cars.len(), 1);
    assert_eq!(arena.engine.cars[0].id, 2);
}

#[test]
fn set_car_reports_missing_cars() {
    let mut arena = Arena::new(TestEngine::with_cars(&[3]));
    let state = TestCar { id: 3, speed: 99, demolished: false };
    assert_eq!(arena.set_car(3, state), Ok(()));
    assert_eq!(arena.engine.cars[0].speed, 99);
    assert_eq!(arena.set_car(4, state), Err(NoCarFound(4)));
}

#[test]
fn set_car_controls_reports_missing_cars() {
    let mut arena = Arena::new(TestEngine::with_cars(&[5]));
    assert_eq!(arena.set_car_controls(5, 17), Ok(()));
    assert_eq!(arena.set_car_controls(6, 18), Err(NoCarFound(6)));
    assert_eq!(arena.engine.controls, vec![(5, 17)]);
}

#[test]
fn demolish_and_respawn_car() {
    let mut arena = Arena::new(TestEngine::with_cars(&[1, 2]));
    assert_eq!(arena.demolish_car(2), Ok(()));
    assert!(arena.engine.cars[1].demolished);
    assert_eq!(arena.demolish_car(3), Err(NoCarFound(3)));
    assert_eq!(arena.respawn_car(2, None), Ok(()));
    assert!(!arena.engine.cars[1].demolished);
    assert_eq!(arena.respawn_car(1, Some(12)), Ok(()));
    assert_eq!(arena.respawn_car(8, Some(12)), Err(NoCarFound(8)));
    assert_eq!(arena.engine.respawn_seeds, vec![(2, -1), (1, 12)]);
}

#[test]
fn contacting_car_needs_a_nonzero_id() {
    let mut arena = Arena::new(TestEngine::with_cars(&[1, 2]));
    assert_eq!(arena.contacting_car(0), None);
    let touched = arena.contacting_car(2).expect("car 2 is in the arena");
    assert_eq!(touched.id, 2);
    assert_eq!(touched.speed, 20);
}

#[test]
fn get_cars_pairs_ids_with_states_in_order() {
    let mut arena = Arena::new(TestEngine::with_cars(&[4, 1, 7]));
    let cars = arena.get_cars();
    let ids: Vec<u32> = cars.iter().map(|(id, _)| *id).collect();
    assert_eq!(ids, vec![4, 1, 7]);
    for (id, state) in &cars {
        assert_eq!(state.id, *id);
        assert_eq!(state.speed, *id as i32 * 10);
    }
    let empty = Arena::new(TestEngine::default()).get_cars();
    assert!(empty.is_empty());
}

#[test]
fn label_cars_keeps_the_states_given() {
    let arena = Arena::new(TestEngine::with_cars(&[10, 20]));
    let states = vec![
        TestCar { id: 0, speed: 1, demolished: true },
        TestCar { id: 0, speed: 2, demolished: false },
    ];
    let labelled = arena.label_cars(states.clone());
    assert_eq!(labelled, vec![(10, states[0]), (20, states[1])]);
}

#[test]
fn pads_are_listed_in_order() {
    let mut engine = TestEngine::default();
    engine.pads = vec![(true, (1, 2), false), (false, (3, 4), true), (false, (5, 6), true)];
    let arena = Arena::new(engine);
    assert_eq!(arena.iter_pad_static(), vec![((1, 2), true), ((3, 4), false), ((5, 6), false)]);
    assert_eq!(arena.iter_pad_state(), vec![false, true, true]);
    assert_eq!(arena.pad_static(1), vec![((1, 2), true)]);
    assert_eq!(arena.pad_states(0), Vec::<bool>::new());
}
