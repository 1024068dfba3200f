use dubins_paths::f64::{DubinsPath, PosRot};
use geo::{Contains, Intersects, LineString, Polygon};
use path_planning::config::SpaceConf;
use path_planning::path::join_curves;
use path_planning::planner::{PlanError, Planner, Status, Trial};
use rand::rngs::StdRng;
use rand::{Rng, SeedableRng};

type Pose = (f64, f64, f64);

fn polygon(ring: &[(f64, f64)]) -> Polygon<f64> {
    Polygon::new(LineString::from(ring.to_vec()), vec![])
}

fn square() -> Vec<(f64, f64)> {
    vec![(0.0, 0.0), (10.0, 0.0), (10.0, 10.0), (0.0, 10.0)]
}

fn wall() -> Vec<(f64, f64)> {
    vec![(4.0, 0.0), (6.0, 0.0), (6.0, 10.0), (4.0, 10.0)]
}

struct World {
    bounds: Polygon<f64>,
    obstacles: Vec<Polygon<f64>>,
    width: f64,
    height: f64,
    radius: f64,
}

impl World {
    fn new(space: &SpaceConf<(f64, f64)>, width: f64, height: f64, radius: f64) -> World {
        World {
            bounds: polygon(&space.bounds),
            obstacles: space.obstacles.iter().map(|o| polygon(o)).collect(),
            width,
            height,
            radius,
        }
    }

    fn clear_at(&self, p: PosRot) -> bool {
        let (c, s) = (p.rot().cos(), p.rot().sin());
        let (hw, hh) = (self.width / 2.0, self.height / 2.0);
        let corners: Vec<(f64, f64)> = [(hw, hh), (-hw, hh), (-hw, -hh), (hw, -hh)]
            .iter()
            .map(|&(a, b)| (p.x() + a * c - b * s, p.y() + a * s + b * c))
            .collect();
        let f = polygon(&corners);
        self.bounds.contains(&f) && !self.obstacles.iter().any(|o| o.intersects(&f))
    }

    fn clear_curve(&self, from: Pose, to: Pose) -> Option<Vec<(f64, f64)>> {
        let q0 = PosRot::from_floats(from.0, from.1, from.2);
        let q1 = PosRot::from_floats(to.0, to.1, to.2);
        let path = DubinsPath::shortest_from(q0, q1, self.radius).ok()?;
        let samples = path.sample_many(0.1);
        if samples.iter().all(|&p| self.clear_at(p)) {
            Some(samples.iter().map(|p| (p.x(), p.y())).collect())
        } else {
            None
        }
    }
}

fn run(
    space: &SpaceConf<(f64, f64)>,
    start: Pose,
    goal: Pose,
    max_iter: usize,
    seed: u64,
) -> (Vec<usize>, Result<Vec<(f64, f64)>, PlanError>) {
    space.check().unwrap();
    let world = World::new(space, 0.5, 0.3, 1.0);
    let mut rng = StdRng::seed_from_u64(seed);
    let mut planner = Planner::new(start, max_iter).unwrap();
    let mut goal_curve = Vec::new();
    let mut growth = Vec::new();
    while planner.status() == Status::Searching {
        let sample: Pose = (
            rng.gen_range(0.0..10.0),
            rng.gen_range(0.0..10.0),
            rng.gen_range(-3.14..3.14),
        );
        let tree = planner.tree();
        let keys: Vec<u64> = (0..tree.len())
            .map(|i| {
                let p = tree.node(i).pose;
                ((p.0 - sample.0).powi(2) + (p.1 - sample.1).powi(2)).to_bits()
            })
            .collect();
        let parent = tree.nearest(&keys);
        let edge_clear = world.clear_curve(tree.node(parent).pose, sample).is_some();
        let to_goal = if edge_clear { world.clear_curve(sample, goal) } else { None };
        let goal_clear = to_goal.is_some();
        planner.step(Trial { parent, pose: sample, edge_clear, goal_clear });
        if let Some(c) = to_goal {
            goal_curve = c;
        }
        growth.push(planner.tree().len());
    }
    assert!(planner.iterations() <= max_iter);
    let nodes = match planner.outcome() {
        Ok(nodes) => nodes,
        Err(e) => return (growth, Err(e)),
    };
    let tree = planner.tree();
    let mut curves: Vec<Vec<(f64, f64)>> = nodes
        .windows(2)
        .map(|w| world.clear_curve(tree.node(w[0]).pose, tree.node(w[1]).pose).unwrap())
        .collect();
    curves.push(goal_curve);
    (growth, Ok(join_curves((start.0, start.1), &curves)))
}

fn close(a: (f64, f64), b: (f64, f64)) -> bool {
    (a.0 - b.0).abs() < 1e-6 && (a.1 - b.1).abs() < 1e-6
}

#[test]
fn open_square_reaches_goal() {
    let space = SpaceConf::new(square(), vec![]);
    let (_, r) = run(&space, (1.0, 1.0, 0.0), (9.0, 9.0, 0.0), 200, 7);
    let path = r.unwrap();
    assert!(close(path[0], (1.0, 1.0)));
    assert!(close(*path.last().unwrap(), (9.0, 9.0)));
}

#[test]
fn full_height_wall_exhausts_the_budget() {
    let space = SpaceConf::new(square(), vec![wall()]);
    let (growth, r) = run(&space, (1.0, 5.0, 0.0), (9.0, 5.0, 0.0), 60, 7);
    assert_eq!(r, Err(PlanError::PlanningExhausted));
    assert_eq!(growth.len(), 60);
}

#[test]
fn small_budget_on_open_square_always_succeeds() {
    let space = SpaceConf::new(square(), vec![]);
    for seed in 0..5 {
        let (growth, r) = run(&space, (1.0, 1.0, 0.0), (9.0, 9.0, 0.0), 50, seed);
        assert!(growth.len() <= 50);
        assert!(r.is_ok());
    }
}

#[test]
fn seeded_runs_repeat_exactly() {
    let space = SpaceConf::new(square(), vec![]);
    let a = run(&space, (1.0, 1.0, 0.0), (9.0, 9.0, 0.0), 50, 11);
    let b = run(&space, (1.0, 1.0, 0.0), (9.0, 9.0, 0.0), 50, 11);
    assert_eq!(a, b);
}

#[test]
fn blocked_and_clear_curves_are_told_apart() {
    let space = SpaceConf::new(square(), vec![vec![(4.0, 4.0), (6.0, 4.0), (6.0, 6.0), (4.0, 6.0)]]);
    let world = World::new(&space, 0.5, 0.3, 1.0);
    assert!(world.clear_curve((1.0, 5.0, 0.0), (9.0, 5.0, 0.0)).is_none());
    assert!(world.clear_curve((1.0, 2.0, 0.0), (9.0, 2.0, 0.0)).is_some());
}

#[test]
fn shortest_curve_is_no_longer_than_any_primitive() {
    let pairs: [(Pose, Pose); 3] = [
        ((1.0, 1.0, 0.0), (9.0, 9.0, 0.0)),
        ((2.0, 3.0, 1.0), (2.5, 3.5, -2.0)),
        ((5.0, 5.0, 3.0), (1.0, 8.0, 0.5)),
    ];
    for (a, b) in pairs.iter() {
        let q0 = PosRot::from_floats(a.0, a.1, a.2);
        let q1 = PosRot::from_floats(b.0, b.1, b.2);
        let best = DubinsPath::shortest_from(q0, q1, 1.0).unwrap().length();
        for t in dubins_paths::PathType::ALL.iter() {
            if let Ok(p) = DubinsPath::new(q0, q1, 1.0, *t) {
                assert!(best <= p.length() + 1e-9);
            }
        }
    }
}

#[test]
fn sampled_curve_starts_and_ends_at_its_poses() {
    let q0 = PosRot::from_floats(1.0, 1.0, 0.0);
    let q1 = PosRot::from_floats(9.0, 9.0, 0.0);
    let samples = DubinsPath::shortest_from(q0, q1, 1.0).unwrap().sample_many(0.1);
    let first = samples[0];
    let last = *samples.last().unwrap();
    assert!(close((first.x(), first.y()), (1.0, 1.0)));
    assert!(close((last.x(), last.y()), (9.0, 9.0)));
}
