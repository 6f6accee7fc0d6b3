use crage::bodies::{
    getbody, num_bodies, ACCELERATION, DOME_RADIUS, G, PLAYER_RADIUS, SPAWN_PULL_MAX,
};
use crage::trajectory::{
    Motion, Trajectory, UpdateType, UpdateTypeWrapper, Vector, MAX_TIME_AHEAD, MAX_TIME_BEFORE,
    TIMESTEP_MILLIS,
};
use crage::codec::CheckpointError;
use rand::Rng;
use rand_distr::{Distribution, Normal};
use std::f32::consts::PI;
use std::hash::{Hash, Hasher};
use std::time::{Duration, Instant};

const TIMESTEP_SECS: f32 = 0.1;

fn unbits(bits: u32) -> f32 {
    f32::from_bits(bits)
}

fn pull_sum(x: f32, y: f32) -> (f32, f32) {
    let mut pull = (0.0f32, 0.0f32);
    for index in 0..num_bodies() {
        let body = getbody(index).unwrap();
        let xdiff = unbits(body.pos.x) - x;
        let ydiff = unbits(body.pos.y) - y;
        let powsum = xdiff.powi(2) + ydiff.powi(2);
        let mass = unbits(body.radius) * unbits(body.radius) * PI;
        let mag = unbits(G) * mass / powsum;
        let dist = powsum.sqrt();
        pull.0 += mag * xdiff / dist;
        pull.1 += mag * ydiff / dist;
    }
    pull.0 *= TIMESTEP_SECS;
    pull.1 *= TIMESTEP_SECS;
    pull
}

fn collides(x: f32, y: f32) -> bool {
    for index in 0..num_bodies() {
        let body = getbody(index).unwrap();
        let reach = (unbits(body.radius) + unbits(PLAYER_RADIUS)).powi(2);
        if reach > (x - unbits(body.pos.x)).powi(2) + (y - unbits(body.pos.y)).powi(2) {
            return true;
        }
    }
    false
}

fn normalize_angle(x: f32) -> f32 {
    let twopi = 2f32 * PI;
    let modded = ((x % twopi) + twopi) % twopi;
    PI - modded
}

fn physics(t: &Trajectory) -> Motion {
    let mut pos = (unbits(t.pos.x), unbits(t.pos.y));
    let mut vel = (unbits(t.vel.x), unbits(t.vel.y));
    let mut spin = unbits(t.spin);
    let next = (pos.0 + vel.0 * TIMESTEP_SECS, pos.1 + vel.1 * TIMESTEP_SECS);
    if next.0.powi(2) + next.1.powi(2) > unbits(DOME_RADIUS).powi(2) {
        let mag = (pos.0.powi(2) + pos.1.powi(2)).sqrt();
        let normal = (pos.0 / mag, pos.1 / mag);
        let dot = vel.0 * normal.0 + vel.1 * normal.1;
        vel.0 -= 2.0 * dot * normal.0;
        vel.1 -= 2.0 * dot * normal.1;
        vel.0 *= 0.5;
        vel.1 *= 0.5;
    } else {
        pos = next;
    }
    let pull = pull_sum(pos.0, pos.1);
    vel.0 += pull.0;
    vel.1 += pull.1;
    spin += (t.spin_direction as f32) * PI * TIMESTEP_SECS;
    let magnitude = unbits(ACCELERATION) * TIMESTEP_SECS * (t.boosters as f32);
    if t.propelling {
        let angle = normalize_angle(spin + -PI / 2f32);
        vel.0 += -fastapprox::faster::cos(angle) * magnitude;
        vel.1 += fastapprox::faster::sin(angle) * magnitude;
    }
    Motion {
        pos: Vector { x: pos.0.to_bits(), y: pos.1.to_bits() },
        vel: Vector { x: vel.0.to_bits(), y: vel.1.to_bits() },
        spin: spin.to_bits(),
        collides: collides(pos.0, pos.1),
    }
}

fn gen_spawn() -> Vector {
    let normal = Normal::new(unbits(DOME_RADIUS) / 4.0, unbits(DOME_RADIUS) / 4.0).unwrap();
    loop {
        let x: f32 = normal.sample(&mut rand::thread_rng());
        let y: f32 = normal.sample(&mut rand::thread_rng());
        let psum = pull_sum(x, y);
        if psum.0.powf(2.0) + psum.1.powf(2.0) < unbits(SPAWN_PULL_MAX).powf(2.0)
            && (x.powi(2) + y.powi(2)).sqrt() < unbits(DOME_RADIUS)
        {
            return Vector { x: x.to_bits(), y: y.to_bits() };
        }
    }
}

fn at(x: f32, y: f32, vx: f32, vy: f32) -> Trajectory {
    let mut t = Trajectory::spawn(Vector { x: x.to_bits(), y: y.to_bits() }, 0);
    t.vel = Vector { x: vx.to_bits(), y: vy.to_bits() };
    t
}

#[test]
fn test_some_function() {
    let mut rng = rand::thread_rng();
    let started = Instant::now();
    let budget = Duration::from_secs(8);

    const RUNS: u32 = 10000000;
    const NUM_TESTS: i32 = 50;
    for _ in 1..NUM_TESTS {
        let mut example = Trajectory::spawn(gen_spawn(), 1_700_000_000_000);
        example.propelling = rng.gen::<u8>() > 128;
        example.spin = rng.gen_range(-100f32..100f32).to_bits();
        example.spin_direction = rng.gen_range(-1..2);
        example.vel.x = rng.gen_range(-20f32..20f32).to_bits();
        example.vel.y = rng.gen_range(-20f32..20f32).to_bits();
        println!(
            "	let mut testing = Trajectory::from_b64(\"{}\".to_string());",
            example.to_b64()
        );
        println!("	for _ in 1..{} {{", RUNS);
        println!("		testing.step();");
        println!("	}}");
        let mut complete = true;
        for run in 1..RUNS {
            // a dead trajectory is frozen: the steps that remain change nothing
            if !example.step(&physics) {
                break;
            }
            if run % 65536 == 0 && started.elapsed() > budget {
                complete = false;
                break;
            }
        }
        if !complete {
            println!("	// out of time after {:?}", started.elapsed());
            break;
        }
        println!(
            "	assert_eq!(testing.hash_str(), \"{}\");",
            example.hash_str()
        );
    }
    assert_eq!(1 + 1, 2);
}

#[test]
fn hundred_steps_take_ten_seconds() {
    let mut t = at(0.0, -3000.0, 10.0, 0.0);
    let mut twin = t;
    for _ in 0..100 {
        assert!(t.step(&physics));
    }
    assert_eq!(t.time, 100 * TIMESTEP_MILLIS);
    assert_eq!(t.time, 10000);
    assert_eq!(t.health, 255);
    assert!((unbits(t.pos.x) - 744.3411).abs() < 0.001, "pos.x = {}", unbits(t.pos.x));
    assert!((unbits(t.pos.y) + 593.8885).abs() < 0.001, "pos.y = {}", unbits(t.pos.y));
    assert_eq!(t.hash_str(), "d5b1d8f5f596a459");
    assert!(twin.advance(10000, &physics));
    assert_eq!(twin, t);
    assert_eq!(twin.hash_str(), t.hash_str());
}

#[test]
fn hundred_steps_from_the_origin() {
    // the pull of the nearest body wins within four seconds
    let mut t = at(0.0, 0.0, 10.0, 0.0);
    assert_eq!(t.health, 255);
    assert!(!t.propelling);
    assert_eq!(t.spin_direction, 0);
    let mut twin = t;
    let mut taken = 0;
    for _ in 0..100 {
        if t.step(&physics) {
            taken += 1;
        }
    }
    assert_eq!(taken, 39);
    assert_eq!(t.time, 3900);
    assert_eq!(t.health, 0);
    assert_eq!(t.hash_str(), "85223c43ae736df0");
    assert!(!twin.advance(10000, &physics));
    assert_eq!(twin, t);
}

#[test]
fn dead_trajectory_is_frozen() {
    let mut t = at(10.0, 20.0, 3.0, 4.0);
    t.health = 0;
    let before = t;
    for _ in 0..10 {
        assert!(!t.step(&physics));
        assert_eq!(t, before);
    }
    assert!(!t.advance(5000, &physics));
    assert_eq!(t, before);
}

#[test]
fn collision_kills_on_the_next_step() {
    let body = getbody(1).unwrap();
    let mut t = at(unbits(body.pos.x) + 30.0, unbits(body.pos.y), 0.0, 0.0);
    assert!(t.step(&physics));
    assert_eq!(t.health, 0);
    assert_eq!(t.time, 100);
    assert!(!t.step(&physics));
}

#[test]
fn advance_truncates_partial_steps() {
    let mut t = at(0.0, 0.0, 1.0, 0.0);
    assert!(t.advance(250, &physics));
    assert_eq!(t.time, 200);
    assert!(t.advance(299, &physics));
    assert_eq!(t.time, 200);
    assert!(!t.advance(200, &physics));
    assert!(!t.advance(100, &physics));
    assert_eq!(t.time, 200);
}

#[test]
fn apply_change_variants() {
    let mut t = at(0.0, 0.0, 0.0, 0.0);
    t.apply_change(UpdateTypeWrapper::new(UpdateType::RotCw, None));
    assert_eq!(t.spin_direction, 1);
    t.apply_change(UpdateTypeWrapper::new(UpdateType::RotCcw, None));
    assert_eq!(t.spin_direction, -1);
    t.apply_change(UpdateTypeWrapper::new(UpdateType::RotStop, None));
    assert_eq!(t.spin_direction, 0);
    t.apply_change(UpdateTypeWrapper::new(UpdateType::PropOn, None));
    assert!(t.propelling);
    t.apply_change(UpdateTypeWrapper::new(UpdateType::PropOff, None));
    assert!(!t.propelling);
    t.apply_change(UpdateTypeWrapper::new(UpdateType::AddBoost, None));
    assert_eq!(t.boosters, 2);
    t.apply_change(UpdateTypeWrapper::new(UpdateType::Bullet, Some(25)));
    assert_eq!(t.health, 230);
    t.apply_change(UpdateTypeWrapper::new(UpdateType::Health, Some(30)));
    assert_eq!(t.health, 255);
    t.apply_change(UpdateTypeWrapper::new(UpdateType::Bullet, None));
    assert_eq!(t.health, 255);
    t.health = 10;
    t.apply_change(UpdateTypeWrapper::new(UpdateType::Bullet, Some(25)));
    assert_eq!(t.health, 0);
}

#[test]
fn hash_is_the_default_hasher_digest() {
    let mut t = at(1.5, -2.25, 10.0, 0.0);
    t.spin = 0.75f32.to_bits();
    t.spin_direction = -1;
    t.time = 1234567;
    let mut hasher = std::collections::hash_map::DefaultHasher::new();
    t.propelling.hash(&mut hasher);
    t.pos.x.hash(&mut hasher);
    t.pos.y.hash(&mut hasher);
    t.vel.x.hash(&mut hasher);
    t.vel.y.hash(&mut hasher);
    t.spin.hash(&mut hasher);
    t.spin_direction.hash(&mut hasher);
    t.time.hash(&mut hasher);
    t.health.hash(&mut hasher);
    let expected = hasher.finish();
    assert_eq!(t.hash(), expected);
    assert_eq!(t.hash_str(), format!("{:x}", expected));
    let mut other = t;
    other.boosters = 9;
    assert_eq!(other.hash_str(), t.hash_str());
    other.health = 1;
    assert_ne!(other.hash_str(), t.hash_str());
}

#[test]
fn update_applies_at_matching_checkpoint() {
    let mut t = at(0.0, 0.0, 5.0, 0.0);
    t.time = 1000;
    let hash = t.hash_str();
    let change = UpdateTypeWrapper::new(UpdateType::PropOn, None);
    assert!(t.update(change, hash, 1000, 1200, &physics));
    assert!(t.propelling);
    assert_eq!(t.time, 1000);
}

#[test]
fn update_with_wrong_hash_leaves_trajectory() {
    let mut t = at(0.0, 0.0, 5.0, 0.0);
    t.time = 1000;
    let before = t;
    let change = UpdateTypeWrapper::new(UpdateType::PropOn, None);
    assert!(!t.update(change, "deadbeef".to_string(), 1000, 1200, &physics));
    assert_eq!(t, before);
}

#[test]
fn update_rejects_stale_and_premature_claims() {
    let mut t = at(0.0, 0.0, 5.0, 0.0);
    t.time = 10_000;
    let before = t;
    let hash = t.hash_str();
    let change = UpdateTypeWrapper::new(UpdateType::RotCw, None);
    // behind the trajectory's own clock
    assert!(!t.update(change, hash.clone(), 9_900, 10_000, &physics));
    assert_eq!(t, before);
    // too far ahead of the server clock
    assert!(!t.update(change, hash.clone(), 10_000 + MAX_TIME_AHEAD + 1, 10_000, &physics));
    assert_eq!(t, before);
    // too far behind the server clock
    assert!(!t.update(change, hash.clone(), 10_000, 10_000 + MAX_TIME_BEFORE + 1, &physics));
    assert_eq!(t, before);
    // at the limits
    assert!(t.update(change, hash, 10_000, 10_000 + MAX_TIME_BEFORE, &physics));
    assert_eq!(t.spin_direction, 1);
}

#[test]
fn update_fast_forwards_to_the_claimed_time() {
    let mut server = at(0.0, 0.0, 5.0, 0.0);
    server.time = 1000;
    let mut client = server;
    assert!(client.advance(1300, &physics));
    let change = UpdateTypeWrapper::new(UpdateType::AddBoost, None);
    assert!(server.update(change, client.hash_str(), 1300, 1200, &physics));
    client.apply_change(change);
    assert_eq!(server, client);
    assert_eq!(server.time, 1300);
    assert_eq!(server.boosters, 2);
}

#[test]
fn checkpoint_text_round_trips() {
    let mut t = at(1234.5, -77.25, 10.0, -3.0);
    t.propelling = true;
    t.spin = 2.5f32.to_bits();
    t.spin_direction = -1;
    t.time = 0x0102_0304_0506_0708;
    t.health = 200;
    t.boosters = 3;
    let bytes = t.to_bytes();
    assert_eq!(bytes.len(), 32);
    assert_eq!(bytes[0], 1);
    assert_eq!(&bytes[1..5], &1234.5f32.to_le_bytes());
    assert_eq!(bytes[21], 255);
    assert_eq!(&bytes[22..30], &[8, 7, 6, 5, 4, 3, 2, 1]);
    assert_eq!(bytes[30], 200);
    assert_eq!(bytes[31], 3);
    assert_eq!(Trajectory::from_bytes(&bytes), Ok(t));
    let text = t.to_b64();
    assert_eq!(text.len(), 44);
    assert_eq!(Trajectory::from_b64(text), Ok(t));
}

#[test]
fn checkpoint_errors() {
    assert_eq!(Trajectory::from_b64("***".to_string()), Err(CheckpointError::BadText));
    assert_eq!(Trajectory::from_b64("AAAA".to_string()), Err(CheckpointError::BadLayout));
    let mut bytes = at(0.0, 0.0, 0.0, 0.0).to_bytes();
    bytes[0] = 2;
    assert_eq!(Trajectory::from_bytes(&bytes), Err(CheckpointError::BadLayout));
    bytes[0] = 0;
    bytes.push(9);
    assert!(Trajectory::from_bytes(&bytes).is_ok());
    bytes.truncate(31);
    assert_eq!(Trajectory::from_bytes(&bytes), Err(CheckpointError::BadLayout));
}


#[test]
fn checkpoint_matches_the_codecs() {
    let mut t = at(-12.5, 99.0, 0.5, -0.25);
    t.time = 1692538376359;
    t.spin_direction = 1;
    let fields = (
        t.propelling,
        (f32::from_bits(t.pos.x), f32::from_bits(t.pos.y)),
        (f32::from_bits(t.vel.x), f32::from_bits(t.vel.y)),
        f32::from_bits(t.spin),
        t.spin_direction,
        t.time,
        t.health,
        t.boosters,
    );
    let bytes = bincode::serialize(&fields).unwrap();
    assert_eq!(t.to_bytes(), bytes);
    let text = base64::Engine::encode(&base64::engine::general_purpose::STANDARD, &bytes);
    assert_eq!(t.to_b64(), text);
    assert_ne!(t.to_b64().as_bytes(), &bytes[..]);
}

#[test]
fn dump_lists_the_hashed_fields() {
    let mut t = at(1.5, -2.25, 10.0, 0.0);
    t.spin = 0.75f32.to_bits();
    t.spin_direction = -1;
    t.time = 1234567;
    t.health = 42;
    let expected = format!(
        "{},{:x},{:x},{:x},{:x},{:x},{},{},{}",
        t.propelling, t.pos.x, t.pos.y, t.vel.x, t.vel.y, t.spin, t.spin_direction, t.time, t.health
    );
    assert_eq!(t.dump(), expected);
    assert_eq!(t.dump(), "false,3fc00000,c0100000,41200000,0,3f400000,-1,1234567,42");
}

#[test]
fn spawned_trajectory_has_full_health() {
    let t = Trajectory::spawn(Vector { x: 7, y: 9 }, 55);
    assert_eq!(t.health, 0xff);
    assert_eq!(t.boosters, 1);
    assert_eq!(t.time, 55);
    assert_eq!(t.pos, Vector { x: 7, y: 9 });
    assert_eq!(t.vel, Vector { x: 0, y: 0 });
    assert_eq!(t.spin, 0);
    assert_eq!(t.spin_direction, 0);
    assert!(!t.propelling);
}

#[test]
fn min_time_advance_stops_before_the_window() {
    let mut t = at(0.0, -3000.0, 1.0, 0.0);
    t.advance_to_min_time(1000, &physics);
    assert_eq!(t.time, 1000 - MAX_TIME_BEFORE);
    let mut u = at(0.0, -3000.0, 1.0, 0.0);
    u.advance_to_time(1000 - MAX_TIME_BEFORE, &physics);
    assert_eq!(t, u);
    let hash = u.hash_str();
    let mut v = at(0.0, -3000.0, 1.0, 0.0);
    assert!(v.advance_to_time_check(500, hash, &physics));
    assert!(!v.advance_to_time_check(700, "0".to_string(), &physics));
    assert_eq!(v.time, 700);
}

#[test]
fn equal_trajectories_stay_equal() {
    let mut a = at(0.0, -3000.0, 12.0, -7.0);
    a.propelling = true;
    a.spin_direction = 1;
    a.boosters = 2;
    let mut b = Trajectory {
        propelling: a.propelling,
        pos: a.pos,
        vel: a.vel,
        spin: a.spin,
        spin_direction: a.spin_direction,
        time: a.time,
        health: a.health,
        boosters: a.boosters,
    };
    for _ in 0..250 {
        assert_eq!(a.step(&physics), b.step(&physics));
        assert_eq!(a, b);
        assert_eq!(a.hash_str(), b.hash_str());
    }
    assert_eq!(a.time % TIMESTEP_MILLIS, 0);
}

#[test]
fn dome_holds_the_player() {
    let dome = unbits(DOME_RADIUS);
    let mut t = at(0.0, -5990.0, 0.0, -300.0);
    let mut bounced = false;
    for _ in 0..50 {
        let before = t;
        if !t.step(&physics) {
            break;
        }
        let (x, y) = (unbits(t.pos.x), unbits(t.pos.y));
        assert!(x.powi(2) + y.powi(2) <= dome.powi(2), "({}, {}) lies outside", x, y);
        if t.pos == before.pos {
            // the step that would have left the dome turned the velocity around
            bounced = true;
            let inward = -(unbits(t.vel.x) * x + unbits(t.vel.y) * y);
            assert!(inward > 0.0);
        }
    }
    assert!(bounced);
}

#[test]
fn thrust_follows_the_spin() {
    let mut coasting = at(0.0, -3000.0, 0.0, 0.0);
    let mut thrusting = coasting;
    thrusting.propelling = true;
    assert!(coasting.step(&physics));
    assert!(thrusting.step(&physics));
    assert_eq!(coasting.pos, thrusting.pos);
    assert_ne!(coasting.vel, thrusting.vel);
    let gained = (
        unbits(thrusting.vel.x) - unbits(coasting.vel.x),
        unbits(thrusting.vel.y) - unbits(coasting.vel.y),
    );
    let size = (gained.0.powi(2) + gained.1.powi(2)).sqrt();
    assert!((size - 20.0).abs() < 1.5, "thrust of one booster in one step: {}", size);
    let mut turning = at(0.0, -3000.0, 0.0, 0.0);
    turning.spin_direction = 1;
    assert!(turning.step(&physics));
    assert!((unbits(turning.spin) - PI * 0.1).abs() < 1e-6);
}

#[test]
fn update_refuses_a_booster_too_many() {
    let mut t = at(0.0, -3000.0, 5.0, 0.0);
    t.time = 1000;
    t.boosters = 255;
    let before = t;
    let change = UpdateTypeWrapper::new(UpdateType::AddBoost, None);
    assert!(!t.update(change, before.hash_str(), 1000, 1200, &physics));
    assert_eq!(t, before);
    t.boosters = 254;
    assert!(t.update(change, t.hash_str(), 1000, 1200, &physics));
    assert_eq!(t.boosters, 255);
}
