use space_shooter::controller::{Controller, Vec3};
use space_shooter::firing::{fire_tick, Launch};
use space_shooter::units::{FIXED_ONE, NANOS_PER_MILLI};
use space_shooter::weapon::{Projectile, Weapon, WeaponManager};

const MS: u64 = NANOS_PER_MILLI;

#[test]
fn recoil_blocks_then_allows_a_shot() {
    let mut w = Weapon::default();
    assert_eq!(w.recoil, 250 * MS);
    assert_eq!(w.last_fired, 0);
    assert!(!w.try_fire(100 * MS));
    assert_eq!(w.last_fired, 0);
    assert!(w.try_fire(260 * MS));
    assert_eq!(w.last_fired, 260 * MS);
}

#[test]
fn shot_allowed_exactly_when_recoil_has_elapsed() {
    let mut w = Weapon::default();
    w.last_fired = 1000 * MS;
    assert!(!w.ready(1000 * MS + 250 * MS - 1));
    assert!(w.ready(1000 * MS + 250 * MS));
    assert!(!w.ready(999 * MS));
    assert!(!w.try_fire(1249 * MS));
    assert_eq!(w.last_fired, 1000 * MS);
    assert!(w.try_fire(1250 * MS));
    assert_eq!(w.last_fired, 1250 * MS);
    assert!(!w.try_fire(1250 * MS));
}

#[test]
fn weapon_defaults() {
    let w = Weapon::default();
    assert_eq!(w.name(), "Weapon");
    assert_eq!(w.speed(), 10 * FIXED_ONE);
    assert_eq!(w.projectile, Projectile { max_speed: 10 * FIXED_ONE, traction: 10 * FIXED_ONE });
    assert_eq!(Projectile::default(), w.projectile);
}

fn armed(wants_to_fire: bool) -> WeaponManager {
    let mut slow = Weapon::default().set_name("slow".to_string());
    slow.recoil = 1000 * MS;
    slow.projectile = Projectile { max_speed: 3 * FIXED_ONE, traction: FIXED_ONE / 2 };
    let mut wm = WeaponManager::new(vec![Weapon::default(), slow]);
    wm.set_index(1).unwrap();
    wm.wants_to_fire = wants_to_fire;
    wm
}

#[test]
fn manager_fires_only_when_asked() {
    let mut wm = armed(false);
    assert_eq!(wm.fire(5000 * MS), None);
    assert_eq!(wm.weapons()[1].last_fired, 0);
    wm.wants_to_fire = true;
    assert_eq!(
        wm.fire(5000 * MS),
        Some(Projectile { max_speed: 3 * FIXED_ONE, traction: FIXED_ONE / 2 })
    );
    assert_eq!(wm.weapons()[1].last_fired, 5000 * MS);
    assert_eq!(wm.weapons()[0].last_fired, 0);
    assert_eq!(wm.fire(5500 * MS), None);
    assert_eq!(wm.weapons()[1].last_fired, 5000 * MS);
}

#[test]
fn empty_manager_never_fires() {
    let mut wm = WeaponManager::default();
    wm.wants_to_fire = true;
    assert_eq!(wm.fire(10_000 * MS), None);
}

#[test]
fn fire_tick_queues_a_launch() {
    let mut wm = armed(true);
    let shooter = Controller {
        velocity: Vec3 { x: 1, y: 2, z: 3 },
        rotation_control: FIXED_ONE,
        thrust_control: FIXED_ONE / 2,
        ..Controller::default()
    };
    let mut queue = Vec::new();
    assert!(fire_tick(&mut wm, &shooter, 2000 * MS, &mut queue));
    assert!(!fire_tick(&mut wm, &shooter, 2100 * MS, &mut queue));
    assert_eq!(queue.len(), 1);
    let projectile = Projectile { max_speed: 3 * FIXED_ONE, traction: FIXED_ONE / 2 };
    assert_eq!(
        queue[0],
        Launch {
            projectile,
            controller: Controller {
                velocity: Vec3 { x: 1, y: 2, z: 3 },
                rotation_control: 0,
                thrust_control: -FIXED_ONE,
                turn_speed: FIXED_ONE,
                traction: FIXED_ONE / 2,
                max_speed: 3 * FIXED_ONE,
            },
        }
    );
    wm.wants_to_fire = false;
    assert!(!fire_tick(&mut wm, &shooter, 9000 * MS, &mut queue));
    assert_eq!(queue.len(), 1);
}
