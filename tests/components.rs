use space_shooter::config::GameConfig;
use space_shooter::controller::{Controller, Vec3};
use space_shooter::units::FIXED_ONE;
use space_shooter::input::{Action, Axis, GameBindings};
use space_shooter::ship::{Engine, Hull, Inventory, Player};
use space_shooter::weapon::Projectile;

#[test]
fn controller_defaults() {
    let c = Controller::default();
    assert_eq!(c.velocity, Vec3::zeros());
    assert_eq!(c.rotation_control, 0);
    assert_eq!(c.thrust_control, 0);
    assert_eq!(c.turn_speed, 1_000_000);
    assert_eq!(c.traction, 50_000);
    assert_eq!(c.max_speed, 10_000_000);
}

#[test]
fn projectile_controller_drives_straight() {
    let p = Projectile { max_speed: 42, traction: 7 };
    let c = Controller { rotation_control: 5, thrust_control: 9, ..Controller::default() };
    let launched = c.set_from_projectile(&p);
    assert_eq!(launched.max_speed, 42);
    assert_eq!(launched.traction, 7);
    assert_eq!(launched.thrust_control, -FIXED_ONE);
    assert_eq!(launched.rotation_control, 0);
    assert_eq!(launched.turn_speed, c.turn_speed);
    assert_eq!(launched.velocity, c.velocity);
}

#[test]
fn ship_part_defaults() {
    assert_eq!(Engine::default(), Engine { traction: 0, turn_speed: 0, speed_multiplier: 0 });
    assert_eq!(
        Hull::default(),
        Hull { weight: 100, inventory_space: 100, max_speed: 6_000_000 }
    );
    assert_eq!(Player::default(), Player {});
    assert_eq!(Inventory::default(), Inventory {});
}

#[test]
fn input_names() {
    assert_eq!(Axis::Horizontal.to_string(), "Horizontal");
    assert_eq!(Axis::Vertical.to_string(), "Vertical");
    assert_eq!(Action::Fire.to_string(), "Fire");
    assert_eq!(GameBindings::default(), GameBindings {});
}

#[test]
fn game_config_default_is_empty() {
    let c = GameConfig::default();
    assert!(c.prefabs.is_empty());
    assert!(c.models_path.is_empty());
}
