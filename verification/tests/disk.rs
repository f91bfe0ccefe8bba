use black_hole::disk::{
    step_outer_radius, step_spin, update_disk_config, DiskConfig, DiskKeys, DEFAULT_SPIN_MILLI,
};
use black_hole::presets::Step;

fn keys(spin_down: bool, spin_up: bool, radius_down: bool, radius_up: bool) -> DiskKeys {
    DiskKeys { spin_down, spin_up, radius_down, radius_up }
}

#[test]
fn default_disk_is_spin_point_eight_two_and_fifteen_radii() {
    let d = DiskConfig::default();
    assert_eq!(d, DiskConfig { spin_milli: 820, r_outer_rs: 15 });
    assert_eq!(DEFAULT_SPIN_MILLI, 820);
}

#[test]
fn spin_steps_by_five_hundredths_and_is_held() {
    assert_eq!(step_spin(820, Step::Down), 770);
    assert_eq!(step_spin(820, Step::Up), 870);
    assert_eq!(step_spin(970, Step::Up), 999);
    assert_eq!(step_spin(-970, Step::Down), -999);
    assert_eq!(step_spin(-999, Step::Down), -999);
}

#[test]
fn outer_radius_steps_by_one_and_is_held() {
    assert_eq!(step_outer_radius(15, Step::Down), 14);
    assert_eq!(step_outer_radius(15, Step::Up), 16);
    assert_eq!(step_outer_radius(4, Step::Down), 4);
    assert_eq!(step_outer_radius(30, Step::Up), 30);
    assert_eq!(step_outer_radius(0, Step::Down), 4);
    assert_eq!(step_outer_radius(40, Step::Up), 30);
    assert_eq!(step_outer_radius(40, Step::Down), 39);
}

#[test]
fn keys_apply_in_order_and_report_change() {
    let d = DiskConfig::default();
    assert_eq!(update_disk_config(d, keys(false, false, false, false)), (d, false));
    assert_eq!(
        update_disk_config(d, keys(true, false, false, true)),
        (DiskConfig { spin_milli: 770, r_outer_rs: 16 }, true)
    );
    let top = DiskConfig { spin_milli: 999, r_outer_rs: 30 };
    assert_eq!(
        update_disk_config(top, keys(true, true, true, true)),
        (DiskConfig { spin_milli: 999, r_outer_rs: 30 }, true)
    );
    let held = DiskConfig { spin_milli: 980, r_outer_rs: 30 };
    assert_eq!(update_disk_config(held, keys(false, true, false, true)).0, DiskConfig { spin_milli: 999, r_outer_rs: 30 });
}
