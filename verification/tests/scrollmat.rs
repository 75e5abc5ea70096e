use bevy_scrollmat::HostPipeline;
use bevy_scrollmat::RegistrationStep;
use bevy_scrollmat::ScrollMatExtension;
use bevy_scrollmat::ScrollMatPlugin;
use bevy_scrollmat::ScrollSpeed;

#[test]
fn two_deltas_compose_additively() {
    // (5, 6) plus (1, 2) plus (3, 4), in both orders.
    let mut a = ScrollSpeed::new(5, 6);
    a.add_delta(ScrollSpeed::new(1, 2));
    a.add_delta(ScrollSpeed::new(3, 4));
    assert_eq!(a, ScrollSpeed::new(9, 12));

    let mut b = ScrollSpeed::new(5, 6);
    b.add_delta(ScrollSpeed::new(3, 4));
    b.add_delta(ScrollSpeed::new(1, 2));
    assert_eq!(b, a);
}

#[test]
fn zero_speed_reads_back_as_zero() {
    // A material built with speed (0, 0) reports the zero uniform before
    // any update: zero displacement.
    let e = ScrollMatExtension::new(ScrollSpeed::new(0, 0));
    assert_eq!(e.uniform_value(), ScrollSpeed::new(0, 0));
}

#[test]
fn default_extension_is_static() {
    let e = ScrollMatExtension::default();
    assert_eq!(e.uniform_value(), ScrollSpeed::zero());
}

#[test]
fn four_right_arrow_increments() {
    // Start at (0, 1): y is one full unit, in milliunits 1000. Four
    // right-arrow increments of (0.5, 0), that is (500, 0) milliunits,
    // end at (2, 1).
    let mut s = ScrollSpeed::new(0, 1000);
    for _ in 0..4 {
        s.add_delta(ScrollSpeed::new(500, 0));
    }
    assert_eq!(s, ScrollSpeed::new(2000, 1000));
}

#[test]
fn one_down_arrow_decrement() {
    // Start at (0, 1); one decrement of (0, 0.5) ends at (0, 0.5).
    let mut s = ScrollSpeed::new(0, 1000);
    s.add_delta(ScrollSpeed::new(0, -500));
    assert_eq!(s, ScrollSpeed::new(0, 500));
}

#[test]
fn build_lists_both_registration_steps_in_order() {
    let steps = ScrollMatPlugin.build();
    assert_eq!(
        steps,
        vec![
            RegistrationStep::LoadShaderAsset,
            RegistrationStep::RegisterMaterialType,
        ]
    );
}

#[test]
fn installing_once_makes_the_material_type_usable() {
    let mut host = HostPipeline::new();
    assert!(!host.shader_asset_loaded);
    assert!(!host.material_type_registered);
    ScrollMatPlugin.install(&mut host);
    assert!(host.shader_asset_loaded);
    assert!(host.material_type_registered);
}

#[test]
fn applying_steps_by_hand_matches_install() {
    let mut by_hand = HostPipeline::new();
    for step in ScrollMatPlugin.build() {
        by_hand.apply(step);
    }
    let mut installed = HostPipeline::new();
    ScrollMatPlugin.install(&mut installed);
    assert_eq!(by_hand, installed);
}

#[test]
fn both_passes_use_the_same_embedded_shader() {
    let forward = ScrollMatExtension::fragment_shader();
    let deferred = ScrollMatExtension::deferred_fragment_shader();
    assert_eq!(forward, "embedded://bevy_scrollmat/assets/scrollmat.wgsl");
    assert_eq!(deferred, forward);
}

#[test]
fn new_extension_keeps_the_given_speed() {
    let speed = ScrollSpeed::new(-250, 750);
    let e = ScrollMatExtension::new(speed);
    assert_eq!(e.scroll_speed, speed);
    assert_eq!(e.uniform_value(), speed);
}
