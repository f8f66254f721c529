use scene_demo::game::create_scene;
use scene_demo::loading::WorldProps;

#[test]
fn scene_spawns_the_loaded_asset_as_the_rotating_crate() {
    let props = WorldProps { wood_crate: 42 };
    let scene = create_scene(&props);
    assert_eq!(scene.rotating_crate.scene_asset, 42);
    assert_eq!(
        (scene.rotating_crate.position.x, scene.rotating_crate.position.y, scene.rotating_crate.position.z),
        (0, 0, 0)
    );
    assert_eq!(scene.rotating_crate.rotating.initial_height, 500_000);
}

#[test]
fn scene_fixed_lighting() {
    let scene = create_scene(&WorldProps { wood_crate: 1 });
    let light = scene.directional_light;
    assert_eq!((light.color.red, light.color.green, light.color.blue), (1000, 950, 850));
    assert_eq!(light.illuminance, 50_000);
    assert!(light.shadows_enabled);
    assert_eq!(light.pitch_microrad, -785_398);
    assert_eq!(light.yaw_microrad, 785_398);
    assert_eq!(light.roll_microrad, 0);
    assert_eq!(light.first_cascade_far_bound, 4_000_000);
    assert_eq!(light.maximum_distance, 10_000_000);
    let ambient = scene.ambient_light;
    assert_eq!((ambient.color.red, ambient.color.green, ambient.color.blue), (100, 100, 100));
    assert_eq!(ambient.brightness, 300);
}

#[test]
fn scene_fixed_ground_and_camera() {
    let scene = create_scene(&WorldProps { wood_crate: 1 });
    let ground = scene.ground;
    assert_eq!((ground.base_color.red, ground.base_color.green, ground.base_color.blue), (200, 200, 200));
    assert_eq!(ground.perceptual_roughness, 900);
    assert_eq!(ground.metallic, 0);
    assert_eq!(ground.reflectance, 200);
    assert_eq!((ground.position.x, ground.position.y, ground.position.z), (0, -500_000, 0));
    let camera = scene.camera;
    assert_eq!((camera.position.x, camera.position.y, camera.position.z), (-2_000_000, 2_500_000, 5_000_000));
    assert_eq!((camera.look_at.x, camera.look_at.y, camera.look_at.z), (0, 0, 0));
}
