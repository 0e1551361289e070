use raytracer::scene::Scene;

#[test]
fn materials_are_shared_by_index() {
    let mut scene: Scene<&str, u8> = Scene::new();
    let glass = scene.add_material(7);
    let matte = scene.add_material(9);
    assert_eq!((glass, matte), (0, 1));
    assert_eq!(scene.add_surface("outer", glass), Some(0));
    assert_eq!(scene.add_surface("inner", glass), Some(1));
    assert_eq!(scene.add_surface("ground", matte), Some(2));
    assert_eq!(*scene.material(1), 7);
    assert_eq!(*scene.material(2), 9);
    assert_eq!(scene.world().len(), 3);
}

#[test]
fn surface_with_unknown_material_is_refused() {
    let mut scene: Scene<&str, u8> = Scene::new();
    assert_eq!(scene.add_surface("ball", 0), None);
    scene.add_material(1);
    assert_eq!(scene.add_surface("ball", 1), None);
    assert_eq!(scene.world().len(), 0);
}
