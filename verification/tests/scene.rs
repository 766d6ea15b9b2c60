use utopia::rdp::engine::scene::{DisplayListItem, Scene};
use utopia::rdp::engine::Core;

#[test]
fn triangles_in_a_row_share_an_entry() {
    let mut scene: Scene<u32> = Scene::new();
    scene.push_triangle(&[1, 2, 3]);
    scene.push_triangle(&[4, 5, 6]);
    assert_eq!(scene.vertices(), &[1, 2, 3, 4, 5, 6]);
    assert_eq!(scene.display_list(), &[DisplayListItem::Triangles(0..6)]);
    assert!(scene.indices().is_empty());
}

#[test]
fn quads_add_the_indices_of_two_triangles() {
    let mut scene: Scene<u32> = Scene::new();
    scene.push_triangle(&[0, 0, 0]);
    scene.push_quad(&[10, 11, 12, 13]);
    scene.push_quad(&[20, 21, 22, 23]);
    assert_eq!(scene.indices(), &[3, 4, 5, 5, 4, 6, 7, 8, 9, 9, 8, 10]);
    assert_eq!(
        scene.display_list(),
        &[DisplayListItem::Triangles(0..3), DisplayListItem::Quads(0..12)]
    );
    // a triangle after the quads starts a new entry
    scene.push_triangle(&[1, 1, 1]);
    assert_eq!(scene.display_list()[2], DisplayListItem::Triangles(11..14));
}

#[test]
fn binding_what_is_bound_adds_nothing() {
    let mut scene: Scene<u32> = Scene::new();
    scene.bind_texture(0);
    assert!(scene.display_list().is_empty());
    scene.bind_fragment_state(2);
    scene.bind_fragment_state(2);
    scene.bind_texture(5);
    scene.bind_texture(5);
    assert_eq!(
        scene.display_list(),
        &[DisplayListItem::BindFragmentState(2), DisplayListItem::BindTexture(5)]
    );
    scene.clear();
    assert!(scene.display_list().is_empty());
    assert!(scene.vertices().is_empty());
    scene.bind_fragment_state(2);
    assert_eq!(scene.display_list(), &[DisplayListItem::BindFragmentState(2)]);
}

#[test]
fn core_binds_texture_and_fragment_state_before_drawing() {
    let mut core = Core::new();
    let mut scene: Scene<u32> = Scene::new();
    core.push_triangle(&mut scene, &[1, 2, 3], 0);
    assert_eq!(
        scene.display_list(),
        &[DisplayListItem::BindFragmentState(0), DisplayListItem::Triangles(0..3)]
    );
    assert_eq!(core.fragment().len(), 1);
    core.push_rect(&mut scene, &[4, 5, 6, 7], 2);
    assert_eq!(
        scene.display_list(),
        &[
            DisplayListItem::BindFragmentState(0),
            DisplayListItem::Triangles(0..3),
            DisplayListItem::BindTexture(2),
            DisplayListItem::Quads(0..6),
        ]
    );
    assert_eq!(scene.indices(), &[3, 4, 5, 5, 4, 6]);
    assert_eq!(core.fragment().len(), 1);
}
