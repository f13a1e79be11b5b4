use openpresenter::domain::Layer;
use openpresenter::layers::{
    add_on_top, delete_selected, max_z_order, move_selected_down, move_selected_up, select_layer,
    toggle_lock, toggle_visibility, topmost_hit, LayerPanelState,
};

fn layer(z: i32) -> Layer {
    Layer { z_order: z, visible: true, locked: false }
}

fn zs(ls: &[Layer]) -> Vec<i32> {
    ls.iter().map(|l| l.z_order).collect()
}

#[test]
fn panel_starts_empty() {
    let p = LayerPanelState::default();
    assert_eq!(p.selected_layer_index, None);
    assert_eq!(p.editing_text, "");
}

#[test]
fn new_layers_go_on_top() {
    let mut ls = Vec::new();
    assert_eq!(max_z_order(&ls), -1);
    assert_eq!(add_on_top(&mut ls, layer(99)), 0);
    assert_eq!(zs(&ls), vec![0]);
    ls.push(layer(7));
    ls.push(layer(3));
    assert_eq!(max_z_order(&ls), 7);
    assert_eq!(add_on_top(&mut ls, layer(-5)), 3);
    assert_eq!(zs(&ls), vec![0, 7, 3, 8]);
}

#[test]
fn selection_is_checked() {
    assert_eq!(select_layer(Some(1), 2), Some(1));
    assert_eq!(select_layer(Some(2), 2), None);
    assert_eq!(select_layer(None, 2), None);
}

#[test]
fn deleting_selects_the_layer_below() {
    let mut ls = vec![layer(0), layer(1), layer(2)];
    assert_eq!(delete_selected(&mut ls, 2), Some(Some(1)));
    assert_eq!(zs(&ls), vec![0, 1]);
    assert_eq!(delete_selected(&mut ls, 0), Some(Some(0)));
    assert_eq!(zs(&ls), vec![1]);
    assert_eq!(delete_selected(&mut ls, 5), None);
    assert_eq!(delete_selected(&mut ls, 0), Some(None));
    assert!(ls.is_empty());
}

#[test]
fn raising_and_lowering() {
    let mut ls = vec![layer(0), layer(1), layer(2)];
    assert_eq!(move_selected_up(&mut ls, 0), Some(1));
    assert_eq!(zs(&ls), vec![0, 1, 2]);
    assert_eq!(move_selected_up(&mut ls, 2), None);
    let mut ls = vec![layer(10), layer(20)];
    assert_eq!(move_selected_up(&mut ls, 0), Some(1));
    assert_eq!(zs(&ls), vec![19, 11]);
    assert_eq!(move_selected_down(&mut ls, 1), Some(0));
    assert_eq!(zs(&ls), vec![10, 20]);
    assert_eq!(move_selected_down(&mut ls, 0), None);
}

#[test]
fn visibility_and_lock_flip() {
    let mut ls = vec![layer(0)];
    toggle_visibility(&mut ls, 0);
    assert!(!ls[0].visible);
    toggle_lock(&mut ls, 0);
    assert!(ls[0].locked);
    toggle_lock(&mut ls, 3);
    toggle_visibility(&mut ls, 3);
    assert!(!ls[0].visible && ls[0].locked);
}

#[test]
fn clicks_pick_the_topmost_free_layer() {
    let mut ls = vec![layer(2), layer(5), layer(5), layer(9)];
    ls[3].locked = true;
    assert_eq!(topmost_hit(&ls, &vec![true, true, true, true]), Some(1));
    assert_eq!(topmost_hit(&ls, &vec![true, false, true, true]), Some(2));
    ls[2].visible = false;
    assert_eq!(topmost_hit(&ls, &vec![true, false, true, true]), Some(0));
    assert_eq!(topmost_hit(&ls, &vec![false, false, true, true]), None);
}
