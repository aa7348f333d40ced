use tiled_mesh::document::{ObjectShape, RawObject, RawObjectGroup, Tileset, TsImage};
use tiled_mesh::objects::ObjectGroup;
use tiled_mesh::reload::{
    atlas_grid, fold_map_events, tileset_used_by_objects, CreatedMapEntities, MapAssetEvent,
};

#[test]
fn created_and_modified_events_join_once() {
    let events = vec![
        MapAssetEvent::Created { handle: 1 },
        MapAssetEvent::Modified { handle: 1 },
        MapAssetEvent::Created { handle: 2 },
    ];
    assert_eq!(fold_map_events(&events), vec![1, 2]);
}

#[test]
fn removal_discards_earlier_changes() {
    let events = vec![
        MapAssetEvent::Modified { handle: 1 },
        MapAssetEvent::Created { handle: 2 },
        MapAssetEvent::Removed { handle: 1 },
    ];
    assert_eq!(fold_map_events(&events), vec![2]);
}

#[test]
fn change_after_removal_counts_again() {
    let events = vec![
        MapAssetEvent::Created { handle: 5 },
        MapAssetEvent::Removed { handle: 5 },
        MapAssetEvent::Modified { handle: 5 },
    ];
    assert_eq!(fold_map_events(&events), vec![5]);
}

#[test]
fn removal_of_an_unknown_handle_changes_nothing() {
    let events = vec![MapAssetEvent::Created { handle: 1 }, MapAssetEvent::Removed { handle: 9 }];
    assert_eq!(fold_map_events(&events), vec![1]);
}

#[test]
fn layer_entities_round_trip() {
    let mut reg = CreatedMapEntities::new();
    reg.insert_layer_entity(0, 1, 100);
    reg.insert_layer_entity(0, 1, 101);
    reg.insert_layer_entity(1, 1, 102);
    let stale = reg.remove_layer_entities(0, 1);
    assert_eq!(stale, vec![100, 101]);
    // The other key keeps its entities; the removed one is gone.
    assert_eq!(reg.remove_layer_entities(0, 1), Vec::<u64>::new());
    assert_eq!(reg.remove_layer_entities(1, 1), vec![102]);
}

#[test]
fn object_entities_round_trip() {
    let mut reg = CreatedMapEntities::new();
    reg.insert_object_entity(7, 200);
    reg.insert_object_entity(7, 201);
    reg.insert_object_entity(9, 202);
    assert_eq!(reg.remove_object_entities(7), vec![200, 201]);
    assert_eq!(reg.remove_object_entities(7), Vec::<u64>::new());
    assert_eq!(reg.remove_object_entities(9), vec![202]);
}

#[test]
fn atlas_grid_ignores_spacing() {
    let ts = Tileset {
        first_gid: 1,
        tile_count: 16,
        tile_width: 16,
        tile_height: 16,
        spacing: 2,
        images: vec![TsImage { width: 70, height: 40, source: String::from("a.png") }],
        tiles: Vec::new(),
    };
    assert_eq!(atlas_grid(&ts), (4, 2));
}

#[test]
fn only_object_referenced_tilesets_need_atlases() {
    let tilesets = vec![Tileset {
        first_gid: 1,
        tile_count: 16,
        tile_width: 16,
        tile_height: 16,
        spacing: 0,
        images: vec![TsImage { width: 64, height: 64, source: String::from("a.png") }],
        tiles: Vec::new(),
    }];
    let raw = RawObject {
        shape: ObjectShape::Rect { width: 16, height: 16 },
        x: 0,
        y: 0,
        width: 16,
        height: 16,
        gid: 3,
        visible: true,
        name: String::new(),
        obj_type: String::new(),
        properties: Vec::new(),
    };
    let group = RawObjectGroup {
        name: String::new(),
        opacity_milli: 1000,
        visible: true,
        objects: vec![raw],
    };
    let groups = vec![ObjectGroup::new_with_tile_ids(&group, &tilesets)];
    assert!(tileset_used_by_objects(&groups, 1));
    assert!(!tileset_used_by_objects(&groups, 17));
}
