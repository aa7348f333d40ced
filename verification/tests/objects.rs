use tiled_mesh::document::{
    ObjectShape, Property, PropertyValue, RawObject, RawObjectGroup, TileMeta, Tileset, TsImage,
};
use tiled_mesh::geometry::Orientation;
use tiled_mesh::gid::FLIP_H_FLAG;
use tiled_mesh::objects::{Object, ObjectGroup, Ratio};

fn object_tileset() -> Tileset {
    Tileset {
        first_gid: 1,
        tile_count: 16,
        tile_width: 16,
        tile_height: 16,
        spacing: 0,
        images: vec![TsImage { width: 64, height: 64, source: String::from("tiles.png") }],
        tiles: Vec::new(),
    }
}

fn rect_object(x: i64, y: i64, w: i64, h: i64, gid: u32) -> RawObject {
    RawObject {
        shape: ObjectShape::Rect { width: w, height: h },
        x,
        y,
        width: w,
        height: h,
        gid,
        visible: true,
        name: String::from("box"),
        obj_type: String::new(),
        properties: Vec::new(),
    }
}

#[test]
fn shape_object_resolution() {
    // A rectangle at (10, 20), 32 by 32, with no tile reference.
    let tilesets = vec![object_tileset()];
    let o = Object::new_with_tile_ids(&rect_object(10, 20, 32, 32, 0), &tilesets);
    assert_eq!(o.tileset_gid, None);
    assert_eq!(o.sprite_index, None);
    assert!(o.is_shape());
    assert_eq!(o.dimensions(), Some((32, 32)));
    assert_eq!(o.position, (10, 20));
    assert!(o.children.is_empty());
}

#[test]
fn shape_object_centre_offset() {
    // Its anchor is the top-left corner, so the centre sits half the size
    // right and down: (+16, -20 - 16) px = (104, -144) subpixel steps.
    let tilesets = vec![object_tileset()];
    let o = Object::new_with_tile_ids(&rect_object(10, 20, 32, 32, 0), &tilesets);
    let t = o.transform_from_map(Orientation::Orthogonal, None);
    assert_eq!(t.translation, (104, -144));
    assert!(t.scale.is_none());
    // Depth falls with the centre's height: 15 - (-36 px / 2000).
    assert_eq!(t.depth.num, 120_000 - (-144));
    assert_eq!(t.depth.den, 8000);
}

#[test]
fn tile_object_resolution_and_scale() {
    let tilesets = vec![object_tileset()];
    let o = Object::new_with_tile_ids(&rect_object(10, 20, 32, 32, 3), &tilesets);
    assert_eq!(o.tileset_gid, Some(1));
    assert_eq!(o.sprite_index, Some(2));
    assert!(!o.is_shape());
    let t = o.placement(&tilesets, Orientation::Orthogonal);
    // A tile object anchors at its bottom-left corner: the centre sits
    // half the size right and *up*.
    assert_eq!(t.translation, (104, -16));
    // Declared size over source tile size, per axis: 32 / 16.
    let (sx, sy) = t.scale.unwrap();
    assert_eq!((sx.num, sx.den), (32, 16));
    assert_eq!((sy.num, sy.den), (32, 16));
}

#[test]
fn object_gid_flip_bits_are_stripped() {
    let tilesets = vec![object_tileset()];
    let o = Object::new_with_tile_ids(&rect_object(0, 0, 16, 16, 3 | FLIP_H_FLAG), &tilesets);
    assert_eq!(o.gid, 3);
    assert_eq!(o.tileset_gid, Some(1));
}

#[test]
fn gid_outside_every_range_stays_a_shape() {
    let tilesets = vec![object_tileset()];
    let o = Object::new_with_tile_ids(&rect_object(0, 0, 16, 16, 999), &tilesets);
    assert_eq!(o.tileset_gid, None);
    assert_eq!(o.sprite_index, None);
}

#[test]
fn point_and_polygon_dimensions_are_placeholders() {
    let mut raw = rect_object(5, 5, 0, 0, 0);
    raw.shape = ObjectShape::Point(5, 5);
    let o = Object::new(&raw);
    assert_eq!(o.dimensions(), Some((1, 1)));
    let mut raw = rect_object(5, 5, 0, 0, 0);
    raw.shape = ObjectShape::Polygon { points: vec![(0, 0), (4, 0), (0, 4)] };
    let o = Object::new(&raw);
    assert_eq!(o.dimensions(), Some((1, 1)));
}

#[test]
fn ellipse_objects_anchor_like_boxes() {
    // Rectangle and ellipse shapes place alike: top-left anchor, offset by
    // half the declared size.
    let mut raw = rect_object(10, 20, 32, 32, 0);
    raw.shape = ObjectShape::Ellipse { width: 32, height: 32 };
    let o = Object::new(&raw);
    let t = o.transform_from_map(Orientation::Orthogonal, None);
    assert_eq!(t.translation, (104, -144));
    assert_eq!((t.depth.num, t.depth.den), (120_000 + 144, 8000));
    assert!(t.scale.is_none());
}

#[test]
fn line_point_and_polygon_shapes_keep_the_map_transform() {
    let mut raw = rect_object(5, 5, 8, 8, 0);
    raw.shape = ObjectShape::Polyline { points: vec![(0, 0), (8, 8)] };
    let o = Object::new(&raw);
    let t = o.transform_from_map(Orientation::Orthogonal, None);
    assert_eq!(t.translation, (0, 0));
    assert_eq!((t.depth.num, t.depth.den), (0, 1));
    let mut raw = rect_object(5, 5, 0, 0, 0);
    raw.shape = ObjectShape::Point(5, 5);
    let o = Object::new(&raw);
    let t = o.transform_from_map(Orientation::Orthogonal, None);
    assert_eq!(t.translation, (0, 0));
}

#[test]
fn properties_pass_through_verbatim() {
    let mut raw = rect_object(0, 0, 8, 8, 0);
    raw.properties.push(Property {
        key: String::from("locked"),
        value: PropertyValue::BoolValue(true),
    });
    raw.properties.push(Property {
        key: String::from("label"),
        value: PropertyValue::StringValue(String::from("door")),
    });
    let o = Object::new(&raw);
    assert_eq!(o.props.len(), 2);
    assert_eq!(o.props[0].key, "locked");
    assert!(matches!(o.props[0].value, PropertyValue::BoolValue(true)));
    assert_eq!(o.props[1].key, "label");
    match &o.props[1].value {
        PropertyValue::StringValue(s) => assert_eq!(s, "door"),
        other => panic!("unexpected property value {:?}", std::mem::discriminant(other)),
    }
}

#[test]
fn embedded_sub_objects_become_children() {
    let mut ts = object_tileset();
    // Tile 2 of the tileset carries one embedded hitbox rectangle.
    ts.tiles.push(TileMeta {
        id: 2,
        animation: Vec::new(),
        objects: vec![rect_object(1, 2, 4, 4, 0)],
    });
    let tilesets = vec![ts];
    let o = Object::new_with_tile_ids(&rect_object(10, 20, 32, 32, 3), &tilesets);
    assert_eq!(o.children.len(), 1);
    let child = &o.children[0];
    assert_eq!(child.position, (1, 2));
    assert_eq!(child.size, (4, 4));
    assert_eq!(child.tileset_gid, None);
}

#[test]
fn group_resolution_keeps_order_and_metadata() {
    let tilesets = vec![object_tileset()];
    let group = RawObjectGroup {
        name: String::from("things"),
        opacity_milli: 500,
        visible: true,
        objects: vec![rect_object(0, 0, 8, 8, 0), rect_object(1, 1, 8, 8, 2)],
    };
    let g = ObjectGroup::new_with_tile_ids(&group, &tilesets);
    assert_eq!(g.name, "things");
    assert_eq!(g.opacity_milli, 500);
    assert_eq!(g.objects.len(), 2);
    assert_eq!(g.objects[0].tileset_gid, None);
    assert_eq!(g.objects[1].tileset_gid, Some(1));
    assert_eq!(g.objects[1].sprite_index, Some(1));
}

#[test]
fn scale_ratio_fields_are_plain() {
    let r = Ratio { num: 32, den: 16 };
    assert_eq!(r.num, 32);
    assert_eq!(r.den, 16);
}
