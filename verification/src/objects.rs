//! Object placement resolver: turns raw map objects into resolved
//! placement entities with tileset membership, sprite indices, placement
//! offsets and, for tile objects, embedded sub-objects and scale factors.

use vstd::prelude::*;

use crate::document::MAX_OBJECT_COORD;
use crate::document::ObjectShape;
use crate::document::ObjectShapeView;
use crate::document::Property;
use crate::document::PropertyValue;
use crate::document::RawObject;
use crate::document::RawObjectView;
use crate::document::RawObjectGroup;
use crate::document::RawObjectGroupView;
use crate::document::TileMetaView;
use crate::document::Tileset;
use crate::document::TilesetView;
use crate::geometry::Orientation;
use crate::gid::spec_clean_gid;
use crate::gid::remove_tile_flags;

verus! {

/// An exact rational number; `den` is always positive.
#[derive(Clone, Copy, PartialEq, Eq, Structural, Debug)]
pub struct Ratio {
    pub num: i64,
    pub den: i64,
}

/// A sub-object resolved from the embedded object group of a tile
/// definition.  Its coordinates are tile-local pixels; the host positions
/// it relative to the parent tile object's placement and scale.
///
/// Resolution is recursive in the sense that each sub-object is itself
/// fully resolved against the tilesets (gid cleaned, membership and
/// sprite index looked up), but expansion stops after one level: a
/// sub-object never carries further sub-objects.  Tiles may reference
/// tiles in a cycle, so a deeper expansion would have no well-defined
/// end; the one-level form gives hitboxes and decoration anchors their
/// placement without that ambiguity.
pub struct SubObject {
    pub shape: ObjectShape,
    pub props: Vec<Property>,
    /// Tile-local pixel position.
    pub position: (i64, i64),
    /// Declared pixel size.
    pub size: (i64, i64),
    pub name: String,
    pub obj_type: String,
    pub visible: bool,
    /// Cleaned gid (0 for plain shapes).
    pub gid: u32,
    /// First gid of the owning tileset, when the gid maps into one.
    pub tileset_gid: Option<u32>,
    /// Local sprite index within that tileset.
    pub sprite_index: Option<u32>,
}

/// View of [`SubObject`].
pub ghost struct SubObjectView {
    pub shape: ObjectShapeView,
    pub props: Seq<Property>,
    pub position: (i64, i64),
    pub size: (i64, i64),
    pub name: String,
    pub obj_type: String,
    pub visible: bool,
    pub gid: u32,
    pub tileset_gid: Option<u32>,
    pub sprite_index: Option<u32>,
}

impl View for SubObject {
    type V = SubObjectView;

    open spec fn view(&self) -> SubObjectView {
        SubObjectView {
            shape: self.shape@,
            props: self.props@,
            position: self.position,
            size: self.size,
            name: self.name,
            obj_type: self.obj_type,
            visible: self.visible,
            gid: self.gid,
            tileset_gid: self.tileset_gid,
            sprite_index: self.sprite_index,
        }
    }
}

/// A resolved placement entity: one map object with its tileset
/// membership resolved and, for tile objects, the sub-objects embedded in
/// the source tile's definition.
pub struct Object {
    pub shape: ObjectShape,
    pub props: Vec<Property>,
    /// Pixel position of the object's anchor.
    pub position: (i64, i64),
    /// Declared pixel size.
    pub size: (i64, i64),
    pub name: String,
    pub obj_type: String,
    pub visible: bool,
    /// Cleaned gid (0 for plain shapes).
    pub gid: u32,
    /// First gid of the owning tileset, when the gid maps into one.
    pub tileset_gid: Option<u32>,
    /// Local sprite index within that tileset.
    pub sprite_index: Option<u32>,
    /// Sub-objects of the source tile's embedded object group, tile-local.
    pub children: Vec<SubObject>,
}

/// View of [`Object`].
pub ghost struct ObjectView {
    pub shape: ObjectShapeView,
    pub props: Seq<Property>,
    pub position: (i64, i64),
    pub size: (i64, i64),
    pub name: String,
    pub obj_type: String,
    pub visible: bool,
    pub gid: u32,
    pub tileset_gid: Option<u32>,
    pub sprite_index: Option<u32>,
    pub children: Seq<SubObjectView>,
}

impl View for Object {
    type V = ObjectView;

    open spec fn view(&self) -> ObjectView {
        ObjectView {
            shape: self.shape@,
            props: self.props@,
            position: self.position,
            size: self.size,
            name: self.name,
            obj_type: self.obj_type,
            visible: self.visible,
            gid: self.gid,
            tileset_gid: self.tileset_gid,
            sprite_index: self.sprite_index,
            children: self.children@.map_values(|c: SubObject| c@),
        }
    }
}

/// A resolved group of objects.
pub struct ObjectGroup {
    pub name: String,
    /// Opacity in thousandths (1000 = opaque).
    pub opacity_milli: u32,
    pub visible: bool,
    pub objects: Vec<Object>,
}

/// View of [`ObjectGroup`].
pub ghost struct ObjectGroupView {
    pub name: String,
    pub opacity_milli: u32,
    pub visible: bool,
    pub objects: Seq<ObjectView>,
}

impl View for ObjectGroup {
    type V = ObjectGroupView;

    open spec fn view(&self) -> ObjectGroupView {
        ObjectGroupView {
            name: self.name,
            opacity_milli: self.opacity_milli,
            visible: self.visible,
            objects: self.objects@.map_values(|o: Object| o@),
        }
    }
}

// --- exact copies of document values ------------------------------------

/// Copies a property value; the copy equals the original.
fn clone_property_value(v: &PropertyValue) -> (r: PropertyValue)
    ensures
        r == *v,
{
    match v {
        PropertyValue::BoolValue(b) => PropertyValue::BoolValue(*b),
        PropertyValue::IntValue(i) => PropertyValue::IntValue(*i),
        PropertyValue::FloatBits(f) => PropertyValue::FloatBits(*f),
        PropertyValue::StringValue(s) => PropertyValue::StringValue(s.clone()),
        PropertyValue::ColorValue(c) => PropertyValue::ColorValue(*c),
    }
}

/// Copies a property list; the copy equals the original element for
/// element.
fn clone_properties(props: &Vec<Property>) -> (r: Vec<Property>)
    ensures
        r@ == props@,
{
    let mut out: Vec<Property> = Vec::new();
    let n = props.len();
    let mut i: usize = 0;
    while i < n
        invariant
            n == props@.len(),
            i <= n,
            out@ == props@.take(i as int),
        decreases n - i,
    {
        let p = &props[i];
        out.push(Property { key: p.key.clone(), value: clone_property_value(&p.value) });
        i = i + 1;
        proof {
            assert(out@ =~= props@.take(i as int));
        }
    }
    proof {
        assert(props@.take(n as int) =~= props@);
    }
    out
}

/// Copies a point list; the copy equals the original element for element.
fn clone_points(points: &Vec<(i64, i64)>) -> (r: Vec<(i64, i64)>)
    ensures
        r@ == points@,
{
    let mut out: Vec<(i64, i64)> = Vec::new();
    let n = points.len();
    let mut i: usize = 0;
    while i < n
        invariant
            n == points@.len(),
            i <= n,
            out@ == points@.take(i as int),
        decreases n - i,
    {
        let p = points[i];
        out.push(p);
        i = i + 1;
        proof {
            assert(out@ =~= points@.take(i as int));
        }
    }
    proof {
        assert(points@.take(n as int) =~= points@);
    }
    out
}

/// Copies a shape; the copy's view equals the original's.
fn clone_shape(shape: &ObjectShape) -> (r: ObjectShape)
    ensures
        r@ == shape@,
{
    match shape {
        ObjectShape::Rect { width, height } => ObjectShape::Rect {
            width: *width,
            height: *height,
        },
        ObjectShape::Ellipse { width, height } => ObjectShape::Ellipse {
            width: *width,
            height: *height,
        },
        ObjectShape::Polyline { points } => ObjectShape::Polyline {
            points: clone_points(points),
        },
        ObjectShape::Polygon { points } => ObjectShape::Polygon { points: clone_points(points) },
        ObjectShape::Point(x, y) => ObjectShape::Point(*x, *y),
    }
}

// --- gid lookup ----------------------------------------------------------

/// True when the tileset's gid range contains the cleaned gid.
pub open spec fn spec_range_owns(ts: TilesetView, clean: u32) -> bool {
    ts.first_gid <= clean && (clean as int) < ts.first_gid + ts.tile_count
}

/// Index of the first tileset whose gid range contains the cleaned gid.
pub open spec fn spec_lookup_tileset(tss: Seq<TilesetView>, clean: u32) -> Option<int>
    decreases tss.len(),
{
    if tss.len() == 0 {
        None
    } else if spec_range_owns(tss[0], clean) {
        Some(0int)
    } else {
        match spec_lookup_tileset(tss.drop_first(), clean) {
            Some(i) => Some(i + 1),
            None => None,
        }
    }
}

/// A forward scan that stops at the first owning tileset finds exactly the
/// lookup result.
proof fn lemma_lookup_hit(tss: Seq<TilesetView>, clean: u32, i: int)
    requires
        0 <= i < tss.len(),
        spec_range_owns(tss[i], clean),
        forall|k: int| 0 <= k < i ==> !spec_range_owns(tss[k], clean),
    ensures
        spec_lookup_tileset(tss, clean) == Some(i),
    decreases i,
{
    if i > 0 {
        lemma_lookup_hit(tss.drop_first(), clean, i - 1);
    }
}

/// A scan that finds no owning tileset matches the lookup's `None`.
proof fn lemma_lookup_miss(tss: Seq<TilesetView>, clean: u32)
    requires
        forall|k: int| 0 <= k < tss.len() ==> !spec_range_owns(tss[k], clean),
    ensures
        spec_lookup_tileset(tss, clean) is None,
    decreases tss.len(),
{
    if tss.len() > 0 {
        lemma_lookup_miss(tss.drop_first(), clean);
    }
}

/// Finds the first tileset whose gid range contains the cleaned gid.
pub fn lookup_tileset(tilesets: &Vec<Tileset>, clean: u32) -> (r: Option<usize>)
    ensures
        match r {
            Some(i) => spec_lookup_tileset(
                tilesets@.map_values(|t: Tileset| t@),
                clean,
            ) == Some(i as int),
            None => spec_lookup_tileset(tilesets@.map_values(|t: Tileset| t@), clean) is None,
        },
{
    let ghost tss = tilesets@.map_values(|t: Tileset| t@);
    let n = tilesets.len();
    let mut i: usize = 0;
    while i < n
        invariant
            n == tilesets@.len(),
            tss == tilesets@.map_values(|t: Tileset| t@),
            i <= n,
            forall|k: int| 0 <= k < i ==> !spec_range_owns(tss[k], clean),
        decreases n - i,
    {
        let ts = &tilesets[i];
        if ts.first_gid <= clean && (clean as u64) < ts.first_gid as u64 + ts.tile_count as u64 {
            proof {
                lemma_lookup_hit(tss, clean, i as int);
            }
            return Some(i);
        }
        i = i + 1;
    }
    proof {
        lemma_lookup_miss(tss, clean);
    }
    None
}

/// Lookup success means the found index is in range and its range owns the
/// gid.
pub proof fn lemma_lookup_sound(tss: Seq<TilesetView>, clean: u32)
    ensures
        match spec_lookup_tileset(tss, clean) {
            Some(i) => 0 <= i < tss.len() && spec_range_owns(tss[i], clean),
            None => true,
        },
    decreases tss.len(),
{
    if tss.len() > 0 && !spec_range_owns(tss[0], clean) {
        lemma_lookup_sound(tss.drop_first(), clean);
    }
}

// --- object resolution ---------------------------------------------------

/// The tileset membership of a cleaned gid: the owning tileset's first gid
/// and the local sprite index, or `None` twice when no range contains it.
pub open spec fn spec_tile_ids(tss: Seq<TilesetView>, clean: u32) -> (Option<u32>, Option<u32>) {
    match spec_lookup_tileset(tss, clean) {
        Some(i) => (Some(tss[i].first_gid), Some((clean - tss[i].first_gid) as u32)),
        None => (None, None),
    }
}

/// A freshly created, unresolved object: flip bits stripped from the gid,
/// no tileset membership yet, no sub-objects.
pub open spec fn spec_object_base(raw: RawObjectView) -> ObjectView {
    ObjectView {
        shape: raw.shape,
        props: raw.properties,
        position: (raw.x, raw.y),
        size: (raw.width, raw.height),
        name: raw.name,
        obj_type: raw.obj_type,
        visible: raw.visible,
        gid: spec_clean_gid(raw.gid),
        tileset_gid: None,
        sprite_index: None,
        children: seq![],
    }
}

/// A resolved sub-object of a tile's embedded group.
pub open spec fn spec_sub_object(raw: RawObjectView, tss: Seq<TilesetView>) -> SubObjectView {
    let clean = spec_clean_gid(raw.gid);
    SubObjectView {
        shape: raw.shape,
        props: raw.properties,
        position: (raw.x, raw.y),
        size: (raw.width, raw.height),
        name: raw.name,
        obj_type: raw.obj_type,
        visible: raw.visible,
        gid: clean,
        tileset_gid: spec_tile_ids(tss, clean).0,
        sprite_index: spec_tile_ids(tss, clean).1,
    }
}

/// The metadata of the tile with local id `local`, if the tileset carries
/// any (first match in declaration order).
pub open spec fn spec_find_tile_meta(tiles: Seq<TileMetaView>, local: u32) -> Option<TileMetaView>
    decreases tiles.len(),
{
    if tiles.len() == 0 {
        None
    } else if tiles[0].id == local {
        Some(tiles[0])
    } else {
        spec_find_tile_meta(tiles.drop_first(), local)
    }
}

/// The resolved sub-objects a tile object inherits from its source tile's
/// embedded object group; empty when the gid maps to no tileset or the
/// tile carries no metadata.
pub open spec fn spec_tile_children(clean: u32, tss: Seq<TilesetView>) -> Seq<SubObjectView> {
    match spec_lookup_tileset(tss, clean) {
        None => seq![],
        Some(i) => {
            let ts = tss[i];
            match spec_find_tile_meta(ts.tiles, (clean - ts.first_gid) as u32) {
                None => seq![],
                Some(meta) => meta.objects.map_values(|o: RawObjectView| spec_sub_object(o, tss)),
            }
        },
    }
}

/// A fully resolved object: tileset membership and, when the gid maps into
/// a tileset, the sub-objects of the source tile.
pub open spec fn spec_resolved_object(raw: RawObjectView, tss: Seq<TilesetView>) -> ObjectView {
    let base = spec_object_base(raw);
    let clean = spec_clean_gid(raw.gid);
    if spec_lookup_tileset(tss, clean) is Some {
        ObjectView {
            tileset_gid: spec_tile_ids(tss, clean).0,
            sprite_index: spec_tile_ids(tss, clean).1,
            children: spec_tile_children(clean, tss),
            ..base
        }
    } else {
        base
    }
}

/// A forward scan that stops at the first matching tile id finds exactly
/// what the spec lookup finds.
proof fn lemma_find_meta_hit(tiles: Seq<TileMetaView>, local: u32, i: int)
    requires
        0 <= i < tiles.len(),
        tiles[i].id == local,
        forall|k: int| 0 <= k < i ==> tiles[k].id != local,
    ensures
        spec_find_tile_meta(tiles, local) == Some(tiles[i]),
    decreases i,
{
    if i > 0 {
        lemma_find_meta_hit(tiles.drop_first(), local, i - 1);
    }
}

/// A scan that finds no matching tile id matches the spec lookup's `None`.
proof fn lemma_find_meta_miss(tiles: Seq<TileMetaView>, local: u32)
    requires
        forall|k: int| 0 <= k < tiles.len() ==> tiles[k].id != local,
    ensures
        spec_find_tile_meta(tiles, local) is None,
    decreases tiles.len(),
{
    if tiles.len() > 0 {
        lemma_find_meta_miss(tiles.drop_first(), local);
    }
}

/// Finds the index of the tile metadata entry with local id `local`.
fn find_tile_meta(tileset: &Tileset, local: u32) -> (r: Option<usize>)
    ensures
        match r {
            Some(mi) => mi < tileset.tiles@.len() && spec_find_tile_meta(
                tileset@.tiles,
                local,
            ) == Some(tileset@.tiles[mi as int]),
            None => spec_find_tile_meta(tileset@.tiles, local) is None,
        },
{
    let n = tileset.tiles.len();
    let mut i: usize = 0;
    while i < n
        invariant
            n == tileset.tiles@.len(),
            i <= n,
            forall|k: int| 0 <= k < i ==> tileset@.tiles[k].id != local,
        decreases n - i,
    {
        if tileset.tiles[i].id == local {
            proof {
                lemma_find_meta_hit(tileset@.tiles, local, i as int);
            }
            return Some(i);
        }
        i = i + 1;
    }
    proof {
        lemma_find_meta_miss(tileset@.tiles, local);
    }
    None
}

/// Resolves one raw sub-object of a tile's embedded group.
fn sub_object_from(raw: &RawObject, tilesets: &Vec<Tileset>) -> (r: SubObject)
    ensures
        r@ == spec_sub_object(raw@, tilesets@.map_values(|t: Tileset| t@)),
{
    let ghost tss = tilesets@.map_values(|t: Tileset| t@);
    let clean = remove_tile_flags(raw.gid);
    let (tileset_gid, sprite_index) = match lookup_tileset(tilesets, clean) {
        Some(i) => {
            proof {
                lemma_lookup_sound(tss, clean);
            }
            let first = tilesets[i].first_gid;
            (Some(first), Some(clean - first))
        },
        None => (None, None),
    };
    SubObject {
        shape: clone_shape(&raw.shape),
        props: clone_properties(&raw.properties),
        position: (raw.x, raw.y),
        size: (raw.width, raw.height),
        name: raw.name.clone(),
        obj_type: raw.obj_type.clone(),
        visible: raw.visible,
        gid: clean,
        tileset_gid,
        sprite_index,
    }
}

/// Resolves the sub-objects a tile object inherits from its source tile.
fn tile_children(clean: u32, tilesets: &Vec<Tileset>) -> (r: Vec<SubObject>)
    ensures
        r@.map_values(|c: SubObject| c@) == spec_tile_children(
            clean,
            tilesets@.map_values(|t: Tileset| t@),
        ),
{
    let ghost tss = tilesets@.map_values(|t: Tileset| t@);
    let mut out: Vec<SubObject> = Vec::new();
    if let Some(i) = lookup_tileset(tilesets, clean) {
        proof {
            lemma_lookup_sound(tss, clean);
        }
        let ts = &tilesets[i];
        let local = clean - ts.first_gid;
        if let Some(mi) = find_tile_meta(ts, local) {
            let n = ts.tiles[mi].objects.len();
            let mut k: usize = 0;
            while k < n
                invariant
                    0 <= i < tilesets@.len(),
                    tss == tilesets@.map_values(|t: Tileset| t@),
                    *ts == tilesets@[i as int],
                    mi < ts.tiles@.len(),
                    n == ts.tiles@[mi as int].objects@.len(),
                    spec_find_tile_meta((*ts)@.tiles, local) == Some((*ts)@.tiles[mi as int]),
                    k <= n,
                    out@.map_values(|c: SubObject| c@) == ts.tiles@[mi as int].objects@.take(
                        k as int,
                    ).map_values(|o: RawObject| spec_sub_object(o@, tss)),
                decreases n - k,
            {
                let ghost prev = out@;
                let sub = sub_object_from(&ts.tiles[mi].objects[k], tilesets);
                out.push(sub);
                k = k + 1;
                proof {
                    let f = |c: SubObject| c@;
                    let g = |o: RawObject| spec_sub_object(o@, tss);
                    prev.lemma_push_map_commute(f, sub);
                    ts.tiles@[mi as int].objects@.lemma_map_take_succ(g, k - 1);
                    assert(out@.map_values(f) == ts.tiles@[mi as int].objects@.take(
                        k as int,
                    ).map_values(g));
                }
            }
            proof {
                let objs = ts.tiles@[mi as int].objects@;
                assert(objs.take(n as int) =~= objs);
                assert(tss[i as int] == (*ts)@);
                assert(spec_find_tile_meta(tss[i as int].tiles, local)
                    == Some(tss[i as int].tiles[mi as int]));
                assert(tss[i as int].tiles[mi as int].objects =~= objs.map_values(
                    |o: RawObject| o@,
                ));
                assert(objs.map_values(|o: RawObject| spec_sub_object(o@, tss)) =~= objs.map_values(
                    |o: RawObject| o@,
                ).map_values(|o: RawObjectView| spec_sub_object(o, tss)));
            }
        } else {
            proof {
                assert(out@.map_values(|c: SubObject| c@) =~= Seq::<SubObjectView>::empty());
            }
        }
    } else {
        proof {
            assert(out@.map_values(|c: SubObject| c@) =~= Seq::<SubObjectView>::empty());
        }
    }
    out
}

impl Object {
    /// Creates an unresolved object from a raw one: strips the flip bits
    /// from the gid and carries every other field over unchanged.
    pub fn new(raw: &RawObject) -> (r: Object)
        ensures
            r@ == spec_object_base(raw@),
    {
        let r = Object {
            shape: clone_shape(&raw.shape),
            props: clone_properties(&raw.properties),
            position: (raw.x, raw.y),
            size: (raw.width, raw.height),
            name: raw.name.clone(),
            obj_type: raw.obj_type.clone(),
            visible: raw.visible,
            gid: remove_tile_flags(raw.gid),
            tileset_gid: None,
            sprite_index: None,
            children: Vec::new(),
        };
        proof {
            assert(r@.children =~= Seq::<SubObjectView>::empty());
        }
        r
    }

    /// True for plain shape objects: those that resolve to no tileset.
    pub fn is_shape(&self) -> (r: bool)
        ensures
            r == (self.tileset_gid is None),
    {
        self.tileset_gid.is_none()
    }

    /// Resolves the tileset membership of this object's gid against the
    /// map's tilesets; the membership fields are overwritten, everything
    /// else is kept.
    pub fn set_tile_ids(&mut self, tilesets: &Vec<Tileset>)
        ensures
            final(self)@ == (ObjectView {
                tileset_gid: spec_tile_ids(
                    tilesets@.map_values(|t: Tileset| t@),
                    old(self).gid,
                ).0,
                sprite_index: spec_tile_ids(
                    tilesets@.map_values(|t: Tileset| t@),
                    old(self).gid,
                ).1,
                ..old(self)@
            }),
    {
        let ghost tss = tilesets@.map_values(|t: Tileset| t@);
        match lookup_tileset(tilesets, self.gid) {
            Some(i) => {
                proof {
                    lemma_lookup_sound(tss, self.gid);
                }
                let first = tilesets[i].first_gid;
                self.tileset_gid = Some(first);
                self.sprite_index = Some(self.gid - first);
            },
            None => {
                self.tileset_gid = None;
                self.sprite_index = None;
            },
        }
    }

    /// Creates a fully resolved object: membership resolved, and for tile
    /// objects the source tile's embedded sub-objects attached.
    pub fn new_with_tile_ids(raw: &RawObject, tilesets: &Vec<Tileset>) -> (r: Object)
        ensures
            r@ == spec_resolved_object(raw@, tilesets@.map_values(|t: Tileset| t@)),
    {
        let mut o = Object::new(raw);
        o.set_tile_ids(tilesets);
        if o.tileset_gid.is_some() {
            o.children = tile_children(o.gid, tilesets);
        }
        o
    }

    /// The object's drawable size: the shape's declared size for boxes and
    /// ellipses, a 1 by 1 placeholder for line, polygon and point shapes.
    pub fn dimensions(&self) -> (r: Option<(i64, i64)>)
        ensures
            r == Some(spec_dimensions(self.shape@)),
    {
        match &self.shape {
            ObjectShape::Rect { width, height } => Some((*width, *height)),
            ObjectShape::Ellipse { width, height } => Some((*width, *height)),
            ObjectShape::Polyline { points: _ } => Some((1, 1)),
            ObjectShape::Polygon { points: _ } => Some((1, 1)),
            ObjectShape::Point(_, _) => Some((1, 1)),
        }
    }
}

impl ObjectGroup {
    /// Resolves a whole raw group: every object gets its tileset
    /// membership and, when it is a tile object, its sub-objects.
    pub fn new_with_tile_ids(group: &RawObjectGroup, tilesets: &Vec<Tileset>) -> (r: ObjectGroup)
        ensures
            r@ == spec_object_group(group@, tilesets@.map_values(|t: Tileset| t@)),
    {
        let ghost tss = tilesets@.map_values(|t: Tileset| t@);
        let mut objects: Vec<Object> = Vec::new();
        let n = group.objects.len();
        let mut i: usize = 0;
        while i < n
            invariant
                n == group.objects@.len(),
                i <= n,
                tss == tilesets@.map_values(|t: Tileset| t@),
                objects@.map_values(|o: Object| o@) == group.objects@.take(i as int).map_values(
                    |o: RawObject| spec_resolved_object(o@, tss),
                ),
            decreases n - i,
        {
            let ghost prev = objects@;
            let o = Object::new_with_tile_ids(&group.objects[i], tilesets);
            objects.push(o);
            i = i + 1;
            proof {
                let f = |o: Object| o@;
                let g = |o: RawObject| spec_resolved_object(o@, tss);
                prev.lemma_push_map_commute(f, o);
                group.objects@.lemma_map_take_succ(g, i - 1);
                assert(objects@.map_values(f) == group.objects@.take(i as int).map_values(g));
            }
        }
        let r = ObjectGroup {
            name: group.name.clone(),
            opacity_milli: group.opacity_milli,
            visible: group.visible,
            objects,
        };
        proof {
            assert(group.objects@.take(n as int) =~= group.objects@);
            assert(group@.objects =~= group.objects@.map_values(|o: RawObject| o@));
            assert(group.objects@.map_values(|o: RawObject| spec_resolved_object(o@, tss))
                =~= group@.objects.map_values(|o: RawObjectView| spec_resolved_object(o, tss)));
        }
        r
    }
}

// --- placement -----------------------------------------------------------

/// Placement of one object relative to the map transform: a translation in
/// subpixel steps (see [`crate::geometry::SUBPIXELS`]), an exact depth
/// offset, and, for tile objects, an extra per-axis scale factor.
#[derive(Clone, Copy, Debug)]
pub struct ObjectTransform {
    /// Offset from the map transform, in subpixel steps.
    pub translation: (i64, i64),
    /// Depth offset from the map transform: lower-on-screen objects draw in
    /// front, one depth unit per 2000 pixels of height, within a 15-unit
    /// band (so the scheme assumes maps under 20000 pixels of height, twice
    /// 15 units of 2000 pixels, a documented limitation).
    pub depth: Ratio,
    /// Extra scale (declared size over source tile size) for tile objects.
    pub scale: Option<(Ratio, Ratio)>,
}

/// The drawable size of a shape: its declared size for boxes and
/// ellipses, a 1 by 1 placeholder for line, polygon and point shapes.
pub open spec fn spec_dimensions(shape: ObjectShapeView) -> (i64, i64) {
    match shape {
        ObjectShapeView::Rect { width, height } => (width, height),
        ObjectShapeView::Ellipse { width, height } => (width, height),
        _ => (1i64, 1i64),
    }
}

impl ObjectView {
    /// Coordinate bounds under which placement arithmetic is exact
    /// (machine limits, matching the raw object bounds).
    pub open spec fn coords_bounded(self) -> bool {
        &&& -MAX_OBJECT_COORD <= self.position.0 <= MAX_OBJECT_COORD
        &&& -MAX_OBJECT_COORD <= self.position.1 <= MAX_OBJECT_COORD
        &&& match self.shape {
            ObjectShapeView::Rect { width, height } => {
                &&& -MAX_OBJECT_COORD <= width <= MAX_OBJECT_COORD
                &&& -MAX_OBJECT_COORD <= height <= MAX_OBJECT_COORD
            },
            ObjectShapeView::Ellipse { width, height } => {
                &&& -MAX_OBJECT_COORD <= width <= MAX_OBJECT_COORD
                &&& -MAX_OBJECT_COORD <= height <= MAX_OBJECT_COORD
            },
            _ => true,
        }
    }
}

/// The placement of an object relative to the map transform.
///
/// Box and ellipse objects anchor at their top-left corner, tile objects
/// at their bottom-left corner (`tile_scale` present tells the two
/// apart); either way the translation moves the anchor to the quad's
/// centre, half the declared size right and towards the quad's middle,
/// and the depth falls with the centre's height on screen.  Line, polygon
/// and point shapes keep the map transform unchanged: no quad is
/// synthesised for them.
pub open spec fn spec_transform_from_map(
    o: ObjectView,
    tile_scale: Option<(Ratio, Ratio)>,
) -> ObjectTransform {
    match o.shape {
        ObjectShapeView::Rect { width, height }
        | ObjectShapeView::Ellipse { width, height } => {
            let cx = 4 * o.position.0 + 2 * width;
            let cy = if tile_scale is None {
                -(4 * o.position.1) - 2 * height
            } else {
                -(4 * o.position.1) + 2 * height
            };
            ObjectTransform {
                translation: (cx as i64, cy as i64),
                depth: Ratio { num: (120000 - cy) as i64, den: 8000 },
                scale: tile_scale,
            }
        },
        _ => ObjectTransform {
            translation: (0i64, 0i64),
            depth: Ratio { num: 0, den: 1 },
            scale: None,
        },
    }
}

/// Index of the first tileset declaring the given first gid.
pub open spec fn spec_find_tileset_by_first(tss: Seq<TilesetView>, first: u32) -> Option<int>
    decreases tss.len(),
{
    if tss.len() == 0 {
        None
    } else if tss[0].first_gid == first {
        Some(0int)
    } else {
        match spec_find_tileset_by_first(tss.drop_first(), first) {
            Some(i) => Some(i + 1),
            None => None,
        }
    }
}

proof fn lemma_find_first_hit(tss: Seq<TilesetView>, first: u32, i: int)
    requires
        0 <= i < tss.len(),
        tss[i].first_gid == first,
        forall|k: int| 0 <= k < i ==> tss[k].first_gid != first,
    ensures
        spec_find_tileset_by_first(tss, first) == Some(i),
    decreases i,
{
    if i > 0 {
        lemma_find_first_hit(tss.drop_first(), first, i - 1);
    }
}

proof fn lemma_find_first_miss(tss: Seq<TilesetView>, first: u32)
    requires
        forall|k: int| 0 <= k < tss.len() ==> tss[k].first_gid != first,
    ensures
        spec_find_tileset_by_first(tss, first) is None,
    decreases tss.len(),
{
    if tss.len() > 0 {
        lemma_find_first_miss(tss.drop_first(), first);
    }
}

/// A found index is in range and names the right tileset.
pub proof fn lemma_find_first_sound(tss: Seq<TilesetView>, first: u32)
    ensures
        match spec_find_tileset_by_first(tss, first) {
            Some(i) => 0 <= i < tss.len() && tss[i].first_gid == first,
            None => true,
        },
    decreases tss.len(),
{
    if tss.len() > 0 && tss[0].first_gid != first {
        lemma_find_first_sound(tss.drop_first(), first);
    }
}

/// Finds the first tileset declaring the given first gid.
pub fn find_tileset_by_first(tilesets: &Vec<Tileset>, first: u32) -> (r: Option<usize>)
    ensures
        match r {
            Some(i) => spec_find_tileset_by_first(
                tilesets@.map_values(|t: Tileset| t@),
                first,
            ) == Some(i as int),
            None => spec_find_tileset_by_first(
                tilesets@.map_values(|t: Tileset| t@),
                first,
            ) is None,
        },
{
    let ghost tss = tilesets@.map_values(|t: Tileset| t@);
    let n = tilesets.len();
    let mut i: usize = 0;
    while i < n
        invariant
            n == tilesets@.len(),
            tss == tilesets@.map_values(|t: Tileset| t@),
            i <= n,
            forall|k: int| 0 <= k < i ==> tss[k].first_gid != first,
        decreases n - i,
    {
        if tilesets[i].first_gid == first {
            proof {
                lemma_find_first_hit(tss, first, i as int);
            }
            return Some(i);
        }
        i = i + 1;
    }
    proof {
        lemma_find_first_miss(tss, first);
    }
    None
}

/// The placement of an object, with the tile scale worked out from its
/// tileset: for a tile object with a sheet image, the declared size over
/// the source tile size, per axis.
pub open spec fn spec_placement(o: ObjectView, tss: Seq<TilesetView>) -> ObjectTransform {
    match o.tileset_gid {
        None => spec_transform_from_map(o, None),
        Some(first) => match spec_find_tileset_by_first(tss, first) {
            None => spec_transform_from_map(o, None),
            Some(ti) => {
                let ts = tss[ti];
                let dims = spec_dimensions(o.shape);
                let tile_scale = if ts.images.len() > 0 {
                    Some(
                        (
                            Ratio { num: dims.0, den: ts.tile_width as i64 },
                            Ratio { num: dims.1, den: ts.tile_height as i64 },
                        ),
                    )
                } else {
                    None
                };
                spec_transform_from_map(o, tile_scale)
            },
        },
    }
}

impl Object {
    /// The placement of this object relative to the map transform.
    ///
    /// Box and ellipse objects demand an orthogonal map (placing them on
    /// other orientations is unsupported), and a tile object demands that
    /// its resolved tileset is present — a missing one is a compile/spawn
    /// inconsistency, ruled out by precondition rather than papered over.
    pub fn transform_from_map(
        &self,
        map_orientation: Orientation,
        tile_scale: Option<(Ratio, Ratio)>,
    ) -> (r: ObjectTransform)
        requires
            self@.coords_bounded(),
            self.shape@ is Rect || self.shape@ is Ellipse ==> map_orientation
                == Orientation::Orthogonal,
        ensures
            r == spec_transform_from_map(self@, tile_scale),
    {
        match &self.shape {
            ObjectShape::Rect { width, height } | ObjectShape::Ellipse { width, height } => {
                let w = *width;
                let h = *height;
                let cx = 4 * self.position.0 + 2 * w;
                let cy = if tile_scale.is_none() {
                    -(4 * self.position.1) - 2 * h
                } else {
                    -(4 * self.position.1) + 2 * h
                };
                ObjectTransform {
                    translation: (cx, cy),
                    depth: Ratio { num: 120000 - cy, den: 8000 },
                    scale: tile_scale,
                }
            },
            _ => ObjectTransform {
                translation: (0, 0),
                depth: Ratio { num: 0, den: 1 },
                scale: None,
            },
        }
    }

    /// The placement of this object, with the tile scale worked out from
    /// its resolved tileset.
    pub fn placement(&self, tilesets: &Vec<Tileset>, map_orientation: Orientation) -> (r:
        ObjectTransform)
        requires
            self@.coords_bounded(),
            self.shape@ is Rect || self.shape@ is Ellipse ==> map_orientation
                == Orientation::Orthogonal,
            self.tileset_gid matches Some(first) ==> spec_find_tileset_by_first(
                tilesets@.map_values(|t: Tileset| t@),
                first,
            ) is Some,
        ensures
            r == spec_placement(self@, tilesets@.map_values(|t: Tileset| t@)),
    {
        let ghost tss = tilesets@.map_values(|t: Tileset| t@);
        match self.tileset_gid {
            None => self.transform_from_map(map_orientation, None),
            Some(first) => {
                proof {
                    lemma_find_first_sound(tss, first);
                }
                match find_tileset_by_first(tilesets, first) {
                    None => self.transform_from_map(map_orientation, None),
                    Some(ti) => {
                        let ts = &tilesets[ti];
                        let dims = match self.dimensions() {
                            Some(d) => d,
                            None => (1, 1),
                        };
                        let tile_scale = if ts.images.len() > 0 {
                            Some(
                                (
                                    Ratio { num: dims.0, den: ts.tile_width as i64 },
                                    Ratio { num: dims.1, den: ts.tile_height as i64 },
                                ),
                            )
                        } else {
                            None
                        };
                        self.transform_from_map(map_orientation, tile_scale)
                    },
                }
            },
        }
    }
}

/// A resolved group: same name, opacity and visibility, every object
/// resolved.
pub open spec fn spec_object_group(
    group: RawObjectGroupView,
    tss: Seq<TilesetView>,
) -> ObjectGroupView {
    ObjectGroupView {
        name: group.name,
        opacity_milli: group.opacity_milli,
        visible: group.visible,
        objects: group.objects.map_values(|o: RawObjectView| spec_resolved_object(o, tss)),
    }
}

} // verus!
