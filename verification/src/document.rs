//! The parsed map document: the compiler's input.
//!
//! A document mirrors what the external TMX parser hands over, with every
//! quantity reduced to plain integers: pixel lengths, tile counts, raw gids.
//! The host converts the parser's output into this model before calling the
//! compiler; everything the compiler reads is therefore exact.

use vstd::prelude::*;

use crate::animation::Frame;
use crate::geometry::Orientation;

verus! {

/// Largest pixel coordinate magnitude an object may carry (machine limit:
/// keeps placement arithmetic inside `i64`).
pub const MAX_OBJECT_COORD: i64 = 0x4000_0000;

/// Largest sprite-sheet edge, in pixels, a tileset image may declare
/// (machine limit, far beyond any real texture).
pub const MAX_IMAGE_DIM: u32 = 0x10_0000;

/// One image of a tileset: the sprite sheet's pixel dimensions and its
/// source path, relative to the map file.
pub struct TsImage {
    pub width: u32,
    pub height: u32,
    pub source: String,
}

/// Extra metadata a tileset may attach to one of its tiles: an animation
/// (frame sequence) and an embedded group of sub-objects.
pub struct TileMeta {
    /// Local tile id within the tileset (0-based).
    pub id: u32,
    /// Animation frames, empty when the tile is not animated.
    pub animation: Vec<Frame>,
    /// Sub-objects embedded in the tile definition, in tile-local pixel
    /// coordinates.
    pub objects: Vec<RawObject>,
}

/// A tileset: a sprite sheet plus the metadata needed to resolve gids.
pub struct Tileset {
    /// First global id owned by this tileset; it owns
    /// `[first_gid, first_gid + tile_count)`.
    pub first_gid: u32,
    /// Number of tiles the tileset owns.
    pub tile_count: u32,
    /// Width of one tile, in pixels.
    pub tile_width: u32,
    /// Height of one tile, in pixels.
    pub tile_height: u32,
    /// Pixels between neighbouring tiles on the sheet.
    pub spacing: u32,
    /// The sprite-sheet images; a tileset with none is rejected at compile
    /// time.
    pub images: Vec<TsImage>,
    /// Per-tile metadata, only for tiles that carry any.
    pub tiles: Vec<TileMeta>,
}

/// The cell grid of one tile layer.  Only the finite representation is
/// supported; a document holding an infinite (chunked, streamed) layer is
/// rejected at compile time.
pub enum LayerData {
    /// Row-major raw gids, `width * height` cells.
    Finite(Vec<u32>),
    /// Marker for the unsupported infinite representation.
    Infinite,
}

/// One tile layer of the map.
pub struct TileLayer {
    pub visible: bool,
    pub data: LayerData,
}

/// A property value carried verbatim through compilation.  Floating-point
/// properties travel as their raw bit pattern; the host interprets them.
pub enum PropertyValue {
    BoolValue(bool),
    IntValue(i64),
    FloatBits(u32),
    StringValue(String),
    ColorValue(u32),
}

/// One named property of an object.
pub struct Property {
    pub key: String,
    pub value: PropertyValue,
}

/// The shape of a placed object.
pub enum ObjectShape {
    Rect { width: i64, height: i64 },
    Ellipse { width: i64, height: i64 },
    Polyline { points: Vec<(i64, i64)> },
    Polygon { points: Vec<(i64, i64)> },
    Point(i64, i64),
}

/// A raw object as the parser delivers it: pixel position and size, raw gid
/// (0 for plain shapes), and its property bag.
pub struct RawObject {
    pub shape: ObjectShape,
    /// Pixel position of the object's anchor (top-left for shapes,
    /// bottom-left for tile objects).
    pub x: i64,
    pub y: i64,
    /// Declared pixel size.
    pub width: i64,
    pub height: i64,
    /// Raw gid with flip bits; 0 for non-tile objects.
    pub gid: u32,
    pub visible: bool,
    pub name: String,
    pub obj_type: String,
    pub properties: Vec<Property>,
}

/// A named group of raw objects.
pub struct RawObjectGroup {
    pub name: String,
    /// Opacity in thousandths (1000 = opaque).
    pub opacity_milli: u32,
    pub visible: bool,
    pub objects: Vec<RawObject>,
}

/// A parsed map document: everything the compiler consumes.
pub struct MapDocument {
    pub orientation: Orientation,
    /// Map size in tiles.
    pub width: u32,
    pub height: u32,
    /// Grid tile size in pixels.
    pub tile_width: u32,
    pub tile_height: u32,
    pub tilesets: Vec<Tileset>,
    pub layers: Vec<TileLayer>,
    pub object_groups: Vec<RawObjectGroup>,
}

// --- mathematical views -------------------------------------------------

/// View of [`TileMeta`].
pub ghost struct TileMetaView {
    pub id: u32,
    pub animation: Seq<Frame>,
    pub objects: Seq<RawObjectView>,
}

/// View of [`Tileset`].
pub ghost struct TilesetView {
    pub first_gid: u32,
    pub tile_count: u32,
    pub tile_width: u32,
    pub tile_height: u32,
    pub spacing: u32,
    pub images: Seq<TsImage>,
    pub tiles: Seq<TileMetaView>,
}

/// View of [`LayerData`].
pub ghost enum LayerDataView {
    Finite(Seq<u32>),
    Infinite,
}

/// View of [`TileLayer`].
pub ghost struct TileLayerView {
    pub visible: bool,
    pub data: LayerDataView,
}

/// View of [`ObjectShape`].
pub ghost enum ObjectShapeView {
    Rect { width: i64, height: i64 },
    Ellipse { width: i64, height: i64 },
    Polyline { points: Seq<(i64, i64)> },
    Polygon { points: Seq<(i64, i64)> },
    Point(i64, i64),
}

/// View of [`RawObject`].
pub ghost struct RawObjectView {
    pub shape: ObjectShapeView,
    pub x: i64,
    pub y: i64,
    pub width: i64,
    pub height: i64,
    pub gid: u32,
    pub visible: bool,
    pub name: String,
    pub obj_type: String,
    pub properties: Seq<Property>,
}

/// View of [`RawObjectGroup`].
pub ghost struct RawObjectGroupView {
    pub name: String,
    pub opacity_milli: u32,
    pub visible: bool,
    pub objects: Seq<RawObjectView>,
}

/// View of [`MapDocument`].
pub ghost struct MapDocumentView {
    pub orientation: Orientation,
    pub width: u32,
    pub height: u32,
    pub tile_width: u32,
    pub tile_height: u32,
    pub tilesets: Seq<TilesetView>,
    pub layers: Seq<TileLayerView>,
    pub object_groups: Seq<RawObjectGroupView>,
}

impl View for ObjectShape {
    type V = ObjectShapeView;

    open spec fn view(&self) -> ObjectShapeView {
        match self {
            ObjectShape::Rect { width, height } => ObjectShapeView::Rect {
                width: *width,
                height: *height,
            },
            ObjectShape::Ellipse { width, height } => ObjectShapeView::Ellipse {
                width: *width,
                height: *height,
            },
            ObjectShape::Polyline { points } => ObjectShapeView::Polyline { points: points@ },
            ObjectShape::Polygon { points } => ObjectShapeView::Polygon { points: points@ },
            ObjectShape::Point(x, y) => ObjectShapeView::Point(*x, *y),
        }
    }
}

impl View for RawObject {
    type V = RawObjectView;

    open spec fn view(&self) -> RawObjectView {
        RawObjectView {
            shape: self.shape@,
            x: self.x,
            y: self.y,
            width: self.width,
            height: self.height,
            gid: self.gid,
            visible: self.visible,
            name: self.name,
            obj_type: self.obj_type,
            properties: self.properties@,
        }
    }
}

impl View for RawObjectGroup {
    type V = RawObjectGroupView;

    open spec fn view(&self) -> RawObjectGroupView {
        RawObjectGroupView {
            name: self.name,
            opacity_milli: self.opacity_milli,
            visible: self.visible,
            objects: self.objects@.map_values(|o: RawObject| o@),
        }
    }
}

impl View for TileMeta {
    type V = TileMetaView;

    open spec fn view(&self) -> TileMetaView {
        TileMetaView {
            id: self.id,
            animation: self.animation@,
            objects: self.objects@.map_values(|o: RawObject| o@),
        }
    }
}

impl View for Tileset {
    type V = TilesetView;

    open spec fn view(&self) -> TilesetView {
        TilesetView {
            first_gid: self.first_gid,
            tile_count: self.tile_count,
            tile_width: self.tile_width,
            tile_height: self.tile_height,
            spacing: self.spacing,
            images: self.images@,
            tiles: self.tiles@.map_values(|t: TileMeta| t@),
        }
    }
}

impl View for LayerData {
    type V = LayerDataView;

    open spec fn view(&self) -> LayerDataView {
        match self {
            LayerData::Finite(cells) => LayerDataView::Finite(cells@),
            LayerData::Infinite => LayerDataView::Infinite,
        }
    }
}

impl View for TileLayer {
    type V = TileLayerView;

    open spec fn view(&self) -> TileLayerView {
        TileLayerView { visible: self.visible, data: self.data@ }
    }
}

impl View for MapDocument {
    type V = MapDocumentView;

    open spec fn view(&self) -> MapDocumentView {
        MapDocumentView {
            orientation: self.orientation,
            width: self.width,
            height: self.height,
            tile_width: self.tile_width,
            tile_height: self.tile_height,
            tilesets: self.tilesets@.map_values(|t: Tileset| t@),
            layers: self.layers@.map_values(|l: TileLayer| l@),
            object_groups: self.object_groups@.map_values(|g: RawObjectGroup| g@),
        }
    }
}

// --- well-formedness ----------------------------------------------------

impl TilesetView {
    /// Dimension bounds a well-formed tileset obeys.  They are machine
    /// limits (exact `i64` arithmetic), not map-format limits: no real
    /// sprite sheet comes near them.  A sheet narrower than one tile column
    /// is ruled out because the column formula presupposes at least one
    /// column.
    pub open spec fn wf(self) -> bool {
        &&& 1 <= self.tile_width <= crate::geometry::MAX_TILE_DIM
        &&& 1 <= self.tile_height <= crate::geometry::MAX_TILE_DIM
        &&& self.spacing <= crate::geometry::MAX_TILE_DIM
        &&& 1 <= self.first_gid
        &&& self.first_gid + self.tile_count <= 0x2000_0000
        &&& forall|i: int|
            0 <= i < self.images.len() ==> {
                &&& 1 <= (#[trigger] self.images[i]).width <= MAX_IMAGE_DIM
                &&& 1 <= self.images[i].height <= MAX_IMAGE_DIM
                &&& self.images[i].width >= self.tile_width
            }
        &&& forall|i: int|
            0 <= i < self.tiles.len() ==> (#[trigger] self.tiles[i]).wf()
    }
}

impl TileMetaView {
    /// Every embedded sub-object is well formed.
    pub open spec fn wf(self) -> bool {
        forall|i: int| 0 <= i < self.objects.len() ==> (#[trigger] self.objects[i]).wf()
    }
}

impl RawObjectView {
    /// Coordinate bounds a well-formed object obeys (machine limits for
    /// exact placement arithmetic).
    pub open spec fn wf(self) -> bool {
        &&& -MAX_OBJECT_COORD <= self.x <= MAX_OBJECT_COORD
        &&& -MAX_OBJECT_COORD <= self.y <= MAX_OBJECT_COORD
        &&& -MAX_OBJECT_COORD <= self.width <= MAX_OBJECT_COORD
        &&& -MAX_OBJECT_COORD <= self.height <= MAX_OBJECT_COORD
        &&& match self.shape {
            ObjectShapeView::Rect { width, height } => {
                &&& -MAX_OBJECT_COORD <= width <= MAX_OBJECT_COORD
                &&& -MAX_OBJECT_COORD <= height <= MAX_OBJECT_COORD
            },
            ObjectShapeView::Ellipse { width, height } => {
                &&& -MAX_OBJECT_COORD <= width <= MAX_OBJECT_COORD
                &&& -MAX_OBJECT_COORD <= height <= MAX_OBJECT_COORD
            },
            _ => true,
        }
    }
}

impl RawObjectGroupView {
    /// Every object of the group is well formed.
    pub open spec fn wf(self) -> bool {
        forall|i: int| 0 <= i < self.objects.len() ==> (#[trigger] self.objects[i]).wf()
    }
}

impl MapDocumentView {
    /// The raw gid of the cell `(x, y)` of `grid`, row-major.
    pub open spec fn cell(grid: Seq<u32>, width: int, x: int, y: int) -> u32 {
        grid[y * width + x]
    }

    /// Dimension bounds a well-formed document obeys: machine limits that
    /// keep all mesh arithmetic exact, and the row-major grid length of
    /// every finite layer.
    pub open spec fn wf(self) -> bool {
        &&& self.width <= crate::geometry::MAX_GRID
        &&& self.height <= crate::geometry::MAX_GRID
        &&& 1 <= self.tile_width <= crate::geometry::MAX_TILE_DIM
        &&& 1 <= self.tile_height <= crate::geometry::MAX_TILE_DIM
        &&& self.layers.len() <= 0x1_0000
        &&& self.tilesets.len() <= 0x1_0000
        &&& forall|i: int| 0 <= i < self.tilesets.len() ==> (#[trigger] self.tilesets[i]).wf()
        &&& forall|i: int|
            0 <= i < self.layers.len() ==> match (#[trigger] self.layers[i]).data {
                LayerDataView::Finite(cells) => cells.len() == self.width * self.height,
                LayerDataView::Infinite => true,
            }
        &&& forall|i: int|
            0 <= i < self.object_groups.len() ==> (#[trigger] self.object_groups[i]).wf()
    }
}

} // verus!
