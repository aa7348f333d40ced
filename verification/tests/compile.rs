use tiled_mesh::compiler::{CompileError, CompiledMap, MapConfig};
use tiled_mesh::document::{
    LayerData, MapDocument, RawObjectGroup, TileLayer, Tileset, TsImage,
};
use tiled_mesh::geometry::{Orientation, WorldPos};

fn four_column_tileset() -> Tileset {
    Tileset {
        first_gid: 1,
        tile_count: 16,
        tile_width: 16,
        tile_height: 16,
        spacing: 0,
        images: vec![TsImage { width: 64, height: 64, source: String::from("tiles.png") }],
        tiles: Vec::new(),
    }
}

fn filled_map(width: u32, height: u32) -> MapDocument {
    MapDocument {
        orientation: Orientation::Orthogonal,
        width,
        height,
        tile_width: 16,
        tile_height: 16,
        tilesets: vec![four_column_tileset()],
        layers: vec![TileLayer {
            visible: true,
            data: LayerData::Finite(vec![1u32; (width * height) as usize]),
        }],
        object_groups: Vec::new(),
    }
}

fn config() -> MapConfig {
    MapConfig { chunk_size: 32 }
}

fn compile_error_of(doc: &MapDocument) -> CompileError {
    match CompiledMap::try_from_document(doc, &config()) {
        Err(e) => e,
        Ok(_) => panic!("the compile was expected to fail"),
    }
}

#[test]
fn full_map_produces_four_chunk_meshes() {
    // A 64x64 orthogonal map with 32-tile chunks splits into 2x2 chunks of
    // 1024 tiles each.
    let doc = filled_map(64, 64);
    let map = CompiledMap::try_from_document(&doc, &config()).unwrap();
    assert_eq!(map.meshes.len(), 4);
    for tagged in &map.meshes {
        assert_eq!(tagged.layer_id, 0);
        assert_eq!(tagged.tileset_guid, 1);
        assert_eq!(tagged.mesh.positions.len(), 4096);
        assert_eq!(tagged.mesh.uvs.len(), 4096);
        assert_eq!(tagged.mesh.indices.len(), 6144);
    }
    assert_eq!(map.layers.len(), 1);
    assert_eq!(map.layers[0].tileset_layers.len(), 1);
    assert_eq!(map.layers[0].tileset_layers[0].chunks.len(), 4);
    assert_eq!(map.asset_dependencies, vec![String::from("tiles.png")]);
}

#[test]
fn single_small_region_produces_one_mesh() {
    // Three tiles inside one chunk: exactly one mesh, four vertices and
    // six indices per tile.
    let mut doc = filled_map(64, 64);
    let mut cells = vec![0u32; 64 * 64];
    cells[0] = 1;
    cells[1] = 2;
    cells[64] = 5;
    doc.layers[0].data = LayerData::Finite(cells);
    let map = CompiledMap::try_from_document(&doc, &config()).unwrap();
    assert_eq!(map.meshes.len(), 1);
    assert_eq!(map.meshes[0].mesh.positions.len(), 12);
    assert_eq!(map.meshes[0].mesh.indices.len(), 18);
}

#[test]
fn recompiling_reproduces_identical_meshes() {
    let doc = filled_map(64, 64);
    let first = CompiledMap::try_from_document(&doc, &config()).unwrap();
    let second = CompiledMap::try_from_document(&doc, &config()).unwrap();
    assert_eq!(first.meshes.len(), second.meshes.len());
    for (a, b) in first.meshes.iter().zip(second.meshes.iter()) {
        assert_eq!(a.layer_id, b.layer_id);
        assert_eq!(a.tileset_guid, b.tileset_guid);
        assert_eq!(a.mesh.positions, b.mesh.positions);
        assert_eq!(a.mesh.uvs, b.mesh.uvs);
        assert_eq!(a.mesh.indices, b.mesh.indices);
    }
}

#[test]
fn hexagonal_maps_are_rejected() {
    let mut doc = filled_map(4, 4);
    doc.orientation = Orientation::Hexagonal;
    assert_eq!(compile_error_of(&doc), CompileError::UnsupportedOrientation);
}

#[test]
fn staggered_maps_are_rejected() {
    let mut doc = filled_map(4, 4);
    doc.orientation = Orientation::Staggered;
    assert_eq!(compile_error_of(&doc), CompileError::UnsupportedOrientation);
}

#[test]
fn imageless_tileset_fails_the_load() {
    let mut doc = filled_map(4, 4);
    doc.tilesets[0].images.clear();
    assert_eq!(compile_error_of(&doc), CompileError::TilesetWithoutImage);
}

#[test]
fn overlapping_gid_ranges_fail_the_load() {
    let mut doc = filled_map(4, 4);
    let mut second = four_column_tileset();
    second.first_gid = 10;
    doc.tilesets.push(second);
    assert_eq!(compile_error_of(&doc), CompileError::OverlappingGidRanges);
}

#[test]
fn disjoint_gid_ranges_compile() {
    let mut doc = filled_map(4, 4);
    let mut second = four_column_tileset();
    second.first_gid = 17;
    doc.tilesets.push(second);
    let map = CompiledMap::try_from_document(&doc, &config()).unwrap();
    // The one layer crossed with two tilesets: only the first owns any
    // cell, so only one mesh appears, but both chunk grids exist.
    assert_eq!(map.meshes.len(), 1);
    assert_eq!(map.layers[0].tileset_layers.len(), 2);
}

#[test]
fn infinite_layers_fail_the_load() {
    let mut doc = filled_map(4, 4);
    doc.layers.push(TileLayer { visible: true, data: LayerData::Infinite });
    assert_eq!(compile_error_of(&doc), CompileError::InfiniteLayer);
}

#[test]
fn invisible_layers_are_skipped() {
    let mut doc = filled_map(4, 4);
    doc.layers[0].visible = false;
    let map = CompiledMap::try_from_document(&doc, &config()).unwrap();
    assert!(map.meshes.is_empty());
    assert!(map.layers.is_empty());
    assert!(map.asset_dependencies.is_empty());
}

#[test]
fn visible_layers_are_renumbered_compactly() {
    let mut doc = filled_map(4, 4);
    let cells = vec![1u32; 16];
    doc.layers.insert(0, TileLayer { visible: false, data: LayerData::Finite(cells) });
    let map = CompiledMap::try_from_document(&doc, &config()).unwrap();
    // The invisible first layer takes no id; the visible one becomes 0.
    assert_eq!(map.meshes.len(), 1);
    assert_eq!(map.meshes[0].layer_id, 0);
    assert_eq!(map.layers.len(), 1);
}

#[test]
fn compiled_map_centre() {
    let doc = filled_map(64, 64);
    let map = CompiledMap::try_from_document(&doc, &config()).unwrap();
    assert_eq!(map.center(), WorldPos { x: 2048, y: -2048 });
}

#[test]
fn empty_map_compiles_to_nothing() {
    let doc = MapDocument {
        orientation: Orientation::Orthogonal,
        width: 0,
        height: 0,
        tile_width: 16,
        tile_height: 16,
        tilesets: Vec::new(),
        layers: Vec::new(),
        object_groups: Vec::new(),
    };
    let map = CompiledMap::try_from_document(&doc, &config()).unwrap();
    assert!(map.meshes.is_empty());
    assert!(map.groups.is_empty());
}

#[test]
fn largest_supported_tile_size_compiles() {
    let mut doc = filled_map(1, 1);
    doc.tile_width = 4096;
    doc.tile_height = 4096;
    doc.tilesets[0].tile_width = 4096;
    doc.tilesets[0].tile_height = 4096;
    doc.tilesets[0].images[0].width = 4096;
    doc.tilesets[0].images[0].height = 4096;
    let map = CompiledMap::try_from_document(&doc, &config()).unwrap();
    assert_eq!(map.meshes.len(), 1);
    let mesh = &map.meshes[0].mesh;
    // One 4096 px tile: 16384 subpixel steps along each edge.
    assert_eq!(mesh.positions[2].x, 16384);
    assert_eq!(mesh.positions[0].y, -16384);
}

#[test]
fn one_tile_chunks_split_every_cell() {
    let doc = filled_map(4, 4);
    let map = CompiledMap::try_from_document(&doc, &MapConfig { chunk_size: 1 }).unwrap();
    // Every cell is its own chunk; each mesh holds exactly one quad.
    assert_eq!(map.meshes.len(), 16);
    for tagged in &map.meshes {
        assert_eq!(tagged.mesh.positions.len(), 4);
        assert_eq!(tagged.mesh.indices.len(), 6);
    }
}

#[test]
fn object_groups_are_carried_through() {
    let mut doc = filled_map(4, 4);
    doc.object_groups.push(RawObjectGroup {
        name: String::from("markers"),
        opacity_milli: 1000,
        visible: true,
        objects: Vec::new(),
    });
    let map = CompiledMap::try_from_document(&doc, &config()).unwrap();
    assert_eq!(map.groups.len(), 1);
    assert_eq!(map.groups[0].name, "markers");
    assert_eq!(map.groups[0].opacity_milli, 1000);
    assert!(map.groups[0].visible);
}
