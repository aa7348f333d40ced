use tiled_mesh::loader::TiledMapLoader;

#[test]
fn loader_remembers_the_asset_folder() {
    let loader = TiledMapLoader::new(String::from("assets"));
    assert_eq!(loader.asset_folder, "assets");
}

#[test]
fn loader_handles_map_files_only() {
    let loader = TiledMapLoader::new(String::new());
    assert_eq!(loader.extensions(), vec![String::from("tmx")]);
}
