use terrain_preprocess::terrain_config::asset_path;

#[test]
fn asset_path_starts_at_the_assets_directory() {
    assert_eq!(asset_path("/home/user/game/assets/terrains/earth"), "assets/terrains/earth");
}

#[test]
fn asset_path_turns_backslashes_into_slashes() {
    assert_eq!(asset_path("C:\\game\\assets\\terrains\\earth"), "assets/terrains/earth");
}

#[test]
fn asset_path_starts_at_the_last_assets_directory() {
    assert_eq!(asset_path("assets/old/assets/terrains/moon"), "assets/terrains/moon");
}

#[test]
fn asset_path_without_assets_is_the_whole_path() {
    assert_eq!(asset_path("terrains\\mars"), "terrains/mars");
    assert_eq!(asset_path("my_assets"), "my_assets");
    assert_eq!(asset_path(""), "");
}

#[test]
fn asset_path_keeps_other_characters() {
    assert_eq!(asset_path("/data/ünïcode/assets/ß"), "assets/ß");
}
