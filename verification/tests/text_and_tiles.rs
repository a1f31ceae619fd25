use openmobilemaps_rs::coords::{web_mercator_bounds, CoordinateSystem, Decimal};
use openmobilemaps_rs::openstreetmap::{
    OpenStreetmapZoomInfo, Tiled2dMapLayerConfigTrait, Tiled2dMapLayerConfigWrapperImpl,
};
use openmobilemaps_rs::text::{append_i32, append_u32};

fn text_of(n: i32) -> String {
    let mut out = String::new();
    append_i32(&mut out, n);
    out
}

#[test]
fn decimal_text_of_integers() {
    assert_eq!(text_of(0), "0");
    assert_eq!(text_of(7), "7");
    assert_eq!(text_of(10), "10");
    assert_eq!(text_of(1048576), "1048576");
    assert_eq!(text_of(-1), "-1");
    assert_eq!(text_of(-120), "-120");
    assert_eq!(text_of(i32::MAX), "2147483647");
    assert_eq!(text_of(i32::MIN), "-2147483648");
}

#[test]
fn decimal_text_is_appended() {
    let mut out = String::from("n=");
    append_u32(&mut out, 4294967295);
    assert_eq!(out, "n=4294967295");
    append_u32(&mut out, 0);
    assert_eq!(out, "n=42949672950");
}

#[test]
fn decimal_text_agrees_with_the_standard_library() {
    for n in [-100001, -99, -10, -9, 1, 9, 11, 99, 100, 101, 65536, 123456789] {
        assert_eq!(text_of(n), n.to_string());
    }
}

#[test]
fn tile_url_names_zoom_column_and_row() {
    let osm = OpenStreetmapZoomInfo;
    assert_eq!(osm.getTileUrl(4, 5, 0, 3), "https://a.tile.openstreetmap.org/3/4/5.png");
    assert_eq!(osm.getTileUrl(0, 0, 9, 0), "https://a.tile.openstreetmap.org/0/0/0.png");
    assert_eq!(
        osm.getTileUrl(34297, 22924, 0, 16),
        "https://a.tile.openstreetmap.org/16/34297/22924.png"
    );
    assert_eq!(osm.getTileUrl(-1, -2, 0, -3), "https://a.tile.openstreetmap.org/-3/-1/-2.png");
}

#[test]
fn tile_directory_names_zoom_and_column() {
    let osm = OpenStreetmapZoomInfo;
    assert_eq!(osm.tile_directory(4, 3), "tiles/3/4");
    assert_eq!(osm.tile_directory(34297, 16), "tiles/16/34297");
}

#[test]
fn zoom_levels_of_openstreetmap() {
    let levels = OpenStreetmapZoomInfo.getZoomLevelInfos();
    assert_eq!(levels.len(), 20);
    let identifiers: Vec<i32> = levels.iter().map(|level| level.zoom_level_identifier).collect();
    assert_eq!(
        identifiers,
        vec![0, 1, 2, 3, 4, 5, 7, 8, 9, 10, 11, 12, 13, 14, 15, 16, 17, 18, 19, 20]
    );
    for level in &levels {
        assert_eq!(level.num_tiles_x, 1 << level.zoom_level_identifier);
        assert_eq!(level.num_tiles_y, level.num_tiles_x);
        assert_eq!(level.num_tiles_t, 1);
        assert_eq!(level.bounds, web_mercator_bounds());
    }
    assert_eq!(levels[0].zoom, Decimal { digits: 559082264029, scale: 3 });
    assert_eq!(levels[0].tile_width_layer_system_units, Decimal { digits: 40075016, scale: 0 });
    assert_eq!(levels[3].zoom, Decimal { digits: 698852830036, scale: 4 });
    assert_eq!(levels[3].tile_width_layer_system_units, Decimal { digits: 50093771, scale: 1 });
    assert_eq!(levels[6].zoom, Decimal { digits: 436783018773, scale: 5 });
    assert_eq!(levels[6].num_tiles_x, 128);
    assert_eq!(levels[19].zoom, Decimal { digits: 53318239597, scale: 8 });
    assert_eq!(levels[19].tile_width_layer_system_units, Decimal { digits: 382185, scale: 4 });
    assert_eq!(levels[19].num_tiles_x, 1048576);
}

#[test]
fn zoom_info_of_openstreetmap() {
    let info = OpenStreetmapZoomInfo.getZoomInfo();
    assert_eq!(info.zoom_level_scale_factor, Decimal { digits: 1, scale: 0 });
    assert_eq!(info.num_draw_previous_layers, 0);
    assert!(info.adapt_scale_to_screen);
    assert!(!info.mask_tile);
    assert!(info.underzoom);
    assert!(info.overzoom);
}

#[test]
fn layer_name_and_coordinate_system() {
    let osm = OpenStreetmapZoomInfo;
    assert_eq!(osm.getLayerName(), "OpenStreetMapDefaultLayer");
    assert_eq!(osm.getCoordinateSystemIdentifier(), CoordinateSystem::Epsg4326);
}

#[test]
fn wrapper_passes_through_and_draws_in_web_mercator() {
    let wrapper = Tiled2dMapLayerConfigWrapperImpl(Box::new(OpenStreetmapZoomInfo));
    assert_eq!(wrapper.getCoordinateSystemIdentifier(), CoordinateSystem::Epsg3857);
    assert_eq!(wrapper.getTileUrl(1, 2, 0, 3), "https://a.tile.openstreetmap.org/3/1/2.png");
    assert_eq!(wrapper.getZoomLevelInfos(), OpenStreetmapZoomInfo.getZoomLevelInfos());
    assert_eq!(wrapper.getZoomInfo(), OpenStreetmapZoomInfo.getZoomInfo());
    assert_eq!(wrapper.getLayerName(), "OpenStreetMapDefaultLayer");
}

#[test]
fn web_mercator_bounds_span_the_plane() {
    let bounds = web_mercator_bounds();
    assert_eq!(bounds.top_left.system, CoordinateSystem::Epsg3857);
    assert_eq!(bounds.top_left.x, Decimal { digits: -2003750834, scale: 2 });
    assert_eq!(bounds.top_left.y, Decimal { digits: 2003750834, scale: 2 });
    assert_eq!(bounds.bottom_right.x, Decimal { digits: 2003750834, scale: 2 });
    assert_eq!(bounds.bottom_right.y, Decimal { digits: -2003750834, scale: 2 });
    assert_eq!(bounds.top_left.z, Decimal { digits: 0, scale: 0 });
}

#[test]
fn decimal_scale_is_bounded() {
    assert_eq!(Decimal::new(-15, 1), Some(Decimal { digits: -15, scale: 1 }));
    assert_eq!(Decimal::new(1, 18), Some(Decimal { digits: 1, scale: 18 }));
    assert_eq!(Decimal::new(1, 19), None);
    assert_eq!(Decimal::whole(10), Decimal { digits: 10, scale: 0 });
}
