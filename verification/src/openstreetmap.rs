//! The layer configuration for the OpenStreetMap raster tiles: where a tile
//! is fetched from, where it is kept on disk, and the pyramid of zoom levels.

use crate::coords::{web_mercator_bounds, web_mercator_bounds_spec, CoordinateSystem, Decimal, RectCoord};
use crate::text::{append_i32, int_text};
use vstd::arithmetic::power2::{lemma2_to64, pow2};
use vstd::prelude::*;

verus! {

/// One level of a tile pyramid.
#[derive(Clone, Copy, Debug, PartialEq, Eq, Structural)]
pub struct Tiled2dMapZoomLevelInfo {
    /// The scale denominator at which the level is shown.
    pub zoom: Decimal,
    /// The width of one tile, in units of the layer's coordinate system.
    pub tile_width_layer_system_units: Decimal,
    pub num_tiles_x: i32,
    pub num_tiles_y: i32,
    pub num_tiles_t: i32,
    /// The number by which the tile server knows the level.
    pub zoom_level_identifier: i32,
    /// The area the level covers.
    pub bounds: RectCoord,
}

/// How a tiled layer chooses among its levels.
#[derive(Clone, Copy, Debug, PartialEq, Eq, Structural)]
pub struct Tiled2dMapZoomInfo {
    pub zoom_level_scale_factor: Decimal,
    pub num_draw_previous_layers: i32,
    pub adapt_scale_to_screen: bool,
    pub mask_tile: bool,
    pub underzoom: bool,
    pub overzoom: bool,
}

/// What a tiled layer has to tell the engine about itself. Each answer is a
/// fixed function of the configuration and the arguments.
pub trait Tiled2dMapLayerConfigTrait {
    /// The coordinate system of the tiles.
    spec fn coordinate_system(&self) -> CoordinateSystem;

    /// The address of the tile at column `x`, row `y`, time step `t` of the
    /// level `zoom`.
    spec fn tile_url(&self, x: i32, y: i32, t: i32, zoom: i32) -> Seq<char>;

    /// The levels of the pyramid, coarsest first.
    spec fn zoom_levels(&self) -> Seq<Tiled2dMapZoomLevelInfo>;

    /// How the layer chooses among its levels.
    spec fn zoom_info(&self) -> Tiled2dMapZoomInfo;

    /// The name of the layer.
    spec fn layer_name(&self) -> Seq<char>;

    fn getCoordinateSystemIdentifier(&self) -> (system: CoordinateSystem)
        ensures
            system == self.coordinate_system(),
    ;

    fn getTileUrl(&self, x: i32, y: i32, t: i32, zoom: i32) -> (url: String)
        ensures
            url@ == self.tile_url(x, y, t, zoom),
    ;

    fn getZoomLevelInfos(&self) -> (levels: Vec<Tiled2dMapZoomLevelInfo>)
        ensures
            levels@ == self.zoom_levels(),
    ;

    fn getZoomInfo(&self) -> (info: Tiled2dMapZoomInfo)
        ensures
            info == self.zoom_info(),
    ;

    fn getLayerName(&self) -> (name: String)
        ensures
            name@ == self.layer_name(),
    ;
}

/// A layer configuration as the engine sees it. The engine draws in Web
/// Mercator whatever the configuration says of itself; everything else is
/// passed through.
pub struct Tiled2dMapLayerConfigWrapperImpl(pub Box<dyn Tiled2dMapLayerConfigTrait>);

impl Tiled2dMapLayerConfigWrapperImpl {
    pub fn getCoordinateSystemIdentifier(&self) -> (system: CoordinateSystem)
        ensures
            system == CoordinateSystem::Epsg3857,
    {
        CoordinateSystem::Epsg3857
    }

    pub fn getTileUrl(&self, x: i32, y: i32, t: i32, zoom: i32) -> (url: String)
        ensures
            url@ == self.0.tile_url(x, y, t, zoom),
    {
        self.0.getTileUrl(x, y, t, zoom)
    }

    pub fn getZoomLevelInfos(&self) -> (levels: Vec<Tiled2dMapZoomLevelInfo>)
        ensures
            levels@ == self.0.zoom_levels(),
    {
        self.0.getZoomLevelInfos()
    }

    pub fn getZoomInfo(&self) -> (info: Tiled2dMapZoomInfo)
        ensures
            info == self.0.zoom_info(),
    {
        self.0.getZoomInfo()
    }

    pub fn getLayerName(&self) -> (name: String)
        ensures
            name@ == self.0.layer_name(),
    {
        self.0.getLayerName()
    }
}

/// The address of the OpenStreetMap tile at column `x`, row `y` of the level
/// `zoom`.
pub open spec fn osm_tile_url(x: i32, y: i32, zoom: i32) -> Seq<char> {
    "https://a.tile.openstreetmap.org/"@ + int_text(zoom as int) + "/"@ + int_text(x as int)
        + "/"@ + int_text(y as int) + ".png"@
}

/// The directory under which the tiles of column `x` of the level `zoom` are
/// kept.
pub open spec fn osm_tile_directory(x: i32, zoom: i32) -> Seq<char> {
    "tiles/"@ + int_text(zoom as int) + "/"@ + int_text(x as int)
}

/// A level of the OpenStreetMap pyramid: `tiles` columns and as many rows, one
/// time step, over the whole Web Mercator plane.
pub open spec fn osm_level_spec(
    zoom_digits: i64,
    zoom_scale: u8,
    width_digits: i64,
    width_scale: u8,
    tiles: i32,
    identifier: i32,
) -> Tiled2dMapZoomLevelInfo {
    Tiled2dMapZoomLevelInfo {
        zoom: Decimal { digits: zoom_digits, scale: zoom_scale },
        tile_width_layer_system_units: Decimal { digits: width_digits, scale: width_scale },
        num_tiles_x: tiles,
        num_tiles_y: tiles,
        num_tiles_t: 1,
        zoom_level_identifier: identifier,
        bounds: web_mercator_bounds_spec(),
    }
}

/// The levels of the OpenStreetMap pyramid, coarsest first. Level 6 is not
/// offered.
pub open spec fn osm_zoom_levels() -> Seq<Tiled2dMapZoomLevelInfo> {
    seq![
        osm_level_spec(559082264029, 3, 40075016, 0, 1, 0),
        osm_level_spec(279541132015, 3, 20037508, 0, 2, 1),
        osm_level_spec(139770566007, 3, 10018754, 0, 4, 2),
        osm_level_spec(698852830036, 4, 50093771, 1, 8, 3),
        osm_level_spec(349426415018, 4, 25046885, 1, 16, 4),
        osm_level_spec(174713207509, 4, 12523443, 1, 32, 5),
        osm_level_spec(436783018773, 5, 3130861, 1, 128, 7),
        osm_level_spec(218391509386, 5, 156543, 0, 256, 8),
        osm_level_spec(109195754693, 5, 782715, 1, 512, 9),
        osm_level_spec(545978773466, 6, 391358, 1, 1024, 10),
        osm_level_spec(272989386733, 6, 195679, 1, 2048, 11),
        osm_level_spec(136494693366, 6, 978394, 2, 4096, 12),
        osm_level_spec(682473466832, 7, 489197, 2, 8192, 13),
        osm_level_spec(341236733416, 7, 244598, 2, 16384, 14),
        osm_level_spec(170618366708, 7, 122299, 2, 32768, 15),
        osm_level_spec(853091833540, 8, 611496, 3, 65536, 16),
        osm_level_spec(426545916770, 8, 305748, 3, 131072, 17),
        osm_level_spec(213272958385, 8, 152874, 3, 262144, 18),
        osm_level_spec(106636479193, 8, 76437, 3, 524288, 19),
        osm_level_spec(53318239597, 8, 382185, 4, 1048576, 20),
    ]
}

/// How the OpenStreetMap layer chooses among its levels.
pub open spec fn osm_zoom_info() -> Tiled2dMapZoomInfo {
    Tiled2dMapZoomInfo {
        zoom_level_scale_factor: Decimal { digits: 1, scale: 0 },
        num_draw_previous_layers: 0,
        adapt_scale_to_screen: true,
        mask_tile: false,
        underzoom: true,
        overzoom: true,
    }
}

fn osm_level(
    zoom_digits: i64,
    zoom_scale: u8,
    width_digits: i64,
    width_scale: u8,
    tiles: i32,
    identifier: i32,
) -> (level: Tiled2dMapZoomLevelInfo)
    ensures
        level == osm_level_spec(zoom_digits, zoom_scale, width_digits, width_scale, tiles, identifier),
{
    Tiled2dMapZoomLevelInfo {
        zoom: Decimal { digits: zoom_digits, scale: zoom_scale },
        tile_width_layer_system_units: Decimal { digits: width_digits, scale: width_scale },
        num_tiles_x: tiles,
        num_tiles_y: tiles,
        num_tiles_t: 1,
        zoom_level_identifier: identifier,
        bounds: web_mercator_bounds(),
    }
}

/// The configuration of the OpenStreetMap raster layer.
pub struct OpenStreetmapZoomInfo;

impl OpenStreetmapZoomInfo {
    /// The directory that has to exist before the tile at column `x` of the
    /// level `zoom` can be stored.
    pub fn tile_directory(&self, x: i32, zoom: i32) -> (directory: String)
        ensures
            directory@ == osm_tile_directory(x, zoom),
    {
        let mut directory = String::from_str("tiles/");
        append_i32(&mut directory, zoom);
        directory.append("/");
        append_i32(&mut directory, x);
        directory
    }
}

impl Tiled2dMapLayerConfigTrait for OpenStreetmapZoomInfo {
    open spec fn coordinate_system(&self) -> CoordinateSystem {
        CoordinateSystem::Epsg4326
    }

    open spec fn tile_url(&self, x: i32, y: i32, t: i32, zoom: i32) -> Seq<char> {
        osm_tile_url(x, y, zoom)
    }

    open spec fn zoom_levels(&self) -> Seq<Tiled2dMapZoomLevelInfo> {
        osm_zoom_levels()
    }

    open spec fn zoom_info(&self) -> Tiled2dMapZoomInfo {
        osm_zoom_info()
    }

    open spec fn layer_name(&self) -> Seq<char> {
        "OpenStreetMapDefaultLayer"@
    }

    fn getCoordinateSystemIdentifier(&self) -> (system: CoordinateSystem) {
        CoordinateSystem::Epsg4326
    }

    fn getTileUrl(&self, x: i32, y: i32, t: i32, zoom: i32) -> (url: String) {
        let mut url = String::from_str("https://a.tile.openstreetmap.org/");
        append_i32(&mut url, zoom);
        url.append("/");
        append_i32(&mut url, x);
        url.append("/");
        append_i32(&mut url, y);
        url.append(".png");
        url
    }

    fn getZoomLevelInfos(&self) -> (levels: Vec<Tiled2dMapZoomLevelInfo>) {
        let mut levels: Vec<Tiled2dMapZoomLevelInfo> = Vec::new();
        levels.push(osm_level(559082264029, 3, 40075016, 0, 1, 0));
        levels.push(osm_level(279541132015, 3, 20037508, 0, 2, 1));
        levels.push(osm_level(139770566007, 3, 10018754, 0, 4, 2));
        levels.push(osm_level(698852830036, 4, 50093771, 1, 8, 3));
        levels.push(osm_level(349426415018, 4, 25046885, 1, 16, 4));
        levels.push(osm_level(174713207509, 4, 12523443, 1, 32, 5));
        levels.push(osm_level(436783018773, 5, 3130861, 1, 128, 7));
        levels.push(osm_level(218391509386, 5, 156543, 0, 256, 8));
        levels.push(osm_level(109195754693, 5, 782715, 1, 512, 9));
        levels.push(osm_level(545978773466, 6, 391358, 1, 1024, 10));
        levels.push(osm_level(272989386733, 6, 195679, 1, 2048, 11));
        levels.push(osm_level(136494693366, 6, 978394, 2, 4096, 12));
        levels.push(osm_level(682473466832, 7, 489197, 2, 8192, 13));
        levels.push(osm_level(341236733416, 7, 244598, 2, 16384, 14));
        levels.push(osm_level(170618366708, 7, 122299, 2, 32768, 15));
        levels.push(osm_level(853091833540, 8, 611496, 3, 65536, 16));
        levels.push(osm_level(426545916770, 8, 305748, 3, 131072, 17));
        levels.push(osm_level(213272958385, 8, 152874, 3, 262144, 18));
        levels.push(osm_level(106636479193, 8, 76437, 3, 524288, 19));
        levels.push(osm_level(53318239597, 8, 382185, 4, 1048576, 20));
        assert(levels@ =~= osm_zoom_levels());
        levels
    }

    fn getZoomInfo(&self) -> (info: Tiled2dMapZoomInfo) {
        Tiled2dMapZoomInfo {
            zoom_level_scale_factor: Decimal { digits: 1, scale: 0 },
            num_draw_previous_layers: 0,
            adapt_scale_to_screen: true,
            mask_tile: false,
            underzoom: true,
            overzoom: true,
        }
    }

    fn getLayerName(&self) -> (name: String) {
        String::from_str("OpenStreetMapDefaultLayer")
    }
}

/// The identifier of the level at position `i` of the OpenStreetMap pyramid:
/// the levels are numbered from 0 to 20, and 6 is left out.
pub open spec fn osm_level_identifier(i: int) -> int {
    if i < 6 {
        i
    } else {
        i + 1
    }
}

/// The shape of the OpenStreetMap pyramid: twenty levels in rising order of
/// their identifiers, each a square grid of `2^identifier` tiles on a side
/// with one time step, each over the whole Web Mercator plane.
pub proof fn lemma_osm_zoom_levels_shape()
    ensures
        osm_zoom_levels().len() == 20,
        forall|i: int|
            0 <= i < 20 ==> {
                let level = #[trigger] osm_zoom_levels()[i];
                &&& level.zoom_level_identifier == osm_level_identifier(i)
                &&& level.num_tiles_x == pow2(level.zoom_level_identifier as nat)
                &&& level.num_tiles_y == level.num_tiles_x
                &&& level.num_tiles_t == 1
                &&& level.bounds == web_mercator_bounds_spec()
                &&& level.zoom.wf()
                &&& level.tile_width_layer_system_units.wf()
            },
{
    lemma2_to64();
}

} // verus!
