//! The fixed file locations of the raw-map import scaffolding around the
//! simulation. The downloading, clipping and conversion themselves are
//! input/output work outside this library; only where everything lives is
//! derived here.

use vstd::prelude::*;
use vstd::string::StringExecFns;

verus! {

/// Where the city's OSM extract lives locally, and where it is downloaded
/// from.
pub fn input() -> (r: (String, String))
    ensures
        r.0@ == "../data/input/montevideo/osm/montevideo.osm"@,
        r.1@ == "http://download.geofabrik.de/south-america/uruguay-latest.osm.bz2"@,
{
    (
        String::from_str("../data/input/montevideo/osm/montevideo.osm"),
        String::from_str("http://download.geofabrik.de/south-america/uruguay-latest.osm.bz2"),
    )
}

/// The derived file locations of one named import area.
pub struct ImportPaths {
    /// The clipping polygon of the area.
    pub polygon: String,
    /// Where the clipped OSM extract is written.
    pub clipped_osm: String,
    /// Where the converted raw map is saved.
    pub raw_output: String,
}

/// Derives where an import of the named area clips, converts and saves.
pub fn import_paths(name: &str) -> (r: ImportPaths)
    ensures
        r.polygon@ == "../data/input/montevideo/polygons/"@ + name@ + ".poly"@,
        r.clipped_osm@ == "../data/input/montevideo/osm/"@ + name@ + ".osm"@,
        r.raw_output@ == "../data/input/raw_maps/"@ + name@ + ".bin"@,
{
    let mut polygon = String::from_str("../data/input/montevideo/polygons/");
    polygon.append(name);
    polygon.append(".poly");
    let mut clipped_osm = String::from_str("../data/input/montevideo/osm/");
    clipped_osm.append(name);
    clipped_osm.append(".osm");
    let mut raw_output = String::from_str("../data/input/raw_maps/");
    raw_output.append(name);
    raw_output.append(".bin");
    ImportPaths { polygon, clipped_osm, raw_output }
}

} // verus!
