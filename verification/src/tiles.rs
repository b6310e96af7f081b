//! Planning the UI tiles.
//!
//! At startup every configured app becomes one tile: its icon path resolved
//! against the configuration file's directory, its accent colour parsed
//! from the CSS colour string, and its launch command kept verbatim. The
//! plan is all or nothing: the first unparseable accent colour fails the
//! whole startup, and no partial tile list is handed to the UI.

use crate::colors::css_color;
use crate::colors::parse_css_color;
use crate::config::AppEntry;
use crate::paths::join_path;
use crate::paths::join_text;
use vstd::prelude::*;

verus! {

/// One tile as the UI receives it: an absolute icon path, an accent colour
/// triple, and the command the tile launches.
pub struct Tile {
    pub icon_path: String,
    pub accent: (u8, u8, u8),
    pub command: String,
}

/// A rejected accent colour: the position of the app entry and the string
/// that failed to parse.
pub struct ColorFault {
    pub index: usize,
    pub value: String,
}

/// Build the tile list from the configured apps, resolving each icon path
/// against `base_dir`. Succeeds exactly when every accent colour parses,
/// yielding one tile per app in configuration order; otherwise the first
/// offending entry is reported and no tiles are produced.
#[verifier::loop_isolation(false)]
pub fn plan_tiles(base_dir: &str, apps: &Vec<AppEntry>) -> (r: Result<Vec<Tile>, ColorFault>)
    ensures
        (r is Ok) <==> (forall|i: int|
            0 <= i < apps@.len() ==> css_color(#[trigger] apps@[i].preferred_color@) is Some),
        r matches Ok(tiles) ==> ({
            &&& tiles@.len() == apps@.len()
            &&& forall|i: int|
                0 <= i < apps@.len() ==> {
                    &&& (#[trigger] tiles@[i]).icon_path@ == join_text(base_dir@, apps@[i].icon@)
                    &&& Some(tiles@[i].accent) == css_color(apps@[i].preferred_color@)
                    &&& tiles@[i].command@ == apps@[i].command@
                }
        }),
        r matches Err(f) ==> ({
            &&& f.index < apps@.len()
            &&& css_color(apps@[f.index as int].preferred_color@) is None
            &&& forall|j: int|
                0 <= j < f.index ==> css_color(#[trigger] apps@[j].preferred_color@) is Some
            &&& f.value@ == apps@[f.index as int].preferred_color@
        }),
{
    let mut tiles: Vec<Tile> = Vec::new();
    let mut i: usize = 0;
    while i < apps.len()
        invariant
            0 <= i <= apps@.len(),
            tiles@.len() == i,
            forall|j: int|
                0 <= j < i ==> css_color(#[trigger] apps@[j].preferred_color@) is Some,
            forall|j: int|
                0 <= j < i ==> {
                    &&& (#[trigger] tiles@[j]).icon_path@ == join_text(base_dir@, apps@[j].icon@)
                    &&& Some(tiles@[j].accent) == css_color(apps@[j].preferred_color@)
                    &&& tiles@[j].command@ == apps@[j].command@
                },
        decreases apps@.len() - i,
    {
        let entry = &apps[i];
        match parse_css_color(entry.preferred_color.as_str()) {
            Some(accent) => {
                let icon_path = join_path(base_dir, entry.icon.as_str());
                tiles.push(Tile { icon_path, accent, command: entry.command.clone() });
            },
            None => {
                return Err(ColorFault { index: i, value: entry.preferred_color.clone() });
            },
        }
        i += 1;
    }
    Ok(tiles)
}

} // verus!
