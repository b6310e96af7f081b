use flix::colors::theme_color;
use flix::config::AppEntry;
use flix::tiles::plan_tiles;

fn entry(icon: &str, color: &str, command: &str) -> AppEntry {
    AppEntry {
        icon: icon.to_string(),
        preferred_color: color.to_string(),
        command: command.to_string(),
    }
}

#[test]
fn one_tile_per_app_in_order_with_resolved_paths() {
    let apps = vec![
        entry("tv.png", "red", "kodi --fullscreen"),
        entry("music.png", "#00ff00", "spotify"),
    ];
    let tiles = plan_tiles("/home/me/flix", &apps).ok().unwrap();
    assert_eq!(tiles.len(), 2);
    assert_eq!(tiles[0].icon_path, "/home/me/flix/tv.png");
    assert_eq!(tiles[0].accent, (255, 0, 0));
    assert_eq!(tiles[0].command, "kodi --fullscreen");
    assert_eq!(tiles[1].icon_path, "/home/me/flix/music.png");
    assert_eq!(tiles[1].accent, (0, 255, 0));
    assert_eq!(tiles[1].command, "spotify");
}

#[test]
fn unparseable_accent_color_fails_the_whole_plan() {
    let apps = vec![
        entry("a.png", "red", "a"),
        entry("b.png", "notacolor", "b"),
        entry("c.png", "blue", "c"),
    ];
    match plan_tiles("/base", &apps) {
        Err(fault) => {
            assert_eq!(fault.index, 1);
            assert_eq!(fault.value, "notacolor");
        }
        Ok(_) => panic!("expected the plan to fail on the bad colour"),
    }
}

#[test]
fn no_apps_plan_no_tiles() {
    let apps: Vec<AppEntry> = Vec::new();
    let tiles = plan_tiles("/base", &apps).ok().unwrap();
    assert!(tiles.is_empty());
}

#[test]
fn theme_stays_default_on_unparseable_color() {
    assert_eq!(theme_color(&Some("notacolor".to_string())), None);
}

#[test]
fn theme_stays_default_when_not_configured() {
    assert_eq!(theme_color(&None), None);
}

#[test]
fn theme_applies_a_valid_color() {
    assert_eq!(theme_color(&Some("#336699".to_string())), Some((0x33, 0x66, 0x99)));
}

#[test]
fn named_css_color_parses_to_its_srgb_triple() {
    assert_eq!(theme_color(&Some("rebeccapurple".to_string())), Some((102, 51, 153)));
}
