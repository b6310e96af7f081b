use flix::config::{
    AppFieldStates, AppItemState, AppsState, ConfigError, TomlField, config_from_fields,
};
use flix::loader::{CandidateText, LoadFault, candidate_paths, select_config};

fn readable(path: &str, text: &str) -> CandidateText {
    CandidateText { path: path.to_string(), text: Some(text.to_string()) }
}

fn unreadable(path: &str) -> CandidateText {
    CandidateText { path: path.to_string(), text: None }
}

const VALID: &str = "wallpaper = \"wall.png\"\n\
text_color = \"#aabbcc\"\n\
shutdown_command = \"systemctl poweroff\"\n\
\n\
[[apps]]\n\
icon = \"tv.png\"\n\
preferred_color = \"red\"\n\
command = \"kodi --fullscreen\"\n\
\n\
[[apps]]\n\
icon = \"music.png\"\n\
preferred_color = \"blue\"\n\
command = \"spotify\"\n";

#[test]
fn default_candidate_is_flix_toml_in_cwd() {
    let paths = candidate_paths(None);
    assert_eq!(paths, vec!["./flix.toml".to_string()]);
}

#[test]
fn explicit_candidate_is_kept() {
    let paths = candidate_paths(Some("/tmp/other.toml".to_string()));
    assert_eq!(paths, vec!["/tmp/other.toml".to_string()]);
}

#[test]
fn valid_config_loads_with_base_dir() {
    let reads = vec![readable("/home/me/flix/flix.toml", VALID)];
    let loaded = select_config(&reads).ok().unwrap();
    assert_eq!(loaded.base_dir, "/home/me/flix");
    assert_eq!(loaded.config.wallpaper, "wall.png");
    assert_eq!(loaded.config.text_color, Some("#aabbcc".to_string()));
    assert_eq!(loaded.config.shutdown_command, "systemctl poweroff");
    assert_eq!(loaded.config.apps.len(), 2);
    assert_eq!(loaded.config.apps[0].icon, "tv.png");
    assert_eq!(loaded.config.apps[0].preferred_color, "red");
    assert_eq!(loaded.config.apps[0].command, "kodi --fullscreen");
    assert_eq!(loaded.config.apps[1].icon, "music.png");
    assert_eq!(loaded.config.apps[1].command, "spotify");
}

#[test]
fn text_color_may_be_absent() {
    let reads = vec![readable(
        "/c/flix.toml",
        "wallpaper = \"w.png\"\nshutdown_command = \"halt\"\napps = []\n",
    )];
    let loaded = select_config(&reads).ok().unwrap();
    assert_eq!(loaded.config.text_color, None);
    assert!(loaded.config.apps.is_empty());
}

#[test]
fn exhausted_candidates_mean_no_usable_config() {
    let reads = vec![unreadable("./flix.toml"), unreadable("/etc/flix.toml")];
    match select_config(&reads) {
        Err(LoadFault::NoUsableConfig) => {}
        _ => panic!("expected no usable configuration"),
    }
}

#[test]
fn unreadable_candidate_is_skipped() {
    let reads = vec![unreadable("./flix.toml"), readable("/fallback/flix.toml", VALID)];
    let loaded = select_config(&reads).ok().unwrap();
    assert_eq!(loaded.base_dir, "/fallback");
}

#[test]
fn malformed_toml_aborts_without_trying_later_candidates() {
    let reads = vec![
        unreadable("./missing.toml"),
        readable("/bad/flix.toml", "wallpaper = = nope"),
        readable("/good/flix.toml", VALID),
    ];
    match select_config(&reads) {
        Err(LoadFault::Rejected { path, error }) => {
            assert_eq!(path, "/bad/flix.toml");
            assert!(matches!(error, ConfigError::Syntax { .. }));
        }
        _ => panic!("expected the malformed candidate to be terminal"),
    }
}

#[test]
fn missing_wallpaper_is_rejected() {
    let reads = vec![readable("/c/flix.toml", "shutdown_command = \"halt\"\napps = []\n")];
    match select_config(&reads) {
        Err(LoadFault::Rejected { error: ConfigError::Field { name }, .. }) => {
            assert_eq!(name, "wallpaper");
        }
        _ => panic!("expected the wallpaper field fault"),
    }
}

#[test]
fn non_string_text_color_is_rejected() {
    let reads = vec![readable(
        "/c/flix.toml",
        "wallpaper = \"w\"\ntext_color = 5\nshutdown_command = \"halt\"\napps = []\n",
    )];
    match select_config(&reads) {
        Err(LoadFault::Rejected { error: ConfigError::Field { name }, .. }) => {
            assert_eq!(name, "text_color");
        }
        _ => panic!("expected the text_color field fault"),
    }
}

#[test]
fn non_array_apps_is_rejected() {
    let reads = vec![readable(
        "/c/flix.toml",
        "wallpaper = \"w\"\nshutdown_command = \"halt\"\napps = \"x\"\n",
    )];
    match select_config(&reads) {
        Err(LoadFault::Rejected { error: ConfigError::Field { name }, .. }) => {
            assert_eq!(name, "apps");
        }
        _ => panic!("expected the apps field fault"),
    }
}

#[test]
fn non_table_app_entry_is_rejected() {
    let reads = vec![readable(
        "/c/flix.toml",
        "wallpaper = \"w\"\nshutdown_command = \"halt\"\napps = [\"x\"]\n",
    )];
    match select_config(&reads) {
        Err(LoadFault::Rejected { error: ConfigError::App { index }, .. }) => {
            assert_eq!(index, 0);
        }
        _ => panic!("expected the app entry fault"),
    }
}

#[test]
fn app_entry_without_command_is_rejected() {
    let text = "wallpaper = \"w\"\nshutdown_command = \"halt\"\n\n[[apps]]\nicon = \"i.png\"\npreferred_color = \"red\"\n";
    let reads = vec![readable("/c/flix.toml", text)];
    match select_config(&reads) {
        Err(LoadFault::Rejected { error: ConfigError::AppField { index, name }, .. }) => {
            assert_eq!(index, 0);
            assert_eq!(name, "command");
        }
        _ => panic!("expected the command field fault"),
    }
}

#[test]
fn fields_assemble_in_order() {
    let apps = AppsState::Items(vec![AppItemState::Fields(AppFieldStates {
        icon: TomlField::Text("a.png".to_string()),
        preferred_color: TomlField::Text("red".to_string()),
        command: TomlField::Text("run a".to_string()),
    })]);
    let config = config_from_fields(
        TomlField::Text("w.png".to_string()),
        TomlField::Absent,
        TomlField::Text("halt".to_string()),
        apps,
    )
    .ok()
    .unwrap();
    assert_eq!(config.wallpaper, "w.png");
    assert_eq!(config.text_color, None);
    assert_eq!(config.shutdown_command, "halt");
    assert_eq!(config.apps.len(), 1);
    assert_eq!(config.apps[0].command, "run a");
}

#[test]
fn second_faulty_app_entry_is_blamed_by_index() {
    let good = AppItemState::Fields(AppFieldStates {
        icon: TomlField::Text("a.png".to_string()),
        preferred_color: TomlField::Text("red".to_string()),
        command: TomlField::Text("run a".to_string()),
    });
    let bad = AppItemState::Fields(AppFieldStates {
        icon: TomlField::Absent,
        preferred_color: TomlField::Text("red".to_string()),
        command: TomlField::Text("run b".to_string()),
    });
    let r = config_from_fields(
        TomlField::Text("w.png".to_string()),
        TomlField::Absent,
        TomlField::Text("halt".to_string()),
        AppsState::Items(vec![good, bad]),
    );
    match r {
        Err(ConfigError::AppField { index, name }) => {
            assert_eq!(index, 1);
            assert_eq!(name, "icon");
        }
        _ => panic!("expected the icon field fault at index 1"),
    }
}
