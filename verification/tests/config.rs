use macrotis::actions::default_key_bindings;
use macrotis::color::Color;
use macrotis::config::flag_override;
use macrotis::config::read_config_file;
use macrotis::config::resolve_config;
use macrotis::config::parse_cli_args_with_config;
use macrotis::config::CliArgs;
use macrotis::config::Config;
use macrotis::config::ConfigOverrides;
use macrotis::config::KeyBinding;
use macrotis::config::ThemeConfig;
use macrotis::config::ThemeOverrides;
use macrotis::paths::existing_files;
use macrotis::paths::resolve_paths;
use macrotis::paths::PathCheck;

fn no_theme_overrides() -> ThemeOverrides {
    ThemeOverrides { background: None, foreground: None, surface: None, primary: None, error: None }
}

fn no_overrides() -> ConfigOverrides {
    ConfigOverrides { no_transparency: None, fullscreen: None, app_id: None, theme: no_theme_overrides() }
}

fn pairs(bindings: &[KeyBinding]) -> Vec<(String, String)> {
    bindings.iter().map(|b| (b.key.clone(), b.action.clone())).collect()
}

fn file_config() -> Config {
    Config {
        no_transparency: true,
        fullscreen: true,
        app_id: Some("viewer".to_string()),
        theme: ThemeConfig {
            background: Color::new(1, 2, 3, 4),
            foreground: Color::new(5, 6, 7, 8),
            surface: Color::new(9, 10, 11, 12),
            primary: Color::new(13, 14, 15, 16),
            error: Color::new(17, 18, 19, 20),
        },
        keybindings: vec![KeyBinding::new("ctrl-a", "Help"), KeyBinding::new("x", "closewindow")],
    }
}

#[test]
fn default_theme_is_catppuccin_mocha() {
    let theme = ThemeConfig::default();
    assert_eq!(theme.background.to_string(), "#1e1e2eff");
    assert_eq!(theme.foreground.to_string(), "#cdd6f4ff");
    assert_eq!(theme.surface.to_string(), "#6c708688");
    assert_eq!(theme.primary.to_string(), "#cba6f7ff");
    assert_eq!(theme.error.to_string(), "#d20f39ff");
    assert_eq!(theme.background, Color::from_str("#1e1e2e").unwrap());
    assert_eq!(theme.foreground, Color::from_str("#cdd6f4").unwrap());
    assert_eq!(theme.surface, Color::from_str("#6c708688").unwrap());
    assert_eq!(theme.primary, Color::from_str("#cba6f7").unwrap());
    assert_eq!(theme.error, Color::from_str("#d20f39").unwrap());
}

#[test]
fn default_getters_give_the_fields_of_the_default_theme() {
    let theme = ThemeConfig::default();
    assert_eq!(ThemeConfig::background_default(), theme.background);
    assert_eq!(ThemeConfig::foreground_default(), theme.foreground);
    assert_eq!(ThemeConfig::surface_default(), theme.surface);
    assert_eq!(ThemeConfig::primary_default(), theme.primary);
    assert_eq!(ThemeConfig::error_default(), theme.error);
}

#[test]
fn default_config_has_no_bindings_yet() {
    let config = Config::default();
    assert!(!config.no_transparency);
    assert!(config.is_transparent());
    assert!(!config.fullscreen);
    assert_eq!(config.app_id, None);
    assert_eq!(config.theme, ThemeConfig::default());
    assert!(config.keybindings.is_empty());
}

#[test]
fn key_binding_new_keeps_key_and_action() {
    let binding = KeyBinding::new("shift-g", "GotoLastImage");
    assert_eq!(binding.key, "shift-g");
    assert_eq!(binding.action, "GotoLastImage");
    let copy = binding.clone();
    assert_eq!(copy.key, "shift-g");
    assert_eq!(copy.action, "GotoLastImage");
}

#[test]
fn missing_file_at_default_location_gives_defaults_and_is_stored() {
    let loaded = read_config_file(&None, Err::<Config, String>("no file".to_string())).unwrap();
    assert!(loaded.store);
    assert!(!loaded.config.no_transparency);
    assert!(!loaded.config.fullscreen);
    assert_eq!(loaded.config.app_id, None);
    assert_eq!(loaded.config.theme, ThemeConfig::default());
    assert_eq!(pairs(&loaded.config.keybindings), pairs(&default_key_bindings()));
    assert_eq!(loaded.config.keybindings.len(), 15);
}

#[test]
fn missing_file_at_given_path_is_an_error() {
    let path = Some("/etc/viewer.toml".to_string());
    let res = read_config_file(&path, Err::<Config, String>("no file".to_string()));
    assert_eq!(res.err(), Some("no file".to_string()));
}

#[test]
fn file_at_given_path_is_not_stored() {
    let path = Some("/etc/viewer.toml".to_string());
    let loaded = read_config_file(&path, Ok::<Config, String>(file_config())).unwrap();
    assert!(!loaded.store);
    assert_eq!(
        pairs(&loaded.config.keybindings),
        vec![
            ("ctrl-a".to_string(), "Help".to_string()),
            ("x".to_string(), "closewindow".to_string())
        ]
    );
    assert_eq!(loaded.config.app_id, Some("viewer".to_string()));
    assert!(loaded.config.fullscreen);
    assert_eq!(loaded.config.theme.error, Color::new(17, 18, 19, 20));
}

#[test]
fn empty_bindings_are_replaced_by_the_whole_default_table() {
    let mut config = file_config();
    config.keybindings = Vec::new();
    let loaded = read_config_file(&None, Ok::<Config, String>(config)).unwrap();
    assert!(loaded.store);
    assert_eq!(pairs(&loaded.config.keybindings), pairs(&default_key_bindings()));
    assert_eq!(loaded.config.app_id, Some("viewer".to_string()));
    assert!(loaded.config.no_transparency);
}

#[test]
fn given_bindings_are_not_merged_with_defaults() {
    let mut config = file_config();
    config.keybindings = vec![KeyBinding::new("z", "ZoomIn")];
    let loaded = read_config_file(&None, Ok::<Config, String>(config)).unwrap();
    assert_eq!(pairs(&loaded.config.keybindings), vec![("z".to_string(), "ZoomIn".to_string())]);
}

#[test]
fn unset_overrides_keep_the_file() {
    let merged = file_config().merge(no_overrides());
    assert!(merged.no_transparency);
    assert!(!merged.is_transparent());
    assert!(merged.fullscreen);
    assert_eq!(merged.app_id, Some("viewer".to_string()));
    assert_eq!(merged.theme, file_config().theme);
    assert_eq!(pairs(&merged.keybindings), pairs(&file_config().keybindings));
}

#[test]
fn set_overrides_win_over_the_file() {
    let overrides = ConfigOverrides {
        no_transparency: Some(false),
        fullscreen: Some(false),
        app_id: Some("other".to_string()),
        theme: ThemeOverrides {
            background: Some(Color::new(100, 101, 102, 103)),
            foreground: None,
            surface: Some(Color::new(104, 105, 106, 107)),
            primary: None,
            error: Some(Color::new(108, 109, 110, 111)),
        },
    };
    let merged = file_config().merge(overrides);
    assert!(!merged.no_transparency);
    assert!(!merged.fullscreen);
    assert_eq!(merged.app_id, Some("other".to_string()));
    assert_eq!(merged.theme.background, Color::new(100, 101, 102, 103));
    assert_eq!(merged.theme.foreground, Color::new(5, 6, 7, 8));
    assert_eq!(merged.theme.surface, Color::new(104, 105, 106, 107));
    assert_eq!(merged.theme.primary, Color::new(13, 14, 15, 16));
    assert_eq!(merged.theme.error, Color::new(108, 109, 110, 111));
    assert_eq!(pairs(&merged.keybindings), pairs(&file_config().keybindings));
}

#[test]
fn set_overrides_win_over_the_defaults() {
    let mut overrides = no_overrides();
    overrides.no_transparency = Some(true);
    overrides.theme.primary = Some(Color::new(1, 1, 1, 1));
    let merged = Config::default().merge(overrides);
    assert!(merged.no_transparency);
    assert!(!merged.fullscreen);
    assert_eq!(merged.theme.primary, Color::new(1, 1, 1, 1));
    assert_eq!(merged.theme.background, ThemeConfig::background_default());
}

#[test]
fn theme_merge_replaces_only_given_colors() {
    let mut overrides = no_theme_overrides();
    overrides.foreground = Some(Color::new(9, 9, 9, 9));
    let theme = ThemeConfig::default().merge(overrides);
    assert_eq!(theme.foreground, Color::new(9, 9, 9, 9));
    assert_eq!(theme.background, ThemeConfig::background_default());
    assert_eq!(theme.surface, ThemeConfig::surface_default());
    assert_eq!(theme.primary, ThemeConfig::primary_default());
    assert_eq!(theme.error, ThemeConfig::error_default());
}

#[test]
fn fullscreen_flag_without_a_config_file() {
    let mut overrides = no_overrides();
    overrides.fullscreen = Some(true);
    let args = CliArgs { images: vec!["img1.png".to_string()], config_path: None, config: overrides };
    let loaded = read_config_file(&args.config_path, Err::<Config, String>("absent".to_string()))
        .unwrap();
    assert!(loaded.store);
    let (images, config) = parse_cli_args_with_config(args, loaded.config, "");
    assert_eq!(images, vec!["img1.png".to_string()]);
    let resolved = resolve_paths("/cwd", &images);
    assert_eq!(resolved, vec!["/cwd/img1.png".to_string()]);
    let found = vec![PathCheck { path: resolved[0].clone(), is_file: true }];
    assert_eq!(existing_files(&found), vec!["/cwd/img1.png".to_string()]);
    let missing = vec![PathCheck { path: resolved[0].clone(), is_file: false }];
    assert!(existing_files(&missing).is_empty());
    assert!(config.fullscreen);
    assert!(!config.no_transparency);
    assert_eq!(config.app_id, None);
    assert_eq!(config.theme, ThemeConfig::default());
    assert_eq!(pairs(&config.keybindings), pairs(&default_key_bindings()));
}

#[test]
fn dash_reads_the_images_from_standard_input() {
    let args = CliArgs { images: vec!["-".to_string()], config_path: None, config: no_overrides() };
    let (images, config) = parse_cli_args_with_config(args, file_config(), "a.png\nb.png");
    assert_eq!(images, vec!["a.png".to_string(), "b.png".to_string()]);
    assert!(config.fullscreen);
}

#[test]
fn standard_input_is_ignored_without_the_dash() {
    let args = CliArgs {
        images: vec!["-".to_string(), "x.png".to_string()],
        config_path: None,
        config: no_overrides(),
    };
    let (images, _) = parse_cli_args_with_config(args, file_config(), "a.png\nb.png");
    assert_eq!(images, vec!["-".to_string(), "x.png".to_string()]);
}

#[test]
fn absent_flag_overrides_nothing() {
    assert_eq!(flag_override(true), Some(true));
    assert_eq!(flag_override(false), None);
    let mut overrides = no_overrides();
    overrides.fullscreen = flag_override(false);
    overrides.no_transparency = flag_override(true);
    let merged = file_config().merge(overrides);
    assert!(merged.fullscreen);
    assert!(merged.no_transparency);
}

#[test]
fn resolution_without_a_file() {
    let mut overrides = no_overrides();
    overrides.fullscreen = Some(true);
    let config = resolve_config(None, overrides);
    assert!(config.fullscreen);
    assert!(config.is_transparent());
    assert_eq!(config.theme, ThemeConfig::default());
    assert_eq!(pairs(&config.keybindings), pairs(&default_key_bindings()));
}

#[test]
fn resolution_with_a_file() {
    let mut overrides = no_overrides();
    overrides.app_id = Some("cli".to_string());
    let config = resolve_config(Some(file_config()), overrides);
    assert_eq!(config.app_id, Some("cli".to_string()));
    assert!(config.fullscreen);
    assert_eq!(config.theme, file_config().theme);
    assert_eq!(pairs(&config.keybindings), pairs(&file_config().keybindings));
}

#[test]
fn default_bindings_fill_only_an_empty_list() {
    let filled = Config::default().with_default_bindings();
    assert_eq!(pairs(&filled.keybindings), pairs(&default_key_bindings()));
    let kept = file_config().with_default_bindings();
    assert_eq!(pairs(&kept.keybindings), pairs(&file_config().keybindings));
    assert_eq!(kept.theme, file_config().theme);
}
