//! The viewer's settings, and how the defaults, the settings file and the
//! command line combine into the settings in effect.

use vstd::prelude::*;
use crate::actions::default_key_bindings;
use crate::actions::default_table;
use crate::color::Color;
use crate::color::FormatError;
use crate::color::all_hex;
use crate::color::parse;
use crate::color::strip_hash;
use crate::paths::image_arguments;
use crate::paths::read_image_arguments;
use crate::paths::texts;

verus! {

/// The colors of the window and its overlays.
#[derive(Clone, Copy, Debug, PartialEq, Eq, Structural)]
pub struct ThemeConfig {
    /// Background color.
    pub background: Color,
    /// Foreground (text) color.
    pub foreground: Color,
    /// Surface color.
    pub surface: Color,
    /// Primary color.
    pub primary: Color,
    /// Error color.
    pub error: Color,
}

/// The default theme: Catppuccin Mocha (`#1e1e2e`, `#cdd6f4`, `#6c708688`,
/// `#cba6f7`, `#d20f39`).
pub open spec fn default_theme() -> ThemeConfig {
    ThemeConfig {
        background: Color { r: 0x1e, g: 0x1e, b: 0x2e, a: 0xff },
        foreground: Color { r: 0xcd, g: 0xd6, b: 0xf4, a: 0xff },
        surface: Color { r: 0x6c, g: 0x70, b: 0x86, a: 0x88 },
        primary: Color { r: 0xcb, g: 0xa6, b: 0xf7, a: 0xff },
        error: Color { r: 0xd2, g: 0x0f, b: 0x39, a: 0xff },
    }
}

/// The colors of the default theme are those that the palette writes
/// `#1e1e2e`, `#cdd6f4`, `#6c708688`, `#cba6f7` and `#d20f39`.
pub proof fn lemma_default_theme_texts()
    ensures
        parse("#1e1e2e"@) == Ok::<Color, FormatError>(default_theme().background),
        parse("#cdd6f4"@) == Ok::<Color, FormatError>(default_theme().foreground),
        parse("#6c708688"@) == Ok::<Color, FormatError>(default_theme().surface),
        parse("#cba6f7"@) == Ok::<Color, FormatError>(default_theme().primary),
        parse("#d20f39"@) == Ok::<Color, FormatError>(default_theme().error),
{
    reveal_strlit("#1e1e2e");
    reveal_strlit("#cdd6f4");
    reveal_strlit("#6c708688");
    reveal_strlit("#cba6f7");
    reveal_strlit("#d20f39");
    assert(strip_hash("#1e1e2e"@) =~= seq!['1', 'e', '1', 'e', '2', 'e']);
    assert(strip_hash("#cdd6f4"@) =~= seq!['c', 'd', 'd', '6', 'f', '4']);
    assert(strip_hash("#6c708688"@) =~= seq!['6', 'c', '7', '0', '8', '6', '8', '8']);
    assert(strip_hash("#cba6f7"@) =~= seq!['c', 'b', 'a', '6', 'f', '7']);
    assert(strip_hash("#d20f39"@) =~= seq!['d', '2', '0', 'f', '3', '9']);
    assert(all_hex(strip_hash("#1e1e2e"@)));
    assert(all_hex(strip_hash("#cdd6f4"@)));
    assert(all_hex(strip_hash("#6c708688"@)));
    assert(all_hex(strip_hash("#cba6f7"@)));
    assert(all_hex(strip_hash("#d20f39"@)));
}

impl Default for ThemeConfig {
    fn default() -> (theme: ThemeConfig)
        ensures
            theme == default_theme(),
    {
        ThemeConfig {
            background: Color::new(0x1e, 0x1e, 0x2e, 0xff),
            foreground: Color::new(0xcd, 0xd6, 0xf4, 0xff),
            surface: Color::new(0x6c, 0x70, 0x86, 0x88),
            primary: Color::new(0xcb, 0xa6, 0xf7, 0xff),
            error: Color::new(0xd2, 0x0f, 0x39, 0xff),
        }
    }
}

impl ThemeConfig {
    /// The background color of the default theme.
    pub fn background_default() -> (color: Color)
        ensures
            color == default_theme().background,
    {
        ThemeConfig::default().background
    }

    /// The foreground color of the default theme.
    pub fn foreground_default() -> (color: Color)
        ensures
            color == default_theme().foreground,
    {
        ThemeConfig::default().foreground
    }

    /// The surface color of the default theme.
    pub fn surface_default() -> (color: Color)
        ensures
            color == default_theme().surface,
    {
        ThemeConfig::default().surface
    }

    /// The primary color of the default theme.
    pub fn primary_default() -> (color: Color)
        ensures
            color == default_theme().primary,
    {
        ThemeConfig::default().primary
    }

    /// The error color of the default theme.
    pub fn error_default() -> (color: Color)
        ensures
            color == default_theme().error,
    {
        ThemeConfig::default().error
    }
}

/// A key binding: a keyboard shortcut and the name of the action it triggers.
#[derive(Debug)]
pub struct KeyBinding {
    /// The keyboard shortcut. Several keys are joined by `-`, as in `ctrl-a`.
    pub key: String,
    /// The name of the action, as `Action::name` gives it; the case of its
    /// letters does not matter.
    pub action: String,
}

/// What a `KeyBinding` holds.
pub struct KeyBindingView {
    pub key: Seq<char>,
    pub action: Seq<char>,
}

impl View for KeyBinding {
    type V = KeyBindingView;

    open spec fn view(&self) -> KeyBindingView {
        KeyBindingView { key: self.key@, action: self.action@ }
    }
}

/// What a list of key bindings holds.
pub open spec fn bindings_view(bindings: Seq<KeyBinding>) -> Seq<KeyBindingView> {
    bindings.map_values(|b: KeyBinding| b@)
}

impl KeyBinding {
    /// Binds `key` to the action called `action`.
    pub fn new(key: &str, action: &str) -> (binding: KeyBinding)
        ensures
            binding@ == (KeyBindingView { key: key@, action: action@ }),
    {
        KeyBinding { key: key.to_owned(), action: action.to_owned() }
    }
}

impl Clone for KeyBinding {
    fn clone(&self) -> (copy: KeyBinding)
        ensures
            copy == *self,
    {
        KeyBinding { key: self.key.clone(), action: self.action.clone() }
    }
}

/// The settings of the viewer.
#[derive(Debug)]
pub struct Config {
    /// Whether the window is opaque. The window is transparent unless this is
    /// set.
    pub no_transparency: bool,
    /// Whether to open the window in fullscreen mode.
    pub fullscreen: bool,
    /// The identifier by which desktop environments know the window.
    pub app_id: Option<String>,
    /// Theme colors.
    pub theme: ThemeConfig,
    /// Key bindings, in the order in which the help dialog shows them.
    pub keybindings: Vec<KeyBinding>,
}

/// What a `Config` holds.
pub struct ConfigView {
    pub no_transparency: bool,
    pub fullscreen: bool,
    pub app_id: Option<Seq<char>>,
    pub theme: ThemeConfig,
    pub keybindings: Seq<KeyBindingView>,
}

/// What an optional string holds.
pub open spec fn optional_text(text: Option<String>) -> Option<Seq<char>> {
    match text {
        Some(t) => Some(t@),
        None => None,
    }
}

impl View for Config {
    type V = ConfigView;

    open spec fn view(&self) -> ConfigView {
        ConfigView {
            no_transparency: self.no_transparency,
            fullscreen: self.fullscreen,
            app_id: optional_text(self.app_id),
            theme: self.theme,
            keybindings: bindings_view(self.keybindings@),
        }
    }
}

/// The settings of a viewer that was told nothing: a transparent window, not
/// fullscreen, no identifier, the default theme, and no key bindings yet.
pub open spec fn default_config() -> ConfigView {
    ConfigView {
        no_transparency: false,
        fullscreen: false,
        app_id: None,
        theme: default_theme(),
        keybindings: Seq::empty(),
    }
}

impl Default for Config {
    fn default() -> (config: Config)
        ensures
            config@ == default_config(),
    {
        let config = Config {
            no_transparency: false,
            fullscreen: false,
            app_id: None,
            theme: ThemeConfig::default(),
            keybindings: Vec::new(),
        };
        assert(config@.keybindings =~= Seq::empty());
        config
    }
}

/// The theme colors given on the command line; `None` where none was given.
#[derive(Clone, Copy, Debug, PartialEq, Eq, Structural)]
pub struct ThemeOverrides {
    pub background: Option<Color>,
    pub foreground: Option<Color>,
    pub surface: Option<Color>,
    pub primary: Option<Color>,
    pub error: Option<Color>,
}

/// The settings given on the command line; `None` where none was given. Key
/// bindings cannot be given there.
#[derive(Debug)]
pub struct ConfigOverrides {
    pub no_transparency: Option<bool>,
    pub fullscreen: Option<bool>,
    pub app_id: Option<String>,
    pub theme: ThemeOverrides,
}

/// What a `ConfigOverrides` holds.
pub struct ConfigOverridesView {
    pub no_transparency: Option<bool>,
    pub fullscreen: Option<bool>,
    pub app_id: Option<Seq<char>>,
    pub theme: ThemeOverrides,
}

impl View for ConfigOverrides {
    type V = ConfigOverridesView;

    open spec fn view(&self) -> ConfigOverridesView {
        ConfigOverridesView {
            no_transparency: self.no_transparency,
            fullscreen: self.fullscreen,
            app_id: optional_text(self.app_id),
            theme: self.theme,
        }
    }
}

/// Overrides that override nothing.
pub open spec fn no_overrides() -> ConfigOverridesView {
    ConfigOverridesView {
        no_transparency: None,
        fullscreen: None,
        app_id: None,
        theme: ThemeOverrides {
            background: None,
            foreground: None,
            surface: None,
            primary: None,
            error: None,
        },
    }
}

/// `given` where there is one, else `current`.
pub open spec fn overridden<T>(current: T, given: Option<T>) -> T {
    match given {
        Some(value) => value,
        None => current,
    }
}

/// `theme` with each color that `overrides` gives put in its place.
pub open spec fn merged_theme(theme: ThemeConfig, overrides: ThemeOverrides) -> ThemeConfig {
    ThemeConfig {
        background: overridden(theme.background, overrides.background),
        foreground: overridden(theme.foreground, overrides.foreground),
        surface: overridden(theme.surface, overrides.surface),
        primary: overridden(theme.primary, overrides.primary),
        error: overridden(theme.error, overrides.error),
    }
}

/// `config` with each setting that `overrides` gives put in its place. The
/// key bindings stay as they are.
pub open spec fn merged(config: ConfigView, overrides: ConfigOverridesView) -> ConfigView {
    ConfigView {
        no_transparency: overridden(config.no_transparency, overrides.no_transparency),
        fullscreen: overridden(config.fullscreen, overrides.fullscreen),
        app_id: match overrides.app_id {
            Some(id) => Some(id),
            None => config.app_id,
        },
        theme: merged_theme(config.theme, overrides.theme),
        keybindings: config.keybindings,
    }
}

/// `config`, with the default key table in place of an empty list of key
/// bindings. A list with an entry is kept whole.
pub open spec fn with_default_bindings(config: ConfigView) -> ConfigView {
    if config.keybindings.len() == 0 {
        ConfigView { keybindings: default_table(), ..config }
    } else {
        config
    }
}

/// The settings in effect: those of the settings file, or the defaults where
/// there is no file, completed with the default key table, and then
/// overridden by the command line.
pub open spec fn resolved(file: Option<ConfigView>, overrides: ConfigOverridesView) -> ConfigView {
    merged(
        with_default_bindings(
            match file {
                Some(config) => config,
                None => default_config(),
            },
        ),
        overrides,
    )
}

/// What a flag of the command line says of a setting: a flag that is present
/// switches the setting on, one that is absent leaves the setting as it is.
pub fn flag_override(present: bool) -> (given: Option<bool>)
    ensures
        given == if present {
            Some(true)
        } else {
            None::<bool>
        },
{
    if present {
        Some(true)
    } else {
        None
    }
}

fn pick<T>(current: T, given: Option<T>) -> (value: T)
    ensures
        value == overridden(current, given),
{
    match given {
        Some(value) => value,
        None => current,
    }
}

impl ThemeConfig {
    /// The theme with each color that `overrides` gives put in its place.
    pub fn merge(self, overrides: ThemeOverrides) -> (theme: ThemeConfig)
        ensures
            theme == merged_theme(self, overrides),
    {
        ThemeConfig {
            background: pick(self.background, overrides.background),
            foreground: pick(self.foreground, overrides.foreground),
            surface: pick(self.surface, overrides.surface),
            primary: pick(self.primary, overrides.primary),
            error: pick(self.error, overrides.error),
        }
    }
}

impl Config {
    /// Whether the window is transparent.
    pub fn is_transparent(&self) -> (transparent: bool)
        ensures
            transparent == !self.no_transparency,
    {
        !self.no_transparency
    }

    /// The settings, with the default key bindings where they have none.
    pub fn with_default_bindings(self) -> (config: Config)
        ensures
            config@ == with_default_bindings(self@),
    {
        let mut config = self;
        if config.keybindings.len() == 0 {
            config.keybindings = default_key_bindings();
        }
        config
    }

    /// The settings with each one that `overrides` gives put in its place.
    pub fn merge(self, overrides: ConfigOverrides) -> (config: Config)
        ensures
            config@ == merged(self@, overrides@),
    {
        let app_id = match overrides.app_id {
            Some(id) => Some(id),
            None => self.app_id,
        };
        Config {
            no_transparency: pick(self.no_transparency, overrides.no_transparency),
            fullscreen: pick(self.fullscreen, overrides.fullscreen),
            app_id,
            theme: self.theme.merge(overrides.theme),
            keybindings: self.keybindings,
        }
    }
}

/// The settings read from the settings file, and what is to be done with them.
#[derive(Debug)]
pub struct LoadedConfig {
    /// The settings, with key bindings.
    pub config: Config,
    /// Whether `config` is to be written to the default location.
    pub store: bool,
}

/// What reading the settings file amounts to. `config_path_override` is the
/// path given on the command line, `loaded` what reading the file at that
/// path, or at the default location where none was given, came to.
///
/// A file that cannot be read is an error where its path was given, and
/// stands for the default settings otherwise. Settings without key bindings
/// get the default ones. Settings from the default location are written back
/// there.
pub fn read_config_file<E>(config_path_override: &Option<String>, loaded: Result<Config, E>) -> (res:
    Result<LoadedConfig, E>)
    ensures
        match loaded {
            Ok(config) => res matches Ok(file) && file.config@ == with_default_bindings(config@)
                && file.store == (config_path_override is None),
            Err(error) => if config_path_override is Some {
                res == Err::<LoadedConfig, E>(error)
            } else {
                res matches Ok(file) && file.config@ == with_default_bindings(default_config())
                    && file.store
            },
        },
{
    let explicit = config_path_override.is_some();
    let config = match loaded {
        Ok(config) => config,
        Err(error) => {
            if explicit {
                return Err(error);
            }
            Config::default()
        },
    };
    Ok(LoadedConfig { config: config.with_default_bindings(), store: !explicit })
}

/// What an optional configuration holds.
pub open spec fn optional_config(config: Option<Config>) -> Option<ConfigView> {
    match config {
        Some(c) => Some(c@),
        None => None,
    }
}

/// The settings in effect, from the settings of the file, if there is one,
/// and those of the command line: the file's settings, or the defaults,
/// get the default key bindings where they have none, and each setting given
/// on the command line goes before that of the file.
pub fn resolve_config(file: Option<Config>, overrides: ConfigOverrides) -> (config: Config)
    ensures
        config@ == resolved(optional_config(file), overrides@),
{
    let config = match file {
        Some(config) => config,
        None => Config::default(),
    };
    config.with_default_bindings().merge(overrides)
}

/// The arguments of the command line.
#[derive(Debug)]
pub struct CliArgs {
    /// Paths of image files, or the single argument `-`.
    pub images: Vec<String>,
    /// Path of the settings file, where it is not the default one.
    pub config_path: Option<String>,
    /// Settings given on the command line.
    pub config: ConfigOverrides,
}

/// The image paths and the settings in effect, from the command line, the
/// settings read by `read_config_file`, and what was read from standard
/// input. Standard input counts only where the arguments ask for it, and a
/// setting of the command line goes before that of the file.
pub fn parse_cli_args_with_config(args: CliArgs, config: Config, stdin: &str) -> (res: (
    Vec<String>,
    Config,
))
    ensures
        texts(res.0@) == image_arguments(texts(args.images@), stdin@),
        res.1@ == merged(config@, args.config@),
{
    let images = read_image_arguments(args.images, stdin);
    let config = config.merge(args.config);
    (images, config)
}

/// Without key bindings of its own a configuration gets the whole default
/// table: one entry per action, fifteen in all.
pub proof fn lemma_empty_bindings_replaced(config: ConfigView)
    requires
        config.keybindings.len() == 0,
    ensures
        with_default_bindings(config).keybindings == default_table(),
        with_default_bindings(config).keybindings.len() == 15,
{
}

/// Completed with the default key table, a configuration has key bindings:
/// so has the one that is written to the settings file.
pub proof fn lemma_bindings_never_empty(config: ConfigView)
    ensures
        with_default_bindings(config).keybindings.len() > 0,
        with_default_bindings(with_default_bindings(config)) == with_default_bindings(config),
{
}

/// Key bindings of a configuration that has any are kept as they are.
pub proof fn lemma_given_bindings_kept(config: ConfigView)
    requires
        config.keybindings.len() > 0,
    ensures
        with_default_bindings(config) == config,
{
}

/// The settings in effect always have key bindings: those of the file, or the
/// default table.
pub proof fn lemma_resolved_has_bindings(file: Option<ConfigView>, overrides: ConfigOverridesView)
    ensures
        resolved(file, overrides).keybindings.len() > 0,
        file is Some && file->0.keybindings.len() > 0 ==> resolved(file, overrides).keybindings
            == file->0.keybindings,
        file is None || file->0.keybindings.len() == 0 ==> resolved(file, overrides).keybindings
            == default_table(),
{
}

/// A setting given on the command line is the one in effect, whatever the
/// file says; a setting not given there is that of the file.
pub proof fn lemma_command_line_first(config: ConfigView, overrides: ConfigOverridesView)
    ensures
        merged(config, overrides).no_transparency == match overrides.no_transparency {
            Some(value) => value,
            None => config.no_transparency,
        },
        merged(config, overrides).fullscreen == match overrides.fullscreen {
            Some(value) => value,
            None => config.fullscreen,
        },
        merged(config, overrides).app_id == match overrides.app_id {
            Some(value) => Some(value),
            None => config.app_id,
        },
        merged(config, overrides).theme.background == match overrides.theme.background {
            Some(value) => value,
            None => config.theme.background,
        },
        merged(config, overrides).theme.foreground == match overrides.theme.foreground {
            Some(value) => value,
            None => config.theme.foreground,
        },
        merged(config, overrides).theme.surface == match overrides.theme.surface {
            Some(value) => value,
            None => config.theme.surface,
        },
        merged(config, overrides).theme.primary == match overrides.theme.primary {
            Some(value) => value,
            None => config.theme.primary,
        },
        merged(config, overrides).theme.error == match overrides.theme.error {
            Some(value) => value,
            None => config.theme.error,
        },
        merged(config, overrides).keybindings == config.keybindings,
        merged(config, no_overrides()) == config,
{
}

} // verus!
