use vstd::prelude::*;

use crate::newsroomcore::datasources::{DataSourceView, DataSources};

verus! {

/// A terminal color: a truecolor triple or an indexed palette entry.
#[derive(Debug, Clone, Copy, PartialEq, Eq)]
pub enum Color {
    Rgb(u8, u8, u8),
    Indexed(u8),
}

/// A text style: optional foreground and background colors, plus the two
/// modifiers the default theme uses.
#[derive(Debug, Clone, Copy, PartialEq, Eq)]
pub struct Style {
    pub fg: Option<Color>,
    pub bg: Option<Color>,
    pub bold: bool,
    pub reversed: bool,
}

/// The pair of styles used to draw one key binding in the bottom bar.
#[derive(Debug, Clone, Copy, PartialEq, Eq)]
pub struct KeyBinding {
    pub key: Style,
    pub description: Style,
}

/// How every part of the interface is styled, under a theme name.
#[derive(Debug, Clone)]
pub struct Theme {
    pub name: String,
    pub root: Style,
    pub content: Style,
    pub app_title: Style,
    pub tabs: Style,
    pub tabs_selected: Style,
    pub borders: Style,
    pub description: Style,
    pub description_title: Style,
    pub keybinding: KeyBinding,
}

/// The content of a `Theme` value.
pub ghost struct ThemeView {
    pub name: Seq<char>,
    pub root: Style,
    pub content: Style,
    pub app_title: Style,
    pub tabs: Style,
    pub tabs_selected: Style,
    pub borders: Style,
    pub description: Style,
    pub description_title: Style,
    pub keybinding: KeyBinding,
}

impl View for Theme {
    type V = ThemeView;

    open spec fn view(&self) -> ThemeView {
        ThemeView {
            name: self.name@,
            root: self.root,
            content: self.content,
            app_title: self.app_title,
            tabs: self.tabs,
            tabs_selected: self.tabs_selected,
            borders: self.borders,
            description: self.description,
            description_title: self.description_title,
            keybinding: self.keybinding,
        }
    }
}

/// A style with nothing set.
pub open spec fn plain_style() -> Style {
    Style { fg: None, bg: None, bold: false, reversed: false }
}

/// The one built-in theme, written out field by field.
pub open spec fn default_theme() -> ThemeView {
    let dark_blue = Color::Rgb(16, 24, 48);
    let black = Color::Indexed(232);
    let dark_gray = Color::Indexed(238);
    let mid_gray = Color::Indexed(244);
    let light_gray = Color::Indexed(250);
    let white = Color::Indexed(255);
    ThemeView {
        name: "Default"@,
        root: (Style { bg: Some(dark_blue), ..plain_style() }),
        content: (Style { bg: Some(dark_blue), fg: Some(light_gray), ..plain_style() }),
        app_title: (Style { fg: Some(white), bg: Some(dark_blue), bold: true, reversed: false }),
        tabs: (Style { fg: Some(mid_gray), bg: Some(dark_blue), ..plain_style() }),
        tabs_selected: (Style {
            fg: Some(white),
            bg: Some(dark_blue),
            bold: true,
            reversed: true,
        }),
        borders: (Style { fg: Some(light_gray), ..plain_style() }),
        description: (Style { fg: Some(light_gray), bg: Some(dark_blue), ..plain_style() }),
        description_title: (Style { fg: Some(light_gray), bold: true, bg: None, reversed: false }),
        keybinding: (KeyBinding {
            key: (Style { fg: Some(black), bg: Some(dark_gray), ..plain_style() }),
            description: (Style { fg: Some(dark_gray), bg: Some(black), ..plain_style() }),
        }),
    }
}

impl Theme {
    /// The built-in theme, exactly as `default_theme` describes it.
    pub fn new() -> (t: Theme)
        ensures
            t@ == default_theme(),
    {
        let dark_blue = Color::Rgb(16, 24, 48);
        let black = Color::Indexed(232);
        let dark_gray = Color::Indexed(238);
        let mid_gray = Color::Indexed(244);
        let light_gray = Color::Indexed(250);
        let white = Color::Indexed(255);
        let plain = Style { fg: None, bg: None, bold: false, reversed: false };
        Theme {
            name: "Default".to_string(),
            root: Style { bg: Some(dark_blue), ..plain },
            content: Style { bg: Some(dark_blue), fg: Some(light_gray), ..plain },
            app_title: Style { fg: Some(white), bg: Some(dark_blue), bold: true, reversed: false },
            tabs: Style { fg: Some(mid_gray), bg: Some(dark_blue), ..plain },
            tabs_selected: Style {
                fg: Some(white),
                bg: Some(dark_blue),
                bold: true,
                reversed: true,
            },
            borders: Style { fg: Some(light_gray), ..plain },
            description: Style { fg: Some(light_gray), bg: Some(dark_blue), ..plain },
            description_title: Style {
                fg: Some(light_gray),
                bold: true,
                bg: None,
                reversed: false,
            },
            keybinding: KeyBinding {
                key: Style { fg: Some(black), bg: Some(dark_gray), ..plain },
                description: Style { fg: Some(dark_gray), bg: Some(black), ..plain },
            },
        }
    }
}

/// What the configuration file carries: a theme name and the source list.
#[derive(Debug, PartialEq)]
pub struct Config {
    pub theme: String,
    pub sources: Vec<DataSources>,
}

/// The content of a `Config` value.
pub ghost struct ConfigView {
    pub theme: Seq<char>,
    pub sources: Seq<DataSourceView>,
}

impl View for Config {
    type V = ConfigView;

    open spec fn view(&self) -> ConfigView {
        ConfigView { theme: self.theme@, sources: self.sources.deep_view() }
    }
}

/// The compiled-in fallback configuration: the default theme name and three
/// standard sources.
pub open spec fn default_config() -> ConfigView {
    ConfigView {
        theme: "default"@,
        sources: seq![
            DataSourceView { name: "cbc"@, url: "https://www.cbc.ca/cmlink/rss-topstories"@ },
            DataSourceView { name: "cnn"@, url: "http://rss.cnn.com/rss/cnn_topstories.rss"@ },
            DataSourceView {
                name: "globe and mail"@,
                url: "https://www.theglobeandmail.com/arc/outboundfeeds/rss/category/canada/"@,
            },
        ],
    }
}

impl Default for Config {
    /// The fallback used when no configuration file can be read.
    fn default() -> (c: Self)
        ensures
            c@ == default_config(),
    {
        let cbc = DataSources {
            name: "cbc".to_string(),
            url: "https://www.cbc.ca/cmlink/rss-topstories".to_string(),
        };
        let cnn = DataSources {
            name: "cnn".to_string(),
            url: "http://rss.cnn.com/rss/cnn_topstories.rss".to_string(),
        };
        let globe = DataSources {
            name: "globe and mail".to_string(),
            url: "https://www.theglobeandmail.com/arc/outboundfeeds/rss/category/canada/"
                .to_string(),
        };
        let mut sources: Vec<DataSources> = Vec::new();
        sources.push(cbc);
        sources.push(cnn);
        sources.push(globe);
        proof {
            assert(sources.deep_view() =~= default_config().sources);
        }
        Config { theme: "default".to_string(), sources }
    }
}

impl Config {
    /// Where the configuration file lives on the system this reader targets.
    pub fn config_path() -> (p: String)
        ensures
            p@ == "C:\\Users\\space\\.newsroom.toml"@,
    {
        "C:\\Users\\space\\.newsroom.toml".to_string()
    }
}

/// The primary settings: the active theme and the configured sources.
#[derive(Debug, Clone)]
pub struct Settings {
    pub theme: Theme,
    pub sources: Vec<DataSources>,
}

/// The content of a `Settings` value.
pub ghost struct SettingsView {
    pub theme: ThemeView,
    pub sources: Seq<DataSourceView>,
}

impl View for Settings {
    type V = SettingsView;

    open spec fn view(&self) -> SettingsView {
        SettingsView { theme: self.theme@, sources: self.sources.deep_view() }
    }
}

impl Settings {
    /// Settings built from a loaded configuration: its sources, shown under
    /// the built-in theme.
    pub fn from_config(config: Config) -> (s: Settings)
        ensures
            s@.theme == default_theme(),
            s@.sources == config@.sources,
    {
        Settings { theme: Theme::new(), sources: config.sources }
    }

    /// The settings the reader starts from when no configuration file could
    /// be read: the compiled-in sources under the built-in theme.
    pub fn new() -> (s: Settings)
        ensures
            s@.theme == default_theme(),
            s@.sources == default_config().sources,
    {
        Settings::from_config(Config::default())
    }
}

} // verus!
