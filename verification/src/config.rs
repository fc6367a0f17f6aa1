//! Project configuration (the contents of `rnl.toml`).
//!
//! Reading and writing the file, and the TOML encoding, belong to the
//! program around the library; here are the values, their defaults, and what
//! the commands compute from them.
use vstd::prelude::*;
use crate::strings::{contains_str, strs_view, strings_view};

verus! {

/// Root configuration structure for rnl.toml
pub struct Config {
    pub project: ProjectConfig,
    pub window: WindowConfig,
    pub platforms: PlatformConfigs,
    pub build: BuildConfig,
    pub elements: ElementsConfig,
}

/// The `[project]` table.
pub struct ProjectConfig {
    pub name: String,
    pub version: String,
    pub description: String,
}

/// The `[window]` table.
pub struct WindowConfig {
    pub title: String,
    pub width: u32,
    pub height: u32,
}

/// The `[platforms]` table: one optional section per platform.
pub struct PlatformConfigs {
    pub linux: Option<LinuxConfig>,
    pub macos: Option<MacOSConfig>,
    pub windows: Option<WindowsConfig>,
}

/// The `[platforms.linux]` section.
pub struct LinuxConfig {
    pub enabled: bool,
    pub toolkit: String,
    pub lang: String,
    pub min_version: Option<String>,
}

/// The `[platforms.macos]` section.
pub struct MacOSConfig {
    pub enabled: bool,
    pub toolkit: String,
    pub lang: String,
    pub min_version: Option<String>,
}

/// The `[platforms.windows]` section.
pub struct WindowsConfig {
    pub enabled: bool,
    pub toolkit: String,
    pub lang: String,
    pub min_version: Option<String>,
}

/// The `[build]` table.
pub struct BuildConfig {
    pub bundle_embed: bool,
    pub minify: bool,
    pub sourcemaps: bool,
}

/// The `[elements]` table: names of the project's custom elements.
pub struct ElementsConfig {
    pub custom: Vec<String>,
}

impl Default for PlatformConfigs {
    fn default() -> (r: Self)
        ensures
            r.linux is None,
            r.macos is None,
            r.windows is None,
    {
        PlatformConfigs { linux: None, macos: None, windows: None }
    }
}

impl Default for BuildConfig {
    fn default() -> (r: Self)
        ensures
            !r.bundle_embed,
            !r.minify,
            !r.sourcemaps,
    {
        BuildConfig { bundle_embed: false, minify: false, sourcemaps: false }
    }
}

impl Default for ElementsConfig {
    fn default() -> (r: Self)
        ensures
            r.custom@.len() == 0,
    {
        ElementsConfig { custom: Vec::new() }
    }
}

/// Default window width.
pub fn default_width() -> (w: u32)
    ensures
        w == 800,
{
    800
}

/// Default window height.
pub fn default_height() -> (h: u32)
    ensures
        h == 600,
{
    600
}

/// Default of the `enabled` flags.
pub fn default_true() -> (b: bool)
    ensures
        b,
{
    true
}

/// Default Linux toolkit.
pub fn default_gtk4() -> (s: String)
    ensures
        s@ == "gtk4"@,
{
    String::from_str("gtk4")
}

/// Default Linux language.
pub fn default_cpp() -> (s: String)
    ensures
        s@ == "cpp"@,
{
    String::from_str("cpp")
}

/// Default macOS toolkit.
pub fn default_appkit() -> (s: String)
    ensures
        s@ == "appkit"@,
{
    String::from_str("appkit")
}

/// Default macOS language.
pub fn default_swift() -> (s: String)
    ensures
        s@ == "swift"@,
{
    String::from_str("swift")
}

/// Default Windows toolkit.
pub fn default_winui3() -> (s: String)
    ensures
        s@ == "winui3"@,
{
    String::from_str("winui3")
}

/// Default Windows language.
pub fn default_csharp() -> (s: String)
    ensures
        s@ == "csharp"@,
{
    String::from_str("csharp")
}

/// The view of an optional string.
pub open spec fn opt_str(o: Option<String>) -> Option<Seq<char>> {
    match o {
        Some(s) => Some(s@),
        None => None,
    }
}

/// The Linux section that a new project or `rnl add platform linux` writes.
pub open spec fn is_standard_linux(c: LinuxConfig) -> bool {
    &&& c.enabled
    &&& c.toolkit@ == "gtk4"@
    &&& c.lang@ == "cpp"@
    &&& opt_str(c.min_version) == Some("22.04"@)
}

/// The macOS section that a new project or `rnl add platform macos` writes.
pub open spec fn is_standard_macos(c: MacOSConfig) -> bool {
    &&& c.enabled
    &&& c.toolkit@ == "appkit"@
    &&& c.lang@ == "swift"@
    &&& opt_str(c.min_version) == Some("12.0"@)
}

/// The Windows section that a new project or `rnl add platform windows` writes.
pub open spec fn is_standard_windows(c: WindowsConfig) -> bool {
    &&& c.enabled
    &&& c.toolkit@ == "winui3"@
    &&& c.lang@ == "csharp"@
    &&& opt_str(c.min_version) == Some("10.0.17763.0"@)
}

/// A Linux section with the standard settings.
pub fn standard_linux() -> (c: LinuxConfig)
    ensures
        is_standard_linux(c),
{
    LinuxConfig {
        enabled: true,
        toolkit: String::from_str("gtk4"),
        lang: String::from_str("cpp"),
        min_version: Some(String::from_str("22.04")),
    }
}

/// A macOS section with the standard settings.
pub fn standard_macos() -> (c: MacOSConfig)
    ensures
        is_standard_macos(c),
{
    MacOSConfig {
        enabled: true,
        toolkit: String::from_str("appkit"),
        lang: String::from_str("swift"),
        min_version: Some(String::from_str("12.0")),
    }
}

/// A Windows section with the standard settings.
pub fn standard_windows() -> (c: WindowsConfig)
    ensures
        is_standard_windows(c),
{
    WindowsConfig {
        enabled: true,
        toolkit: String::from_str("winui3"),
        lang: String::from_str("csharp"),
        min_version: Some(String::from_str("10.0.17763.0")),
    }
}

/// The description of a new project called `name`.
pub open spec fn project_description(name: Seq<char>) -> Seq<char> {
    name + " - An RNL application"@
}

/// The names of the platforms whose section is present and enabled, in the
/// order linux, macos, windows.
pub open spec fn enabled_platform_names(p: PlatformConfigs) -> Seq<Seq<char>> {
    (if p.linux matches Some(c) && c.enabled {
        seq!["linux"@]
    } else {
        Seq::<Seq<char>>::empty()
    }) + (if p.macos matches Some(c) && c.enabled {
        seq!["macos"@]
    } else {
        Seq::<Seq<char>>::empty()
    }) + (if p.windows matches Some(c) && c.enabled {
        seq!["windows"@]
    } else {
        Seq::<Seq<char>>::empty()
    })
}

/// The known platforms among `requested`, in the order linux, macos, windows.
pub open spec fn selected_platforms(requested: Seq<Seq<char>>) -> Seq<Seq<char>> {
    (if requested.contains("linux"@) {
        seq!["linux"@]
    } else {
        Seq::<Seq<char>>::empty()
    }) + (if requested.contains("macos"@) {
        seq!["macos"@]
    } else {
        Seq::<Seq<char>>::empty()
    }) + (if requested.contains("windows"@) {
        seq!["windows"@]
    } else {
        Seq::<Seq<char>>::empty()
    })
}

/// What `default_for_project(name, platforms)` returns.
pub open spec fn is_default_for_project(c: Config, name: Seq<char>, platforms: Seq<Seq<char>>) -> bool {
    &&& c.project.name@ == name
    &&& c.project.version@ == "0.1.0"@
    &&& c.project.description@ == project_description(name)
    &&& c.window.title@ == name
    &&& c.window.width == 800
    &&& c.window.height == 600
    &&& (c.platforms.linux matches Some(l) ==> is_standard_linux(l))
    &&& (c.platforms.linux is Some <==> platforms.contains("linux"@))
    &&& (c.platforms.macos matches Some(m) ==> is_standard_macos(m))
    &&& (c.platforms.macos is Some <==> platforms.contains("macos"@))
    &&& (c.platforms.windows matches Some(w) ==> is_standard_windows(w))
    &&& (c.platforms.windows is Some <==> platforms.contains("windows"@))
    &&& c.build.bundle_embed
    &&& c.build.minify
    &&& !c.build.sourcemaps
    &&& c.elements.custom@.len() == 0
}

impl Config {
    /// Create a default configuration for a new project
    pub fn default_for_project(name: &str, platforms: &[&str]) -> (c: Self)
        ensures
            is_default_for_project(c, name@, strs_view(platforms@)),
    {
        let mut description = String::from_str(name);
        description.append(" - An RNL application");
        Config {
            project: ProjectConfig {
                name: String::from_str(name),
                version: String::from_str("0.1.0"),
                description,
            },
            window: WindowConfig { title: String::from_str(name), width: 800, height: 600 },
            platforms: PlatformConfigs {
                linux: if contains_str(platforms, "linux") {
                    Some(standard_linux())
                } else {
                    None
                },
                macos: if contains_str(platforms, "macos") {
                    Some(standard_macos())
                } else {
                    None
                },
                windows: if contains_str(platforms, "windows") {
                    Some(standard_windows())
                } else {
                    None
                },
            },
            build: BuildConfig { bundle_embed: true, minify: true, sourcemaps: false },
            elements: ElementsConfig::default(),
        }
    }

    /// Get enabled platforms
    pub fn enabled_platforms(&self) -> (names: Vec<&'static str>)
        ensures
            strs_view(names@) == enabled_platform_names(self.platforms),
    {
        let mut platforms: Vec<&'static str> = Vec::new();
        if let Some(linux) = &self.platforms.linux {
            if linux.enabled {
                platforms.push("linux");
            }
        }
        if let Some(macos) = &self.platforms.macos {
            if macos.enabled {
                platforms.push("macos");
            }
        }
        if let Some(windows) = &self.platforms.windows {
            if windows.enabled {
                platforms.push("windows");
            }
        }
        assert(strs_view(platforms@) =~= enabled_platform_names(self.platforms));
        platforms
    }
}

} // verus!
