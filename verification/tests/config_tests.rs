use rnl::config::Config;
use rnl::config::{
    default_appkit, default_cpp, default_csharp, default_gtk4, default_height, default_swift,
    default_true, default_width, default_winui3, BuildConfig, ElementsConfig, PlatformConfigs,
};

#[test]
fn test_default_config() {
    let config = Config::default_for_project("test-app", &["linux", "macos"]);
    assert_eq!(config.project.name, "test-app");
    assert!(config.platforms.linux.is_some());
    assert!(config.platforms.macos.is_some());
    assert!(config.platforms.windows.is_none());
}

#[test]
fn test_enabled_platforms() {
    let config = Config::default_for_project("test-app", &["linux", "windows"]);
    let platforms = config.enabled_platforms();
    assert!(platforms.contains(&"linux"));
    assert!(platforms.contains(&"windows"));
    assert!(!platforms.contains(&"macos"));
}

#[test]
fn new_project_configuration() {
    let config = Config::default_for_project("demo", &["windows", "linux", "beos"]);
    assert_eq!(config.project.version, "0.1.0");
    assert_eq!(config.project.description, "demo - An RNL application");
    assert_eq!(config.window.title, "demo");
    assert_eq!((config.window.width, config.window.height), (800, 600));
    let linux = config.platforms.linux.as_ref().unwrap();
    assert!(linux.enabled);
    assert_eq!((linux.toolkit.as_str(), linux.lang.as_str()), ("gtk4", "cpp"));
    assert_eq!(linux.min_version.as_deref(), Some("22.04"));
    let windows = config.platforms.windows.as_ref().unwrap();
    assert_eq!((windows.toolkit.as_str(), windows.lang.as_str()), ("winui3", "csharp"));
    assert_eq!(windows.min_version.as_deref(), Some("10.0.17763.0"));
    assert!(config.build.bundle_embed && config.build.minify && !config.build.sourcemaps);
    assert!(config.elements.custom.is_empty());
    assert_eq!(config.enabled_platforms(), vec!["linux", "windows"]);
}

#[test]
fn disabled_sections_are_not_enabled_platforms() {
    let mut config = Config::default_for_project("demo", &["linux", "macos"]);
    config.platforms.linux.as_mut().unwrap().enabled = false;
    assert_eq!(config.enabled_platforms(), vec!["macos"]);
    let m = config.platforms.macos.as_ref().unwrap();
    assert_eq!((m.toolkit.as_str(), m.lang.as_str(), m.min_version.as_deref()), ("appkit", "swift", Some("12.0")));
}

#[test]
fn defaults_of_the_configuration_file() {
    assert_eq!((default_width(), default_height()), (800, 600));
    assert!(default_true());
    assert_eq!(
        [default_gtk4(), default_cpp(), default_appkit(), default_swift(), default_winui3(), default_csharp()],
        ["gtk4", "cpp", "appkit", "swift", "winui3", "csharp"]
    );
    let p = PlatformConfigs::default();
    assert!(p.linux.is_none() && p.macos.is_none() && p.windows.is_none());
    let b = BuildConfig::default();
    assert!(!b.bundle_embed && !b.minify && !b.sourcemaps);
    assert!(ElementsConfig::default().custom.is_empty());
}
