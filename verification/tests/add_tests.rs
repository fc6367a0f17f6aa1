use rnl::commands::add::{
    element_file, element_summary, enable_platform, plan_add_element, plan_add_platform,
    platform_directory, platform_files, record_element, to_pascal_case, to_snake_case, AddError,
    PlatformKind, LINUX_MAIN_CPP, LINUX_PLATFORM_CPP,
};
use rnl::config::Config;

#[test]
fn case_conversions() {
    assert_eq!(to_snake_case("MyButton"), "my_button");
    assert_eq!(to_snake_case("color-picker"), "color_picker");
    assert_eq!(to_snake_case("slider"), "slider");
    assert_eq!(to_snake_case("ÉtatX"), "état_x");
    assert_eq!(to_pascal_case("color-picker"), "ColorPicker");
    assert_eq!(to_pascal_case("my_fancy-widget"), "MyFancyWidget");
    assert_eq!(to_pascal_case("--a"), "A");
    assert_eq!(to_pascal_case("straße"), "Straße");
    assert_eq!(to_pascal_case("ßx"), "SSx");
    assert_eq!(to_pascal_case(""), "");
}

#[test]
fn element_files_per_platform() {
    let f = element_file("linux", "ColorPicker").unwrap();
    assert_eq!(f.path, "platforms/linux/src/elements/ColorPicker.cpp");
    assert!(f.content.starts_with("// ColorPicker.cpp - Custom element implementation for Linux/GTK4\n"));
    assert!(f.content.contains("static rnl_widget_t color_picker_create() {"));
    let f = element_file("macos", "Color-Picker").unwrap();
    assert_eq!(f.path, "platforms/macos/Sources/Elements/ColorPicker.swift");
    assert!(f.content.starts_with("// ColorPicker.swift - Custom element implementation for macOS\n"));
    assert!(f.content.contains("var color-pickerFactory = rnl_element_factory_t("));
    assert!(f.content.contains("name: strdup(\"Color-Picker\")"));
    let f = element_file("windows", "color-picker").unwrap();
    assert_eq!(f.path, "platforms/windows/src/ColorPicker.cs");
    assert!(element_file("beos", "x").is_none());
    assert_eq!(element_summary("macos", "color-picker").as_deref(), Some("platforms/macos/Sources/Elements/color-picker.swift"));
    assert_eq!(element_summary("beos", "x"), None);
}

#[test]
fn adding_an_element_twice_is_refused() {
    let mut config = Config::default_for_project("app", &["linux", "windows"]);
    let files = plan_add_element(&config, "slider").ok().unwrap();
    let paths: Vec<&str> = files.iter().map(|f| f.path.as_str()).collect();
    assert_eq!(paths, vec!["platforms/linux/src/elements/slider.cpp", "platforms/windows/src/Slider.cs"]);
    record_element(&mut config, "slider");
    assert_eq!(config.elements.custom, vec!["slider"]);
    match plan_add_element(&config, "slider") {
        Err(e @ AddError::ElementExists(_)) => {
            assert_eq!(e.message(), "Element 'slider' already exists in project")
        }
        _ => panic!("expected a refusal"),
    }
}

#[test]
fn adding_a_platform() {
    let mut config = Config::default_for_project("app", &["linux"]);
    match plan_add_platform(&config, "linux") {
        Err(e @ AddError::PlatformEnabled(PlatformKind::Linux)) => {
            assert_eq!(e.message(), "Linux platform already enabled")
        }
        _ => panic!("expected a refusal"),
    }
    match plan_add_platform(&config, "beos") {
        Err(e @ AddError::UnknownPlatform(_)) => {
            assert_eq!(e.message(), "Unknown platform: beos. Valid options: linux, macos, windows")
        }
        _ => panic!("expected an unknown platform"),
    }
    let kind = plan_add_platform(&config, "macos").ok().unwrap();
    assert!(kind == PlatformKind::MacOS);
    assert_eq!(platform_directory(kind), "platforms/macos/Sources/Elements");
    let files = platform_files(kind);
    assert_eq!(files.len(), 1);
    assert_eq!(files[0].path, "platforms/macos/Sources/Platform.swift");
    enable_platform(&mut config, kind);
    assert_eq!(config.enabled_platforms(), vec!["linux", "macos"]);
    match plan_add_platform(&config, "macos") {
        Err(e @ AddError::PlatformEnabled(PlatformKind::MacOS)) => {
            assert_eq!(e.message(), "macOS platform already enabled")
        }
        _ => panic!("expected a refusal"),
    }
    let linux = platform_files(PlatformKind::Linux);
    assert_eq!(linux[0].path, "platforms/linux/src/platform.cpp");
    assert_eq!(linux[0].content, LINUX_PLATFORM_CPP);
    assert_eq!(linux[1].path, "platforms/linux/src/main.cpp");
    assert_eq!(linux[1].content, LINUX_MAIN_CPP);
    let windows = platform_files(PlatformKind::Windows);
    assert_eq!(windows[0].path, "platforms/windows/src/Platform.cs");
}
