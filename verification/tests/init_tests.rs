use rnl::cli::InitOpts;
use rnl::commands::init::{
    generate_app_tsx, generate_package_json, generate_readme, known_platform, parse_platforms,
    platform_source_dir, project_dir, project_directories, project_files, InitError,
};
use rnl::templates::ProjectData;

#[test]
fn platform_lists_are_split_trimmed_and_checked() {
    assert_eq!(parse_platforms("linux, macos ,windows").ok().unwrap(), vec!["linux", "macos", "windows"]);
    match parse_platforms("linux,beos,amiga") {
        Err(e @ InitError::UnknownPlatform(_)) => assert_eq!(
            e.message(),
            "Unknown platform: beos. Valid options: linux, macos, windows"
        ),
        _ => panic!("expected an unknown platform"),
    }
    assert!(parse_platforms("").is_err());
    assert!(known_platform("macos"));
    assert!(!known_platform("Linux"));
}

#[test]
fn directory_exists_message() {
    let e = InitError::DirectoryExists("my-app".to_string());
    assert_eq!(
        e.message(),
        "Directory 'my-app' already exists. Use --dir to specify a different location."
    );
}

#[test]
fn the_project_directory_defaults_to_the_name() {
    let opts = InitOpts { name: "app".to_string(), platforms: "linux".to_string(), dir: None };
    assert_eq!(project_dir(&opts), "app");
    let opts = InitOpts { name: "app".to_string(), platforms: "linux".to_string(), dir: Some("x/y".to_string()) };
    assert_eq!(project_dir(&opts), "x/y");
}

#[test]
fn directories_of_a_new_project() {
    assert_eq!(project_directories(), vec!["", "src", "core", "core/src", "core/include"]);
    assert_eq!(platform_source_dir("linux"), Some("platforms/linux/src/elements"));
    assert_eq!(platform_source_dir("macos"), Some("platforms/macos/Sources/Elements"));
    assert_eq!(platform_source_dir("windows"), Some("platforms/windows/src"));
    assert_eq!(platform_source_dir("beos"), None);
}

#[test]
fn files_of_a_new_project() {
    let files = project_files("my-app", &["linux"]);
    let paths: Vec<&str> = files.iter().map(|f| f.path.as_str()).collect();
    assert_eq!(
        paths,
        vec![
            "package.json",
            "tsconfig.json",
            "src/index.tsx",
            "src/App.tsx",
            "node_modules/rnl/package.json",
            "node_modules/rnl/index.js",
            "node_modules/rnl/index.d.ts",
            "node_modules/rnl/jsx-runtime.js",
            "node_modules/rnl/jsx-runtime.d.ts",
            ".gitignore",
            "README.md",
        ]
    );
    let package = &files[0].content;
    assert!(package.starts_with("{\n  \"name\": \"my-app\",\n  \"version\": \"0.1.0\",\n  \"description\": \"my-app - An RNL application\","));
    assert_eq!(*package, generate_package_json(&ProjectData::new("my-app", &["linux"])));
    assert!(files[3].content.contains("Welcome to my-app!"));
    assert_eq!(files[3].content, generate_app_tsx("my-app"));
    assert!(files[10].content.starts_with("# my-app\n"));
    assert_eq!(files[10].content, generate_readme("my-app"));
}
