use rnl::templates::ProjectData;

#[test]
fn test_project_data() {
    let data = ProjectData::new("my-app", &["linux", "macos"]);
    assert_eq!(data.name, "my-app");
    assert!(data.platforms.linux);
    assert!(data.platforms.macos);
    assert!(!data.platforms.windows);
}

use rnl::templates::{render_result, template_name, TemplateLoadError, TemplateRenderer};

#[test]
fn project_data_of_a_new_project() {
    let data = ProjectData::new("demo", &["windows"]);
    assert_eq!(data.version, "0.1.0");
    assert_eq!(data.description, "demo - An RNL application");
    assert_eq!(data.title, "demo");
    assert_eq!((data.width, data.height), (800, 600));
    assert!(!data.platforms.linux && !data.platforms.macos && data.platforms.windows);
}

#[test]
fn template_names_drop_the_hbs_suffix() {
    assert_eq!(template_name("package.json.hbs").as_deref(), Some("package.json"));
    assert_eq!(template_name("a.hbs.hbs").as_deref(), Some("a"));
    assert_eq!(template_name(".hbs").as_deref(), Some(""));
    assert_eq!(template_name("README.md"), None);
    assert_eq!(template_name("hbs"), None);
}

fn file(name: &str, data: Option<&[u8]>) -> (String, Option<Vec<u8>>) {
    (name.to_string(), data.map(|d| d.to_vec()))
}

#[test]
fn renderer_registers_and_renders_templates() {
    let files = vec![
        file("greeting.hbs", Some(b"Hello {{name}}!")),
        file("logo.png", None),
        file("page.hbs", Some(b"<{{> greeting}}>")),
    ];
    let renderer = TemplateRenderer::new(&files).ok().unwrap();
    let data = "{\"name\": \"World\"}";
    assert_eq!(renderer.render("greeting", data).ok().unwrap(), "Hello World!");
    assert_eq!(renderer.render("page", data).ok().unwrap(), "<Hello World!>");
    let err = renderer.render("missing", data).err().unwrap();
    assert_eq!(err.template, "missing");
    assert!(renderer.render("greeting", "{}").is_err());
    assert!(renderer.render("greeting", "not json").is_err());
}

#[test]
fn a_later_template_file_replaces_an_earlier_one() {
    let files = vec![file("a.hbs", Some(b"first")), file("a.hbs.hbs", Some(b"second"))];
    let renderer = TemplateRenderer::new(&files).ok().unwrap();
    assert_eq!(renderer.render("a", "{}").ok().unwrap(), "second");
}

#[test]
fn render_results_carry_the_template_name() {
    assert_eq!(render_result("t", Ok("x".to_string())).ok().unwrap(), "x");
    let files = vec![file("t.hbs", Some(b"x"))];
    let renderer = TemplateRenderer::new(&files).ok().unwrap();
    let failed = renderer.render("u", "{}").err().unwrap();
    let again = render_result("v", Err(failed.error)).err().unwrap();
    assert_eq!(again.template, "v");
}

#[test]
fn renderer_reports_the_first_bad_template() {
    let missing = vec![file("ok.hbs", Some(b"x")), file("gone.hbs", None)];
    assert!(matches!(TemplateRenderer::new(&missing), Err(TemplateLoadError::Missing(n)) if n == "gone.hbs"));
    let binary = vec![file("bin.hbs", Some(&[0xff, 0xfe])), file("gone.hbs", None)];
    assert!(matches!(TemplateRenderer::new(&binary), Err(TemplateLoadError::NotUtf8(n)) if n == "bin.hbs"));
    let broken = vec![file("bad.hbs", Some(b"{{#if x}}no end")), file("gone.hbs", None)];
    assert!(matches!(TemplateRenderer::new(&broken), Err(TemplateLoadError::Invalid(n, _)) if n == "bad.hbs"));
    let ignored = vec![file("notes.txt", None), file("data.bin", Some(&[0xff]))];
    assert!(TemplateRenderer::new(&ignored).is_ok());
}
