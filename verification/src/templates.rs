//! Template data for project scaffolding, and the handlebars registry of
//! the embedded template files.
use vstd::prelude::*;
use vstd::utf8::{decode_utf8, valid_utf8};
use handlebars::{Handlebars, RenderError, TemplateError};
use crate::config::project_description;
use crate::strings::{chars_of, contains_str, string_of_chars, strs_view};

verus! {

/// The embedded template assets (the files themselves are embedded by the
/// program around the library).
pub struct Templates;

/// Template data for project scaffolding
pub struct ProjectData {
    pub name: String,
    pub version: String,
    pub description: String,
    pub title: String,
    pub width: u32,
    pub height: u32,
    pub platforms: PlatformFlags,
}

/// Which platforms a project targets.
pub struct PlatformFlags {
    pub linux: bool,
    pub macos: bool,
    pub windows: bool,
}

/// What `ProjectData::new(name, platforms)` returns.
pub open spec fn is_project_data(d: ProjectData, name: Seq<char>, platforms: Seq<Seq<char>>) -> bool {
    &&& d.name@ == name
    &&& d.version@ == "0.1.0"@
    &&& d.description@ == project_description(name)
    &&& d.title@ == name
    &&& d.width == 800
    &&& d.height == 600
    &&& d.platforms.linux == platforms.contains("linux"@)
    &&& d.platforms.macos == platforms.contains("macos"@)
    &&& d.platforms.windows == platforms.contains("windows"@)
}

impl ProjectData {
    /// The data of a new project called `name` for `platforms`.
    pub fn new(name: &str, platforms: &[&str]) -> (d: Self)
        ensures
            is_project_data(d, name@, strs_view(platforms@)),
    {
        let mut description = String::from_str(name);
        description.append(" - An RNL application");
        ProjectData {
            name: String::from_str(name),
            version: String::from_str("0.1.0"),
            description,
            title: String::from_str(name),
            width: 800,
            height: 600,
            platforms: PlatformFlags {
                linux: contains_str(platforms, "linux"),
                macos: contains_str(platforms, "macos"),
                windows: contains_str(platforms, "windows"),
            },
        }
    }
}

/// The suffix of template files.
pub open spec fn template_suffix() -> Seq<char> {
    ".hbs"@
}

/// `s` with every trailing repetition of `suffix` removed (`str::trim_end_matches`).
pub open spec fn trim_end_matches_seq(s: Seq<char>, suffix: Seq<char>) -> Seq<char>
    decreases s.len(),
{
    if suffix.len() > 0 && suffix.len() <= s.len() && s.subrange(
        s.len() - suffix.len(),
        s.len() as int,
    ) == suffix {
        trim_end_matches_seq(s.subrange(0, s.len() - suffix.len()), suffix)
    } else {
        s
    }
}

/// The template that a file of the embedded folder defines: files ending in
/// `.hbs` define the template named by the file name without its trailing
/// `.hbs` suffixes; other files define none.
pub open spec fn template_name_spec(file_name: Seq<char>) -> Option<Seq<char>> {
    if file_name.len() >= 4 && file_name.subrange(file_name.len() - 4, file_name.len() as int)
        == template_suffix() {
        Some(trim_end_matches_seq(file_name, template_suffix()))
    } else {
        None
    }
}

/// Whether `v[..end]` ends with `.hbs`.
fn ends_with_hbs(v: &Vec<char>, end: usize) -> (r: bool)
    requires
        end <= v.len(),
    ensures
        r == (end >= 4 && v@.subrange(end - 4, end as int) == template_suffix()),
{
    proof {
        reveal_strlit(".hbs");
    }
    if end < 4 {
        return false;
    }
    let r = v[end - 4] == '.' && v[end - 3] == 'h' && v[end - 2] == 'b' && v[end - 1] == 's';
    let ghost sub = v@.subrange(end - 4, end as int);
    assert(template_suffix() =~= seq!['.', 'h', 'b', 's']);
    if r {
        assert(sub =~= template_suffix());
    } else {
        assert(sub != template_suffix()) by {
            if sub == template_suffix() {
                assert(sub[0] == '.' && sub[1] == 'h' && sub[2] == 'b' && sub[3] == 's');
            }
        }
    }
    r
}

/// The template name that the embedded file `file_name` defines, if any.
pub fn template_name(file_name: &str) -> (r: Option<String>)
    ensures
        match r {
            Some(n) => template_name_spec(file_name@) == Some(n@),
            None => template_name_spec(file_name@) is None,
        },
{
    proof {
        reveal_strlit(".hbs");
    }
    let v = chars_of(file_name);
    if !ends_with_hbs(&v, v.len()) {
        return None;
    }
    let mut end = v.len();
    assert(v@.subrange(0, end as int) =~= v@);
    while ends_with_hbs(&v, end)
        invariant
            end <= v.len(),
            trim_end_matches_seq(v@, template_suffix()) == trim_end_matches_seq(
                v@.subrange(0, end as int),
                template_suffix(),
            ),
        decreases end,
    {
        assert(v@.subrange(0, end as int).subrange(end - 4, end as int) =~= v@.subrange(
            end - 4,
            end as int,
        ));
        assert(v@.subrange(0, end as int).subrange(0, end - 4) =~= v@.subrange(0, end - 4));
        end = end - 4;
    }
    assert(v@.subrange(0, end as int).len() >= 4 ==> v@.subrange(0, end as int).subrange(
        end - 4,
        end as int,
    ) =~= v@.subrange(end - 4, end as int));
    Some(string_of_chars(&v, 0, end))
}

// ---------------------------------------------------------------------------
// The handlebars registry
// ---------------------------------------------------------------------------

/// The handlebars registry (`handlebars::Handlebars`).
#[verifier::external_type_specification]
#[verifier::external_body]
pub struct ExHandlebars<'reg>(Handlebars<'reg>);

/// A template that handlebars could not parse (`handlebars::TemplateError`).
#[verifier::external_type_specification]
#[verifier::external_body]
pub struct ExTemplateError(TemplateError);

/// A failed rendering (`handlebars::RenderError`).
#[verifier::external_type_specification]
#[verifier::external_body]
pub struct ExRenderError(RenderError);

/// The templates registered in a handlebars registry: the source text of
/// each, by name.
pub uninterp spec fn registered_templates(h: Handlebars<'static>) -> Map<Seq<char>, Seq<char>>;

/// Whether a handlebars registry renders in strict mode.
pub uninterp spec fn strict_rendering(h: Handlebars<'static>) -> bool;

/// Whether handlebars' template parser accepts `source` (as a template, not a
/// partial).
pub uninterp spec fn template_compiles(source: Seq<char>) -> bool;

/// What handlebars renders for template `name` of a registry with
/// `templates` (sources by name), in strict mode or not, with the JSON data
/// written as `data`; none when it reports an error.
pub uninterp spec fn rendered(
    templates: Map<Seq<char>, Seq<char>>,
    strict: bool,
    name: Seq<char>,
    data: Seq<char>,
) -> Option<Seq<char>>;

/// Calls `Handlebars::new`, which makes a registry with no templates and
/// strict mode off.
#[verifier::external_body]
fn new_registry() -> (h: Handlebars<'static>)
    ensures
        registered_templates(h).dom() == Set::<Seq<char>>::empty(),
        !strict_rendering(h),
{
    Handlebars::new()
}

/// Calls `Handlebars::set_strict_mode`, which sets the strict flag and
/// leaves the templates alone.
#[verifier::external_body]
fn set_strict_mode(h: &mut Handlebars<'static>, enabled: bool)
    ensures
        registered_templates(*final(h)) == registered_templates(*old(h)),
        strict_rendering(*final(h)) == enabled,
{
    h.set_strict_mode(enabled)
}

/// Calls `Handlebars::register_template_string`: when the source parses,
/// the template is registered under `name` (replacing one of that name);
/// otherwise the registry is left as it was and the parse error returned.
#[verifier::external_body]
fn register_template_string(h: &mut Handlebars<'static>, name: &str, source: &str) -> (r: Result<
    (),
    TemplateError,
>)
    ensures
        r is Ok <==> template_compiles(source@),
        r is Ok ==> registered_templates(*final(h)) == registered_templates(*old(h)).insert(
            name@,
            source@,
        ),
        r is Err ==> registered_templates(*final(h)) == registered_templates(*old(h)),
        strict_rendering(*final(h)) == strict_rendering(*old(h)),
{
    h.register_template_string(name, source)
}

/// Calls `Handlebars::render` with the JSON data that `data` writes (parsed
/// by `serde_json::from_str`; text that is not JSON is a render error, as
/// data that cannot be serialised is).  The result is named `rendered`, a
/// function of the registry's templates and strict flag, the name and the
/// data; a name under which no template is registered fails.
#[verifier::external_body]
fn render_registered(h: &Handlebars<'static>, name: &str, data: &str) -> (r: Result<
    String,
    RenderError,
>)
    ensures
        match r {
            Ok(s) => rendered(registered_templates(*h), strict_rendering(*h), name@, data@) == Some(
                s@,
            ),
            Err(_) => rendered(registered_templates(*h), strict_rendering(*h), name@, data@) is None,
        },
        !registered_templates(*h).contains_key(name@) ==> r is Err,
{
    match serde_json::from_str::<serde_json::Value>(data) {
        Ok(value) => h.render(name, &value),
        Err(e) => Err(RenderError::from(handlebars::RenderErrorReason::SerdeError(e))),
    }
}

/// Calls `std::str::from_utf8`, which accepts exactly the valid UTF-8 byte
/// sequences, and copies the text it decodes.
#[verifier::external_body]
fn utf8_text(bytes: &[u8]) -> (r: Option<String>)
    ensures
        match r {
            Some(s) => valid_utf8(bytes@) && s@ == decode_utf8(bytes@),
            None => !valid_utf8(bytes@),
        },
{
    std::str::from_utf8(bytes).ok().map(|s| s.to_string())
}

/// An embedded file: its name, and its contents when they could be loaded.
pub open spec fn embedded_view(f: (String, Option<Vec<u8>>)) -> (Seq<char>, Option<Seq<u8>>) {
    (
        f.0@,
        match f.1 {
            Some(d) => Some(d@),
            None => None,
        },
    )
}

/// Whether the embedded file `f` can be registered: it is not a template
/// file, or its contents were loaded, are UTF-8 and parse as a template.
pub open spec fn template_file_ok(f: (Seq<char>, Option<Seq<u8>>)) -> bool {
    template_name_spec(f.0) is None || (f.1 matches Some(b) && valid_utf8(b) && template_compiles(
        decode_utf8(b),
    ))
}

/// The templates that the embedded files define, by template name: the
/// decoded contents of each template file, a later file replacing an
/// earlier one of the same template name.
pub open spec fn template_sources_of(files: Seq<(Seq<char>, Option<Seq<u8>>)>) -> Map<
    Seq<char>,
    Seq<char>,
>
    decreases files.len(),
{
    if files.len() == 0 {
        Map::empty()
    } else {
        let prev = template_sources_of(files.drop_last());
        let f = files.last();
        match template_name_spec(f.0) {
            Some(n) => match f.1 {
                Some(b) => prev.insert(n, decode_utf8(b)),
                None => prev,
            },
            None => prev,
        }
    }
}

/// Why the templates could not be registered.
pub enum TemplateLoadError {
    /// The contents of a template file could not be loaded.
    Missing(String),
    /// A template file is not UTF-8.
    NotUtf8(String),
    /// A template file does not parse.
    Invalid(String, TemplateError),
}

impl TemplateLoadError {
    /// The file that the error is about.
    pub open spec fn file(&self) -> Seq<char> {
        match self {
            TemplateLoadError::Missing(n) => n@,
            TemplateLoadError::NotUtf8(n) => n@,
            TemplateLoadError::Invalid(n, _) => n@,
        }
    }
}

/// A template that could not be rendered.
pub struct TemplateRenderError {
    pub template: String,
    pub error: RenderError,
}

/// The result of rendering `template_name`, given what handlebars returned:
/// the text, or the error together with the template's name.
pub fn render_result(template_name: &str, r: Result<String, RenderError>) -> (out: Result<
    String,
    TemplateRenderError,
>)
    ensures
        match (r, out) {
            (Ok(s), Ok(t)) => t@ == s@,
            (Err(e), Err(f)) => f.template@ == template_name@ && f.error == e,
            _ => false,
        },
{
    match r {
        Ok(s) => Ok(s),
        Err(error) => Err(TemplateRenderError { template: String::from_str(template_name), error }),
    }
}

/// Renders the embedded templates with handlebars.
pub struct TemplateRenderer {
    hbs: Handlebars<'static>,
}

impl TemplateRenderer {
    /// The registered templates: the source of each, by name.
    pub closed spec fn templates(&self) -> Map<Seq<char>, Seq<char>> {
        registered_templates(self.hbs)
    }

    /// Whether rendering is strict (a missing value is an error).
    pub closed spec fn strict(&self) -> bool {
        strict_rendering(self.hbs)
    }

    /// A strict renderer with every template of the embedded files
    /// registered under its template name; or the first template file that
    /// could not be loaded, is not UTF-8 or does not parse.
    pub fn new(files: &Vec<(String, Option<Vec<u8>>)>) -> (r: Result<Self, TemplateLoadError>)
        ensures
            match r {
                Ok(t) => {
                    &&& t.strict()
                    &&& t.templates() == template_sources_of(
                        files@.map_values(|f: (String, Option<Vec<u8>>)| embedded_view(f)),
                    )
                    &&& forall|i: int|
                        0 <= i < files@.len() ==> template_file_ok(
                            #[trigger] embedded_view(files@[i]),
                        )
                },
                Err(e) => exists|i: int|
                    0 <= i < files@.len() && e.file() == files@[i].0@ && !template_file_ok(
                        embedded_view(files@[i]),
                    ) && (match e {
                        TemplateLoadError::Missing(_) => files@[i].1 is None,
                        TemplateLoadError::NotUtf8(_) => files@[i].1 matches Some(d) && !valid_utf8(
                            d@,
                        ),
                        TemplateLoadError::Invalid(_, _) => files@[i].1 matches Some(d) && valid_utf8(
                            d@,
                        ) && !template_compiles(decode_utf8(d@)),
                    }) && forall|j: int|
                        0 <= j < i ==> template_file_ok(#[trigger] embedded_view(files@[j])),
            },
    {
        let ghost fs = files@.map_values(|f: (String, Option<Vec<u8>>)| embedded_view(f));
        let mut hbs = new_registry();
        set_strict_mode(&mut hbs, true);
        let mut i: usize = 0;
        while i < files.len()
            invariant
                i <= files@.len(),
                fs == files@.map_values(|f: (String, Option<Vec<u8>>)| embedded_view(f)),
                strict_rendering(hbs),
                registered_templates(hbs) == template_sources_of(fs.take(i as int)),
                forall|j: int| 0 <= j < i ==> template_file_ok(#[trigger] embedded_view(files@[j])),
            decreases files@.len() - i,
        {
            let (file_name, data) = &files[i];
            let ghost f = embedded_view(files@[i as int]);
            let ghost prev = fs.take(i as int);
            let ghost next = fs.take(i + 1);
            assert(next.drop_last() =~= prev);
            assert(next.last() == f);
            match template_name(file_name.as_str()) {
                None => {},
                Some(name) => {
                    let bytes = match data {
                        Some(d) => d,
                        None => {
                            return Err(TemplateLoadError::Missing(file_name.clone()));
                        },
                    };
                    let text = match utf8_text(bytes.as_slice()) {
                        Some(t) => t,
                        None => {
                            return Err(TemplateLoadError::NotUtf8(file_name.clone()));
                        },
                    };
                    match register_template_string(&mut hbs, name.as_str(), text.as_str()) {
                        Ok(()) => {},
                        Err(e) => {
                            return Err(TemplateLoadError::Invalid(file_name.clone(), e));
                        },
                    }
                },
            }
            i = i + 1;
        }
        assert(fs.take(i as int) =~= fs);
        Ok(TemplateRenderer { hbs })
    }

    /// Renders template `template_name` with the JSON data that `data`
    /// writes: the text that handlebars renders, or its error.
    pub fn render(&self, template_name: &str, data: &str) -> (r: Result<
        String,
        TemplateRenderError,
    >)
        ensures
            match r {
                Ok(s) => rendered(self.templates(), self.strict(), template_name@, data@) == Some(
                    s@,
                ),
                Err(e) => rendered(self.templates(), self.strict(), template_name@, data@) is None
                    && e.template@ == template_name@,
            },
            !self.templates().contains_key(template_name@) ==> r is Err,
    {
        render_result(template_name, render_registered(&self.hbs, template_name, data))
    }
}

} // verus!
