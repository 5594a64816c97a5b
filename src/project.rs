//! Project descriptions and the values a new project's templates are
//! filled in with.
use vstd::prelude::*;
use vstd::string::*;
use crate::text::{chars_of, owned, string_of_range, trim_end_char, trim_start_char, trimmed_end, trimmed_start};
use crate::library::{LibrarySpec, lower_of, to_lowercase};
use crate::validation::{alphanumeric, is_alphanumeric};

verus! {

/// Declares handlebars' `RenderError`, carried through as an opaque value.
#[verifier::external_type_specification]
#[verifier::external_body]
pub struct ExRenderError(handlebars::RenderError);

/// The `[project]` table of a project description.
#[derive(Debug, Clone)]
pub struct ProjectInfo {
    pub name: String,
    pub project_name: String,
    pub version: String,
    pub description: String,
    pub author_name: String,
    pub author_email: String,
    pub github_username: String,
    pub license: String,
    pub keywords: Vec<String>,
    pub nockapp_commit_hash: String,
    pub template: String,
}

/// A named library dependency.
#[derive(Debug, Clone)]
pub struct LibraryEntry {
    pub name: String,
    pub spec: LibrarySpec,
}

/// A project description: the project itself and its library dependencies.
#[derive(Debug, Clone)]
pub struct ProjectManifest {
    pub project: ProjectInfo,
    pub libraries: Option<Vec<LibraryEntry>>,
}

/// The texts of `parts` joined with `sep` between neighbours.
pub open spec fn join_spec(parts: Seq<String>, sep: Seq<char>) -> Seq<char>
    decreases parts.len(),
{
    if parts.len() == 0 {
        seq![]
    } else if parts.len() == 1 {
        parts[0]@
    } else {
        join_spec(parts.drop_last(), sep) + sep + parts.last()@
    }
}

/// Joins texts with a separator between neighbours.
pub fn join_texts(parts: &Vec<String>, sep: &str) -> (r: String)
    ensures
        r@ == join_spec(parts@, sep@),
{
    let mut out = String::new();
    let mut i: usize = 0;
    while i < parts.len()
        invariant
            i <= parts@.len(),
            out@ == join_spec(parts@.subrange(0, i as int), sep@),
        decreases parts@.len() - i,
    {
        let ghost pre = parts@.subrange(0, i + 1);
        assert(pre.drop_last() =~= parts@.subrange(0, i as int));
        if i > 0 {
            out.append(sep);
        }
        out.append(parts[i].as_str());
        proof {
            if i == 0 {
                assert(pre.len() == 1);
                assert(out@ =~= join_spec(pre, sep@));
            }
        }
        i = i + 1;
    }
    assert(parts@.subrange(0, parts@.len() as int) =~= parts@);
    out
}

/// The keys of a template context, in order, each with the view of the
/// value it takes from a project.
pub open spec fn context_spec(p: ProjectInfo) -> Seq<(Seq<char>, Seq<char>)> {
    seq![
        ("name"@, p.name@),
        ("project_name"@, p.project_name@),
        ("version"@, p.version@),
        ("project_description"@, p.description@),
        ("description"@, p.description@),
        ("author_name"@, p.author_name@),
        ("author_email"@, p.author_email@),
        ("github_username"@, p.github_username@),
        ("license"@, p.license@),
        ("keywords"@, join_spec(p.keywords@, "\", \""@)),
        ("nockapp_commit_hash"@, p.nockapp_commit_hash@),
        ("template"@, p.template@),
    ]
}

/// The view of a context: each pair's texts.
pub open spec fn pairs_view(v: Seq<(String, String)>) -> Seq<(Seq<char>, Seq<char>)> {
    v.map_values(|kv: (String, String)| (kv.0@, kv.1@))
}

/// The variables a new project's templates are filled in with. Keywords are
/// joined so that a template can write them as a quoted list.
pub fn create_template_context(config: &ProjectManifest) -> (r: Vec<(String, String)>)
    ensures
        pairs_view(r@) == context_spec(config.project),
{
    let p = &config.project;
    let mut c: Vec<(String, String)> = Vec::new();
    c.push((owned("name"), p.name.clone()));
    c.push((owned("project_name"), p.project_name.clone()));
    c.push((owned("version"), p.version.clone()));
    c.push((owned("project_description"), p.description.clone()));
    c.push((owned("description"), p.description.clone()));
    c.push((owned("author_name"), p.author_name.clone()));
    c.push((owned("author_email"), p.author_email.clone()));
    c.push((owned("github_username"), p.github_username.clone()));
    c.push((owned("license"), p.license.clone()));
    c.push((owned("keywords"), join_texts(&p.keywords, "\", \"")));
    c.push((owned("nockapp_commit_hash"), p.nockapp_commit_hash.clone()));
    c.push((owned("template"), p.template.clone()));
    assert(pairs_view(c@) =~= context_spec(config.project));
    c
}

/// A character kept in a sanitised name; anything else becomes `-`.
pub open spec fn sanitize_char(c: char) -> char {
    if alphanumeric(c) {
        c
    } else {
        '-'
    }
}

/// An already lower-cased name made safe for a directory: every character
/// that is not alphanumeric replaced by `-`, and leading and trailing `-`
/// removed.
pub open spec fn sanitize_lowered_spec(lowered: Seq<char>) -> Seq<char> {
    trim_start_char(trim_end_char(lowered.map_values(|c: char| sanitize_char(c)), '-'), '-')
}

/// A name made safe for a directory: lower-cased, then sanitised.
pub open spec fn sanitize_spec(name: Seq<char>) -> Seq<char> {
    sanitize_lowered_spec(lower_of(name))
}

/// A name made safe for a directory.
pub fn sanitize_project_name(name: &str) -> (r: String)
    ensures
        r@ == sanitize_spec(name@),
{
    let lower = to_lowercase(name);
    sanitize_lowered(lower.as_str())
}

/// An already lower-cased name made safe for a directory.
pub fn sanitize_lowered(lowered: &str) -> (r: String)
    ensures
        r@ == sanitize_lowered_spec(lowered@),
{
    let cs = chars_of(lowered);
    let mut mapped: Vec<char> = Vec::new();
    let mut i: usize = 0;
    while i < cs.len()
        invariant
            i <= cs@.len(),
            mapped@ == cs@.subrange(0, i as int).map_values(|c: char| sanitize_char(c)),
        decreases cs@.len() - i,
    {
        let c = cs[i];
        if is_alphanumeric(c) {
            mapped.push(c);
        } else {
            mapped.push('-');
        }
        assert(cs@.subrange(0, i + 1).map_values(|c: char| sanitize_char(c)) =~= cs@.subrange(0, i as int).map_values(
            |c: char| sanitize_char(c),
        ).push(sanitize_char(c)));
        i = i + 1;
    }
    assert(cs@.subrange(0, cs@.len() as int) =~= cs@);
    let hi = trimmed_end(&mapped, mapped.len(), '-');
    assert(mapped@.subrange(0, mapped@.len() as int) =~= mapped@);
    let lo = trimmed_start(&mapped, 0, hi, '-');
    string_of_range(&mapped, lo, hi)
}

/// The Hoon apps a project builds, by the binaries its Cargo manifest
/// declares: one app named `app` for zero or one binary, else one app per
/// binary, named after it.
pub open spec fn hoon_apps_spec(bin_names: Seq<Seq<char>>) -> Seq<Seq<char>> {
    if bin_names.len() <= 1 {
        seq!["app"@]
    } else {
        bin_names
    }
}

/// The Hoon apps a project builds.
pub fn hoon_apps(bin_names: &Vec<String>) -> (r: Vec<String>)
    ensures
        r@.map_values(|s: String| s@) == hoon_apps_spec(bin_names@.map_values(|s: String| s@)),
{
    if bin_names.len() <= 1 {
        let r = vec![owned("app")];
        assert(r@.map_values(|s: String| s@) =~= seq!["app"@]);
        r
    } else {
        let mut r: Vec<String> = Vec::new();
        let mut i: usize = 0;
        while i < bin_names.len()
            invariant
                i <= bin_names@.len(),
                r@.map_values(|s: String| s@) == bin_names@.subrange(0, i as int).map_values(|s: String| s@),
            decreases bin_names@.len() - i,
        {
            r.push(bin_names[i].clone());
            assert(bin_names@.subrange(0, i + 1).map_values(|s: String| s@) =~= bin_names@.subrange(0, i as int).map_values(
                |s: String| s@,
            ).push(bin_names@[i as int]@));
            assert(r@.map_values(|s: String| s@) =~= bin_names@.subrange(0, i as int).map_values(|s: String| s@).push(
                bin_names@[i as int]@,
            ));
            i = i + 1;
        }
        assert(bin_names@.subrange(0, bin_names@.len() as int) =~= bin_names@);
        r
    }
}

/// The source file of a Hoon app, relative to the project directory.
pub fn hoon_app_file(app: &str) -> (r: String)
    ensures
        r@ == "hoon/app/"@ + app@ + ".hoon"@,
{
    let mut r = owned("hoon/app/");
    r.append(app);
    r.append(".hoon");
    r
}

/// The text of a template with its expressions filled in from a context,
/// by the template engine's default rules (values are HTML-escaped).
pub uninterp spec fn rendered(template: Seq<char>, context: Seq<(Seq<char>, Seq<char>)>) -> Seq<char>;

/// Relies on `handlebars::Handlebars::render_template` on a fresh registry:
/// the template rendered with the context's keys bound to their values.
#[verifier::external_body]
fn render_with_handlebars(template: &str, context: &Vec<(String, String)>) -> (r: Result<
    String,
    handlebars::RenderError,
>)
    ensures
        r matches Ok(s) ==> s@ == rendered(template@, pairs_view(context@)),
{
    let data: std::collections::HashMap<&str, &str> = context.iter().map(|(k, v)| (k.as_str(), v.as_str())).collect();
    handlebars::Handlebars::new().render_template(template, &data)
}

/// Why a template could not be rendered.
#[derive(Debug)]
pub enum TemplateError {
    Render(handlebars::RenderError),
}

/// Fills in a template file's text from a context.
pub fn render_template(template: &str, context: &Vec<(String, String)>) -> (r: Result<String, TemplateError>)
    ensures
        r matches Ok(s) ==> s@ == rendered(template@, pairs_view(context@)),
{
    match render_with_handlebars(template, context) {
        Ok(s) => Ok(s),
        Err(e) => Err(TemplateError::Render(e)),
    }
}

} // verus!
