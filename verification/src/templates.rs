//! Templates and the engine that renders them.
//!
//! The texts come with the library ([`sources`]); rendering is the work of
//! the `handlebars` crate. What the engine answers is not proved here: the
//! contracts name the text it renders to ([`engine_text`]), say what holds
//! whatever it answers, and say what the library makes of its answers.
//!
//! A renderer takes no template that includes another ([`includes`]): that
//! keeps every rendering finite, whatever templates a caller adds.

pub mod includes;
pub mod list;
pub mod sources;

use crate::error::Error;
use crate::error::ErrorView;
use crate::templates::includes::includes_templates;
use crate::templates::includes::includes_templates_spec;
use crate::templates::list::contains_helper;
use crate::templates::sources::builtin_table;
use crate::templates::sources::table_view;
use crate::templates::sources::template_table;
use crate::text::texts;
use vstd::prelude::*;
use vstd::string::StringExecFns;

verus! {

/// The registry of the `handlebars` crate: compiled templates and helpers by name.
#[verifier::external_type_specification]
#[verifier::external_body]
pub struct ExHandlebars<'reg>(handlebars::Handlebars<'reg>);

/// What a template can read from a field of its data.
#[derive(Debug, Clone)]
pub enum FieldValue {
    /// A text.
    Text(String),
    /// A switch.
    Flag(bool),
}

/// A [`FieldValue`] with its text as a sequence of characters.
pub enum FieldValueView {
    Text(Seq<char>),
    Flag(bool),
}

impl View for FieldValue {
    type V = FieldValueView;

    open spec fn view(&self) -> FieldValueView {
        match self {
            FieldValue::Text(text) => FieldValueView::Text(text@),
            FieldValue::Flag(flag) => FieldValueView::Flag(*flag),
        }
    }
}

/// The names and values of a list of fields.
pub open spec fn fields_view(fields: Seq<(String, FieldValue)>) -> Seq<(Seq<char>, FieldValueView)> {
    fields.map_values(|field: (String, FieldValue)| (field.0@, field.1@))
}

/// Why the engine did not render a template.
#[derive(Debug, Clone)]
pub enum RenderFailure {
    /// No template is registered under the name.
    TemplateNotFound(String),
    /// Any other failure, in the engine's words.
    Engine(String),
}

/// A [`RenderFailure`] with its texts as sequences of characters.
pub enum RenderFailureView {
    TemplateNotFound(Seq<char>),
    Engine(Seq<char>),
}

impl View for RenderFailure {
    type V = RenderFailureView;

    open spec fn view(&self) -> RenderFailureView {
        match self {
            RenderFailure::TemplateNotFound(name) => RenderFailureView::TemplateNotFound(name@),
            RenderFailure::Engine(reason) => RenderFailureView::Engine(reason@),
        }
    }
}

/// What the engine handed back, with its texts as sequences of characters.
pub open spec fn rendered_view(rendered: Result<String, RenderFailure>) -> Result<
    Seq<char>,
    RenderFailureView,
> {
    match rendered {
        Ok(text) => Ok(text@),
        Err(failure) => Err(failure@),
    }
}

/// The templates a registry holds: the text each was registered with, by name.
pub uninterp spec fn registry_templates(registry: handlebars::Handlebars<'static>) -> Map<
    Seq<char>,
    Seq<char>,
>;

/// The names under which a registry holds the helper that tests whether a
/// list has an item ([`contains_helper`]).
pub uninterp spec fn registry_list_helpers(registry: handlebars::Handlebars<'static>) -> Set<
    Seq<char>,
>;

/// The text that the engine renders the template `name` to with the data
/// `fields`, in a registry that holds `templates` and has the list helper
/// under the names `list_helpers`; nothing where the engine fails. Why it
/// fails has no name: the engine's words for a failure may differ from one
/// run to the next.
pub uninterp spec fn engine_text(
    templates: Map<Seq<char>, Seq<char>>,
    list_helpers: Set<Seq<char>>,
    name: Seq<char>,
    fields: Seq<(Seq<char>, FieldValueView)>,
) -> Option<Seq<char>>;

/// The text that the engine handed back, where it handed one back.
pub open spec fn rendered_text(rendered: Result<String, RenderFailure>) -> Option<Seq<char>> {
    match rendered {
        Ok(text) => Some(text@),
        Err(_) => None,
    }
}

/// The failure that says that no template is registered under `name`.
pub open spec fn not_found(name: Seq<char>) -> Result<Seq<char>, RenderFailureView> {
    Err(RenderFailureView::TemplateNotFound(name))
}

/// Whether none of `templates` includes another template.
pub open spec fn stand_alone(templates: Map<Seq<char>, Seq<char>>) -> bool {
    forall|name: Seq<char>|
        templates.dom().contains(name) ==> !includes_templates_spec(#[trigger] templates[name])
}

/// No templates.
pub open spec fn no_templates() -> Map<Seq<char>, Seq<char>> {
    Map::empty()
}

/// No names.
pub open spec fn no_names() -> Set<Seq<char>> {
    Set::empty()
}

/// `Handlebars::new` makes a registry with the engine's own helpers and
/// nothing else. Assumed: it holds no template, and the list helper under
/// no name.
#[verifier::external_body]
fn new_registry() -> (registry: handlebars::Handlebars<'static>)
    ensures
        registry_templates(registry) == no_templates(),
        registry_list_helpers(registry) == no_names(),
{
    handlebars::Handlebars::new()
}

/// `Handlebars::register_helper` stores a helper under a name, in place of
/// the one that was there. The helper stored here hands its first two
/// arguments, where they are texts, to [`contains_helper`] and writes what
/// comes back. Assumed: the name joins the names of the list helper, and the
/// templates stay as they are.
#[verifier::external_body]
fn register_list_helper(registry: &mut handlebars::Handlebars<'static>, name: &str)
    ensures
        registry_list_helpers(*final(registry)) == registry_list_helpers(*old(registry)).insert(
            name@,
        ),
        registry_templates(*final(registry)) == registry_templates(*old(registry)),
{
    registry.register_helper(
        name,
        Box::new(
            |h: &handlebars::Helper<'_>,
             _: &handlebars::Handlebars<'_>,
             _: &handlebars::Context,
             _: &mut handlebars::RenderContext<'_, '_>,
             out: &mut dyn handlebars::Output|
             -> handlebars::HelperResult {
                let list = h.param(0).and_then(|p| p.value().as_str());
                let value = h.param(1).and_then(|p| p.value().as_str());
                Ok(out.write(contains_helper(list, value))?)
            },
        ),
    );
}

/// `Handlebars::register_template_string` compiles a text and, where it
/// compiles, stores it under the name, in place of what was there. Whether
/// a text compiles is not assumed to depend on the text alone: the parser
/// also gives up where its budget of calls or the stack runs short.
/// Assumed: on success the template is stored with that text; on failure
/// the registry is as before, and the result is the engine's account of the
/// failure; the helpers stay as they are; the call comes back, whatever the
/// text.
#[verifier::external_body]
fn register_source(registry: &mut handlebars::Handlebars<'static>, name: &str, source: &str) -> (done:
    Result<(), String>)
    ensures
        registry_templates(*final(registry)) == if done is Ok {
            registry_templates(*old(registry)).insert(name@, source@)
        } else {
            registry_templates(*old(registry))
        },
        registry_list_helpers(*final(registry)) == registry_list_helpers(*old(registry)),
    no_unwind
{
    registry.register_template_string(name, source).map_err(|e| e.to_string())
}

/// `Handlebars::has_template` answers whether a template is stored under a
/// name. Assumed: it answers by the templates that the registry holds.
#[verifier::external_body]
fn is_registered(registry: &handlebars::Handlebars<'static>, name: &str) -> (held: bool)
    ensures
        held == registry_templates(*registry).dom().contains(name@),
{
    registry.has_template(name)
}

/// `Handlebars::render` renders the template registered under a name with
/// the given data; here the data is an object with one member for each
/// field, a string or a boolean. Templates that include one another would
/// keep the engine rendering without end, so none of the registry's
/// templates may include another. Assumed: whether the engine renders, and
/// the text it renders to, depend only on the registry's templates and list
/// helpers, the name and the fields; and where no template is registered
/// under the name, the outcome is the failure that says so. Nothing is
/// assumed of the words of any other failure.
#[verifier::external_body]
fn render_registered(
    registry: &handlebars::Handlebars<'static>,
    name: &str,
    fields: &Vec<(String, FieldValue)>,
) -> (rendered: Result<String, RenderFailure>)
    requires
        stand_alone(registry_templates(*registry)),
    ensures
        rendered_text(rendered) == engine_text(
            registry_templates(*registry),
            registry_list_helpers(*registry),
            name@,
            fields_view(fields@),
        ),
        !registry_templates(*registry).dom().contains(name@) ==> rendered_view(rendered)
            == not_found(name@),
{
    let data: serde_json::Map<String, serde_json::Value> = fields.iter().map(
        |f| (f.0.clone(), match &f.1 {
            FieldValue::Text(text) => serde_json::Value::String(text.clone()),
            FieldValue::Flag(flag) => serde_json::Value::Bool(*flag),
        }),
    ).collect();
    registry.render(name, &data).map_err(
        |e| match e.reason() {
            handlebars::RenderErrorReason::TemplateNotFound(n) => RenderFailure::TemplateNotFound(
                n.clone(),
            ),
            _ => RenderFailure::Engine(e.to_string()),
        },
    )
}

/// The values that the templates of a project are rendered with.
#[derive(Debug, Clone)]
pub struct ProjectTemplateData {
    /// Name of the project.
    pub name: String,
    /// The two digits of the C++ standard.
    pub cpp_standard: String,
    /// Whether the project is a library.
    pub is_library: bool,
    /// The name of the project as a C++ namespace.
    pub namespace: String,
    /// The name of the build system.
    pub build_system: String,
    /// What the project is, in a sentence.
    pub description: String,
    /// Who wrote the project.
    pub author: String,
    /// The version the project starts at.
    pub version: String,
    /// The year the project is created in.
    pub year: String,
    /// Whether the project has tests.
    pub enable_tests: bool,
    /// The name of the test framework.
    pub test_framework: String,
    /// The name of the package manager.
    pub package_manager: String,
    /// The static analysis tools, as a list with commas.
    pub quality_config: String,
    /// The formatters, as a list with commas.
    pub code_formatter: String,
}

/// A [`ProjectTemplateData`] with its texts as sequences of characters.
pub struct ProjectTemplateDataView {
    pub name: Seq<char>,
    pub cpp_standard: Seq<char>,
    pub is_library: bool,
    pub namespace: Seq<char>,
    pub build_system: Seq<char>,
    pub description: Seq<char>,
    pub author: Seq<char>,
    pub version: Seq<char>,
    pub year: Seq<char>,
    pub enable_tests: bool,
    pub test_framework: Seq<char>,
    pub package_manager: Seq<char>,
    pub quality_config: Seq<char>,
    pub code_formatter: Seq<char>,
}

impl View for ProjectTemplateData {
    type V = ProjectTemplateDataView;

    open spec fn view(&self) -> ProjectTemplateDataView {
        ProjectTemplateDataView {
            name: self.name@,
            cpp_standard: self.cpp_standard@,
            is_library: self.is_library,
            namespace: self.namespace@,
            build_system: self.build_system@,
            description: self.description@,
            author: self.author@,
            version: self.version@,
            year: self.year@,
            enable_tests: self.enable_tests,
            test_framework: self.test_framework@,
            package_manager: self.package_manager@,
            quality_config: self.quality_config@,
            code_formatter: self.code_formatter@,
        }
    }
}

impl ProjectTemplateDataView {
    /// The fields a template can read, each under the name it is read by.
    pub open spec fn fields(self) -> Seq<(Seq<char>, FieldValueView)> {
        seq![
            ("name"@, FieldValueView::Text(self.name)),
            ("cpp_standard"@, FieldValueView::Text(self.cpp_standard)),
            ("is_library"@, FieldValueView::Flag(self.is_library)),
            ("namespace"@, FieldValueView::Text(self.namespace)),
            ("build_system"@, FieldValueView::Text(self.build_system)),
            ("description"@, FieldValueView::Text(self.description)),
            ("author"@, FieldValueView::Text(self.author)),
            ("version"@, FieldValueView::Text(self.version)),
            ("year"@, FieldValueView::Text(self.year)),
            ("enable_tests"@, FieldValueView::Flag(self.enable_tests)),
            ("test_framework"@, FieldValueView::Text(self.test_framework)),
            ("package_manager"@, FieldValueView::Text(self.package_manager)),
            ("quality_config"@, FieldValueView::Text(self.quality_config)),
            ("code_formatter"@, FieldValueView::Text(self.code_formatter)),
        ]
    }
}

/// A field that holds a text.
fn text_field(name: &str, value: &String) -> (field: (String, FieldValue))
    ensures
        field.0@ == name@,
        field.1@ == FieldValueView::Text(value@),
{
    (String::from_str(name), FieldValue::Text(value.clone()))
}

/// A field that holds a switch.
fn flag_field(name: &str, value: bool) -> (field: (String, FieldValue))
    ensures
        field.0@ == name@,
        field.1@ == FieldValueView::Flag(value),
{
    (String::from_str(name), FieldValue::Flag(value))
}

impl ProjectTemplateData {
    /// The fields a template can read, each under the name it is read by.
    pub fn fields(&self) -> (fields: Vec<(String, FieldValue)>)
        ensures
            fields_view(fields@) == self@.fields(),
    {
        let mut fields: Vec<(String, FieldValue)> = Vec::new();
        fields.push(text_field("name", &self.name));
        fields.push(text_field("cpp_standard", &self.cpp_standard));
        fields.push(flag_field("is_library", self.is_library));
        fields.push(text_field("namespace", &self.namespace));
        fields.push(text_field("build_system", &self.build_system));
        fields.push(text_field("description", &self.description));
        fields.push(text_field("author", &self.author));
        fields.push(text_field("version", &self.version));
        fields.push(text_field("year", &self.year));
        fields.push(flag_field("enable_tests", self.enable_tests));
        fields.push(text_field("test_framework", &self.test_framework));
        fields.push(text_field("package_manager", &self.package_manager));
        fields.push(text_field("quality_config", &self.quality_config));
        fields.push(text_field("code_formatter", &self.code_formatter));
        assert(fields_view(fields@) =~= self@.fields());
        fields
    }
}

/// A template and the place, inside the project, of the file it renders to.
#[derive(Debug, Clone)]
pub struct TemplateOutput {
    /// The name the template is registered under.
    pub template: String,
    /// The path of the file, from the project's directory.
    pub path: String,
}

/// A [`TemplateOutput`] with its texts as sequences of characters.
pub struct TemplateOutputView {
    pub template: Seq<char>,
    pub path: Seq<char>,
}

impl View for TemplateOutput {
    type V = TemplateOutputView;

    open spec fn view(&self) -> TemplateOutputView {
        TemplateOutputView { template: self.template@, path: self.path@ }
    }
}

/// A file of the project: where it goes and what it holds.
#[derive(Debug, Clone)]
pub struct GeneratedFile {
    /// The path of the file, from the project's directory.
    pub path: String,
    /// What the file holds.
    pub contents: String,
}

/// A [`GeneratedFile`] with its texts as sequences of characters.
pub struct GeneratedFileView {
    pub path: Seq<char>,
    pub contents: Seq<char>,
}

impl View for GeneratedFile {
    type V = GeneratedFileView;

    open spec fn view(&self) -> GeneratedFileView {
        GeneratedFileView { path: self.path@, contents: self.contents@ }
    }
}

/// What becomes of the engine's answer for the template `name`: the text
/// where there is one; where the engine knows no such template, the error
/// that says so; for any other failure, the error that carries the engine's words.
pub open spec fn outcome_spec(name: Seq<char>, rendered: Result<Seq<char>, RenderFailureView>) -> Result<
    Seq<char>,
    ErrorView,
> {
    match rendered {
        Ok(text) => Ok(text),
        Err(RenderFailureView::TemplateNotFound(missing)) => Err(
            ErrorView::TemplateNotFound(missing),
        ),
        Err(RenderFailureView::Engine(reason)) => Err(ErrorView::RenderFailed { name, reason }),
    }
}

/// The text that the template `name` renders to with `fields`, in a registry
/// that holds `templates` and has the list helper under `list_helpers`;
/// nothing where it does not render.
pub open spec fn render_spec(
    templates: Map<Seq<char>, Seq<char>>,
    list_helpers: Set<Seq<char>>,
    name: Seq<char>,
    fields: Seq<(Seq<char>, FieldValueView)>,
) -> Option<Seq<char>> {
    engine_text(templates, list_helpers, name, fields)
}

/// Whether `e` is what comes back where the template `name` does not render
/// in a registry that holds `templates`. Where no template is registered
/// under the name, it is the failure that says so. Else it is the engine's
/// failure on this template, whose words are the engine's and left open; or
/// the engine's report that some template was not found.
pub open spec fn is_failure_of(
    templates: Map<Seq<char>, Seq<char>>,
    name: Seq<char>,
    e: ErrorView,
) -> bool {
    if templates.dom().contains(name) {
        e is TemplateNotFound || (e is RenderFailed && e->RenderFailed_name == name)
    } else {
        e == ErrorView::TemplateNotFound(name)
    }
}

/// Whether a template comes with the library under the name `name` and
/// with the text `source`.
pub open spec fn is_table_entry(name: Seq<char>, source: Seq<char>) -> bool {
    exists|i: int| 0 <= i < builtin_table().len() && #[trigger] builtin_table()[i] == (name, source)
}

/// Whether a template comes with the library under the name `name`.
pub open spec fn is_table_name(name: Seq<char>) -> bool {
    exists|i: int| 0 <= i < builtin_table().len() && (#[trigger] builtin_table()[i]).0 == name
}

/// Whether every template of `templates` comes with the library, under its
/// name and with its text.
pub open spec fn hold_table_entries(templates: Map<Seq<char>, Seq<char>>) -> bool {
    forall|name: Seq<char>|
        templates.dom().contains(name) ==> is_table_entry(name, #[trigger] templates[name])
}

/// The name of the helper that tests whether a list has an item.
pub const LIST_HELPER: &'static str = "contains";

/// Turns the engine's answer for the template `name` into the library's own terms.
pub fn render_outcome(name: &str, rendered: Result<String, RenderFailure>) -> (outcome: Result<
    String,
    Error,
>)
    ensures
        match outcome {
            Ok(text) => outcome_spec(name@, rendered_view(rendered)) == Ok::<Seq<char>, ErrorView>(
                text@,
            ),
            Err(e) => outcome_spec(name@, rendered_view(rendered)) == Err::<Seq<char>, ErrorView>(
                e@,
            ),
        },
{
    match rendered {
        Ok(text) => Ok(text),
        Err(RenderFailure::TemplateNotFound(missing)) => Err(Error::TemplateNotFound(missing)),
        Err(RenderFailure::Engine(reason)) => Err(
            Error::RenderFailed { name: String::from_str(name), reason },
        ),
    }
}

/// Makes the registry that the library renders with: the list helper under
/// its name, and each template of the table that includes no other and that
/// the engine takes. Whatever the engine takes: the registry holds nothing
/// but templates of the table, each with its text.
fn create_template_registry() -> (registry: handlebars::Handlebars<'static>)
    ensures
        stand_alone(registry_templates(registry)),
        hold_table_entries(registry_templates(registry)),
        registry_list_helpers(registry) == no_names().insert(LIST_HELPER@),
{
    let mut registry = new_registry();
    register_list_helper(&mut registry, LIST_HELPER);
    let table = template_table();
    let mut i: usize = 0;
    while i < table.len()
        invariant
            i <= table.len(),
            table_view(table@) == builtin_table(),
            stand_alone(registry_templates(registry)),
            hold_table_entries(registry_templates(registry)),
            registry_list_helpers(registry) == no_names().insert(LIST_HELPER@),
        decreases table.len() - i,
    {
        let entry = table[i];
        if !includes_templates(entry.1) {
            let ghost before = registry_templates(registry);
            let _ = register_source(&mut registry, entry.0, entry.1);
            proof {
                let after = registry_templates(registry);
                assert(builtin_table()[i as int] == (entry.0@, entry.1@)) by {
                    assert(table_view(table@)[i as int] == (entry.0@, entry.1@));
                }
                assert forall|name: Seq<char>| after.dom().contains(name) implies is_table_entry(
                    name,
                    #[trigger] after[name],
                ) by {
                    if name != entry.0@ || after == before {
                        assert(before.dom().contains(name));
                        assert(is_table_entry(name, before[name]));
                    }
                }
            }
        }
        i += 1;
    }
    registry
}

/// Renders templates by name.
pub struct TemplateRenderer {
    registry: handlebars::Handlebars<'static>,
}

impl TemplateRenderer {
    /// None of the renderer's templates includes another.
    #[verifier::type_invariant]
    spec fn stands_alone(&self) -> bool {
        stand_alone(registry_templates(self.registry))
    }

    /// The templates the renderer holds: the text of each, by name.
    pub closed spec fn templates(&self) -> Map<Seq<char>, Seq<char>> {
        registry_templates(self.registry)
    }

    /// The names under which the renderer holds the list helper.
    pub closed spec fn list_helpers(&self) -> Set<Seq<char>> {
        registry_list_helpers(self.registry)
    }

    /// The text that the template `name` renders to with `data`; nothing
    /// where it does not render.
    pub open spec fn rendering(&self, name: Seq<char>, data: ProjectTemplateDataView) -> Option<
        Seq<char>,
    > {
        render_spec(self.templates(), self.list_helpers(), name, data.fields())
    }

    /// Whether the renderer holds what a new one holds: templates that come
    /// with the library, each with its text, and the list helper under its
    /// name. Which of the library's templates it holds is for the engine to
    /// say; [`TemplateRenderer::missing_templates`] tells.
    pub open spec fn is_builtin(&self) -> bool {
        &&& hold_table_entries(self.templates())
        &&& self.list_helpers() == no_names().insert(LIST_HELPER@)
    }

    /// A renderer with the templates that come with the library. A text that
    /// the engine refuses is left out, and rendering it fails later as an
    /// unknown template.
    pub fn new() -> (renderer: Self)
        ensures
            renderer.is_builtin(),
    {
        Self { registry: create_template_registry() }
    }

    /// Whether a template is held under `name`.
    pub fn has_template(&self, name: &str) -> (held: bool)
        ensures
            held == self.templates().dom().contains(name@),
    {
        is_registered(&self.registry, name)
    }

    /// The names of the library's templates that the renderer does not hold,
    /// in the order of the table: none, where the engine took them all.
    pub fn missing_templates(&self) -> (missing: Vec<String>)
        ensures
            forall|name: Seq<char>|
                #[trigger] texts(missing@).contains(name) <==> is_table_name(name)
                    && !self.templates().dom().contains(name),
    {
        let table = template_table();
        let mut missing: Vec<String> = Vec::new();
        let mut i: usize = 0;
        while i < table.len()
            invariant
                i <= table.len(),
                table_view(table@) == builtin_table(),
                forall|name: Seq<char>|
                    #[trigger] texts(missing@).contains(name) <==> (exists|k: int|
                        0 <= k < i && (#[trigger] builtin_table()[k]).0 == name)
                        && !self.templates().dom().contains(name),
            decreases table.len() - i,
        {
            let name = table[i].0;
            let ghost before = texts(missing@);
            assert(builtin_table()[i as int].0 == name@) by {
                assert(table_view(table@)[i as int].0 == name@);
            }
            if !self.has_template(name) {
                missing.push(String::from_str(name));
                proof {
                    assert(texts(missing@) =~= before.push(name@));
                    assert forall|other: Seq<char>| #[trigger]
                        texts(missing@).contains(other) <==> (exists|k: int|
                            0 <= k < i + 1 && (#[trigger] builtin_table()[k]).0 == other)
                            && !self.templates().dom().contains(other) by {
                        if texts(missing@).contains(other) {
                            let at = choose|at: int|
                                0 <= at < texts(missing@).len() && texts(missing@)[at] == other;
                            if at < before.len() {
                                assert(before[at] == other);
                                assert(before.contains(other));
                            }
                        }
                        if (exists|k: int| 0 <= k < i + 1 && (#[trigger] builtin_table()[k]).0 == other)
                            && !self.templates().dom().contains(other) {
                            let k = choose|k: int|
                                0 <= k < i + 1 && (#[trigger] builtin_table()[k]).0 == other;
                            if k < i {
                                assert(before.contains(other));
                                let at = choose|at: int| 0 <= at < before.len() && before[at] == other;
                                assert(texts(missing@)[at] == other);
                            } else {
                                assert(texts(missing@)[before.len() as int] == other);
                            }
                        }
                    }
                }
            } else {
                proof {
                    assert forall|other: Seq<char>| #[trigger]
                        texts(missing@).contains(other) <==> (exists|k: int|
                            0 <= k < i + 1 && (#[trigger] builtin_table()[k]).0 == other)
                            && !self.templates().dom().contains(other) by {
                        if (exists|k: int| 0 <= k < i + 1 && (#[trigger] builtin_table()[k]).0 == other)
                            && !self.templates().dom().contains(other) {
                            let k = choose|k: int|
                                0 <= k < i + 1 && (#[trigger] builtin_table()[k]).0 == other;
                            assert(k < i);
                        }
                    }
                }
            }
            i += 1;
        }
        missing
    }

    /// Adds a template, or puts it in place of the one of the same name.
    /// A text that includes another template is refused, and only such a
    /// text is refused with that failure; any other text is for the engine
    /// to take or to refuse. On success the template is held with its text;
    /// on failure nothing has changed.
    pub fn register_template(&mut self, name: &str, source: &str) -> (done: Result<(), Error>)
        ensures
            includes_templates_spec(source@) <==> (done matches Err(e) && e@
                == ErrorView::IncludesTemplates(name@)),
            done is Ok ==> final(self).templates() == old(self).templates().insert(name@, source@),
            done is Err ==> final(self).templates() == old(self).templates(),
            done matches Err(e) ==> e@ == ErrorView::IncludesTemplates(name@) || (e@
                is InvalidTemplate && e@->InvalidTemplate_name == name@),
            final(self).list_helpers() == old(self).list_helpers(),
    {
        proof {
            use_type_invariant(&*self);
        }
        if includes_templates(source) {
            return Err(Error::IncludesTemplates(String::from_str(name)));
        }
        match register_source(&mut self.registry, name, source) {
            Ok(_) => Ok(()),
            Err(reason) => Err(Error::InvalidTemplate { name: String::from_str(name), reason }),
        }
    }

    /// Renders the template `template_name` with `data`. Where the template
    /// does not render, the failure is that of this template; an unknown
    /// name fails with the failure that says so.
    pub fn render_to_string(&self, template_name: &str, data: &ProjectTemplateData) -> (rendered:
        Result<String, Error>)
        ensures
            match rendered {
                Ok(text) => self.rendering(template_name@, data@) == Some(text@),
                Err(e) => self.rendering(template_name@, data@) is None && is_failure_of(
                    self.templates(),
                    template_name@,
                    e@,
                ),
            },
            !self.templates().dom().contains(template_name@) ==> (rendered matches Err(e) && e@
                == ErrorView::TemplateNotFound(template_name@)),
    {
        proof {
            use_type_invariant(self);
        }
        let fields = data.fields();
        render_outcome(template_name, render_registered(&self.registry, template_name, &fields))
    }

    /// Renders the template `template_name` with `data` as the file at
    /// `output_path`. Where the template does not render, the failure is
    /// that of this template; an unknown name fails with the failure that
    /// says so.
    pub fn render(&self, template_name: &str, data: &ProjectTemplateData, output_path: &str) -> (file:
        Result<GeneratedFile, Error>)
        ensures
            match file {
                Ok(file) => file.path@ == output_path@ && self.rendering(template_name@, data@)
                    == Some(file.contents@),
                Err(e) => self.rendering(template_name@, data@) is None && is_failure_of(
                    self.templates(),
                    template_name@,
                    e@,
                ),
            },
            !self.templates().dom().contains(template_name@) ==> (file matches Err(e) && e@
                == ErrorView::TemplateNotFound(template_name@)),
    {
        match self.render_to_string(template_name, data) {
            Ok(contents) => Ok(GeneratedFile { path: String::from_str(output_path), contents }),
            Err(e) => Err(e),
        }
    }
}

impl Default for TemplateRenderer {
    fn default() -> (renderer: Self)
        ensures
            renderer.is_builtin(),
    {
        Self::new()
    }
}

} // verus!
