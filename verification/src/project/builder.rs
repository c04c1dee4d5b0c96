//! Building a project: the values its templates are rendered with, the
//! rendering of every planned file, and the words that tell what to do next.
//!
//! Nothing is written here. [`ProjectBuilder::build`] renders every file
//! before it hands any of them out, so that a project is either laid out
//! whole or not at all.

use crate::error::Error;
use crate::error::ErrorView;
use crate::project::config::ProjectConfig;
use crate::project::config::ProjectConfigView;
use crate::project::layout::lemma_outputs_add;
use crate::project::layout::outputs_view;
use crate::project::BuildSystem;
use crate::project::PackageManager;
use crate::templates::is_failure_of;
use crate::templates::render_spec;
use crate::templates::FieldValueView;
use crate::templates::GeneratedFile;
use crate::templates::GeneratedFileView;
use crate::templates::ProjectTemplateData;
use crate::templates::ProjectTemplateDataView;
use crate::templates::TemplateOutput;
use crate::templates::TemplateOutputView;
use crate::templates::TemplateRenderer;
use crate::text::i32_to_decimal;
use crate::text::replace_char;
use crate::text::replace_char_spec;
use crate::text::signed_decimal;
use crate::text::texts;
use vstd::prelude::*;
use vstd::string::StringExecFns;

verus! {

/// The values that the templates of the project `config` are rendered with
/// in the year `year`.
pub open spec fn template_data_spec(config: ProjectConfigView, year: int) -> ProjectTemplateDataView {
    ProjectTemplateDataView {
        name: config.name,
        cpp_standard: config.cpp_standard.name(),
        is_library: config.is_library(),
        namespace: replace_char_spec(config.name, '-', '_'),
        build_system: config.build_system.name(),
        description: config.description,
        author: config.author,
        version: config.version,
        year: signed_decimal(year),
        enable_tests: config.has_tests(),
        test_framework: config.test_framework.name(),
        package_manager: config.package_manager.name(),
        quality_config: config.quality_config.text(),
        code_formatter: config.code_formatter.text(),
    }
}

/// The values that the templates of the project `config` are rendered with
/// in the year `year`. The year is the caller's to give: the library does
/// not read the clock.
pub fn create_template_data(config: &ProjectConfig, year: i32) -> (data: ProjectTemplateData)
    ensures
        data@ == template_data_spec(config@, year as int),
{
    ProjectTemplateData {
        name: config.name.clone(),
        cpp_standard: config.cpp_standard.to_string(),
        is_library: config.is_library(),
        namespace: replace_char(config.name.as_str(), '-', '_'),
        build_system: config.build_system.to_string(),
        description: config.description.clone(),
        author: config.author.clone(),
        version: config.version.clone(),
        year: i32_to_decimal(year),
        enable_tests: config.has_tests(),
        test_framework: config.test_framework.to_string(),
        package_manager: config.package_manager.to_string(),
        quality_config: config.quality_config.to_string(),
        code_formatter: config.code_formatter.to_string(),
    }
}

/// The paths and contents of a list of files.
pub open spec fn files_view(files: Seq<GeneratedFile>) -> Seq<GeneratedFileView> {
    files.map_values(|file: GeneratedFile| file@)
}

/// Whether a rendering step came out as planned: with the planned files
/// where the plan renders; else with a failure of the template that the
/// plan fails at, in a registry that holds `templates`.
pub open spec fn step_fits(
    templates: Map<Seq<char>, Seq<char>>,
    step: Result<Vec<GeneratedFile>, Error>,
    planned: Result<Seq<GeneratedFileView>, Seq<char>>,
) -> bool {
    match planned {
        Ok(files) => step matches Ok(made) && files_view(made@) == files,
        Err(name) => step matches Err(e) && is_failure_of(templates, name, e@),
    }
}

/// The files that `outputs` render to, in order; or the name of the first
/// template among them that does not render.
pub open spec fn render_all(
    templates: Map<Seq<char>, Seq<char>>,
    list_helpers: Set<Seq<char>>,
    fields: Seq<(Seq<char>, FieldValueView)>,
    outputs: Seq<TemplateOutputView>,
) -> Result<Seq<GeneratedFileView>, Seq<char>>
    decreases outputs.len(),
{
    if outputs.len() == 0 {
        Ok(Seq::empty())
    } else {
        match render_all(templates, list_helpers, fields, outputs.drop_last()) {
            Err(name) => Err(name),
            Ok(files) => match render_spec(templates, list_helpers, outputs.last().template, fields) {
                None => Err(outputs.last().template),
                Some(contents) => Ok(
                    files.push(GeneratedFileView { path: outputs.last().path, contents }),
                ),
            },
        }
    }
}

/// One step after another: the files of both, or the template that the
/// first failure is at.
pub open spec fn one_after_another(
    first: Result<Seq<GeneratedFileView>, Seq<char>>,
    second: Result<Seq<GeneratedFileView>, Seq<char>>,
) -> Result<Seq<GeneratedFileView>, Seq<char>> {
    match first {
        Err(e) => Err(e),
        Ok(files) => match second {
            Err(e) => Err(e),
            Ok(more) => Ok(files + more),
        },
    }
}

/// Rendering a plan in two parts, the second only where the first went
/// through, gives what rendering the whole plan gives.
pub proof fn lemma_render_all_in_parts(
    templates: Map<Seq<char>, Seq<char>>,
    list_helpers: Set<Seq<char>>,
    fields: Seq<(Seq<char>, FieldValueView)>,
    first: Seq<TemplateOutputView>,
    second: Seq<TemplateOutputView>,
)
    ensures
        render_all(templates, list_helpers, fields, first + second) == one_after_another(
            render_all(templates, list_helpers, fields, first),
            render_all(templates, list_helpers, fields, second),
        ),
    decreases second.len(),
{
    if second.len() == 0 {
        assert(first + second == first);
        if let Ok(files) = render_all(templates, list_helpers, fields, first) {
            assert(files + Seq::<GeneratedFileView>::empty() == files);
        }
    } else {
        lemma_render_all_in_parts(templates, list_helpers, fields, first, second.drop_last());
        assert((first + second).drop_last() == first + second.drop_last());
        assert((first + second).last() == second.last());
        if let Ok(files) = render_all(templates, list_helpers, fields, first) {
            if let Ok(more) = render_all(templates, list_helpers, fields, second.drop_last()) {
                if let Some(contents) = render_spec(
                    templates,
                    list_helpers,
                    second.last().template,
                    fields,
                ) {
                    let file = GeneratedFileView { path: second.last().path, contents };
                    assert((files + more).push(file) == files + more.push(file));
                }
            }
        }
    }
}

/// A plan that renders gives one file for each planned output, in the order
/// of the plan: the file lies at the planned path and holds what the planned
/// template renders to. A plan that does not render fails at its first
/// template that does not render.
pub proof fn lemma_rendered_files_follow_the_plan(
    templates: Map<Seq<char>, Seq<char>>,
    list_helpers: Set<Seq<char>>,
    fields: Seq<(Seq<char>, FieldValueView)>,
    outputs: Seq<TemplateOutputView>,
)
    ensures
        match render_all(templates, list_helpers, fields, outputs) {
            Ok(files) => {
                &&& files.len() == outputs.len()
                &&& forall|i: int|
                    0 <= i < files.len() ==> (#[trigger] files[i]).path == outputs[i].path
                        && render_spec(templates, list_helpers, outputs[i].template, fields)
                        == Some(files[i].contents)
            },
            Err(name) => exists|i: int|
                {
                    &&& 0 <= i < outputs.len()
                    &&& (#[trigger] outputs[i]).template == name
                    &&& render_spec(templates, list_helpers, name, fields) is None
                    &&& forall|j: int|
                        0 <= j < i ==> render_spec(
                            templates,
                            list_helpers,
                            (#[trigger] outputs[j]).template,
                            fields,
                        ) is Some
                },
        },
    decreases outputs.len(),
{
    if outputs.len() > 0 {
        let earlier = outputs.drop_last();
        lemma_rendered_files_follow_the_plan(templates, list_helpers, fields, earlier);
        let last = outputs.len() - 1;
        match render_all(templates, list_helpers, fields, earlier) {
            Ok(files) => {
                assert forall|j: int| 0 <= j < last implies render_spec(
                    templates,
                    list_helpers,
                    (#[trigger] outputs[j]).template,
                    fields,
                ) is Some by {
                    assert(earlier[j] == outputs[j]);
                    assert(files[j].path == earlier[j].path);
                }
                match render_spec(templates, list_helpers, outputs.last().template, fields) {
                    Some(contents) => {
                        let all = files.push(
                            GeneratedFileView { path: outputs.last().path, contents },
                        );
                        assert forall|i: int| 0 <= i < all.len() implies (#[trigger] all[i]).path
                            == outputs[i].path && render_spec(
                            templates,
                            list_helpers,
                            outputs[i].template,
                            fields,
                        ) == Some(all[i].contents) by {
                            if i < last {
                                assert(all[i] == files[i]);
                                assert(earlier[i] == outputs[i]);
                            }
                        }
                    },
                    None => {
                        assert(outputs[last] == outputs.last());
                    },
                }
            },
            Err(name) => {
                let i = choose|i: int|
                    {
                        &&& 0 <= i < earlier.len()
                        &&& (#[trigger] earlier[i]).template == name
                        &&& render_spec(templates, list_helpers, name, fields) is None
                        &&& forall|j: int|
                            0 <= j < i ==> render_spec(
                                templates,
                                list_helpers,
                                (#[trigger] earlier[j]).template,
                                fields,
                            ) is Some
                    };
                assert(outputs[i] == earlier[i]);
                assert forall|j: int| 0 <= j < i implies render_spec(
                    templates,
                    list_helpers,
                    (#[trigger] outputs[j]).template,
                    fields,
                ) is Some by {
                    assert(outputs[j] == earlier[j]);
                }
            },
        }
    }
}

/// The build commands that follow the change of directory, by package
/// manager and, where there is none, by build system.
pub open spec fn build_steps(config: ProjectConfigView) -> Seq<Seq<char>> {
    match config.package_manager {
        PackageManager::Conan => seq![
            "2. mkdir build && cd build"@,
            "3. conan install .. --output-folder=. --build=missing"@,
            "4. cmake .. -DCMAKE_TOOLCHAIN_FILE=./conan_toolchain.cmake"@,
            "5. cmake --build ."@,
        ],
        PackageManager::Vcpkg => seq![
            "2. mkdir build && cd build"@,
            "3. cmake .. -DCMAKE_TOOLCHAIN_FILE=${VCPKG_ROOT}/scripts/buildsystems/vcpkg.cmake"@,
            "4. cmake --build ."@,
        ],
        PackageManager::Absent => match config.build_system {
            BuildSystem::CMake => seq![
                "2. mkdir build && cd build"@,
                "3. cmake .."@,
                "4. cmake --build ."@,
            ],
            BuildSystem::Make => seq!["2. make"@],
        },
    }
}

/// The lines that tell of the success and of what to do next.
pub open spec fn success_lines(config: ProjectConfigView) -> Seq<Seq<char>> {
    seq![
        ""@,
        "\u{2728} Project created successfully!"@,
        ""@,
        "Next steps:"@,
        "1. cd "@ + config.path,
    ] + build_steps(config)
}

/// A project that is ready to be written: nothing of it is on disk yet.
#[derive(Debug, Clone)]
pub struct Scaffold {
    /// The project's own directory.
    pub root: String,
    /// The directories to make inside it, in order.
    pub directories: Vec<String>,
    /// The files to write once the directories are there, in order.
    pub files: Vec<GeneratedFile>,
    /// Whether to initialize a git repository once those files are written.
    pub init_git: bool,
    /// The files to write once the repository is there.
    pub git_files: Vec<GeneratedFile>,
    /// The lines to tell the user in the end.
    pub next_steps: Vec<String>,
}

/// A [`Scaffold`] with its texts as sequences of characters.
pub struct ScaffoldView {
    pub root: Seq<char>,
    pub directories: Seq<Seq<char>>,
    pub files: Seq<GeneratedFileView>,
    pub init_git: bool,
    pub git_files: Seq<GeneratedFileView>,
    pub next_steps: Seq<Seq<char>>,
}

impl View for Scaffold {
    type V = ScaffoldView;

    open spec fn view(&self) -> ScaffoldView {
        ScaffoldView {
            root: self.root@,
            directories: texts(self.directories@),
            files: files_view(self.files@),
            init_git: self.init_git,
            git_files: files_view(self.git_files@),
            next_steps: texts(self.next_steps@),
        }
    }
}

/// Lays out a project: holds its configuration, the renderer, and the
/// values the templates are rendered with.
pub struct ProjectBuilder {
    /// What was chosen for the project.
    pub config: ProjectConfig,
    /// The renderer of the templates.
    pub template_renderer: TemplateRenderer,
    /// The values the templates are rendered with.
    pub template_data: ProjectTemplateData,
}

impl ProjectBuilder {
    /// The files that `outputs` render to with this builder's renderer and
    /// values; or the name of the first template that does not render.
    pub open spec fn rendered(&self, outputs: Seq<TemplateOutputView>) -> Result<
        Seq<GeneratedFileView>,
        Seq<char>,
    > {
        render_all(
            self.template_renderer.templates(),
            self.template_renderer.list_helpers(),
            self.template_data@.fields(),
            outputs,
        )
    }

    /// Whether a rendering step of this builder came out as planned.
    pub open spec fn fits(
        &self,
        step: Result<Vec<GeneratedFile>, Error>,
        planned: Result<Seq<GeneratedFileView>, Seq<char>>,
    ) -> bool {
        step_fits(self.template_renderer.templates(), step, planned)
    }

    /// The project as [`ProjectBuilder::build`] hands it out; or the name of
    /// the first template of the plan that does not render.
    pub open spec fn build_spec(&self) -> Result<ScaffoldView, Seq<char>> {
        match self.rendered(self.config@.template_outputs() + self.config@.package_files()) {
            Err(name) => Err(name),
            Ok(files) => match self.rendered(self.config@.git_files()) {
                Err(name) => Err(name),
                Ok(git_files) => Ok(
                    ScaffoldView {
                        root: self.config@.path,
                        directories: self.config@.directories(),
                        files,
                        init_git: self.config@.use_git,
                        git_files,
                        next_steps: success_lines(self.config@),
                    },
                ),
            },
        }
    }

    /// A builder for the project `config`, with the templates that come
    /// with the library and the values of the year `year`.
    pub fn new(config: ProjectConfig, year: i32) -> (builder: Self)
        ensures
            builder.config == config,
            builder.template_data@ == template_data_spec(config@, year as int),
            builder.template_renderer.is_builtin(),
    {
        let template_data = create_template_data(&config, year);
        Self { config, template_renderer: TemplateRenderer::new(), template_data }
    }

    /// Renders `outputs` in order and stops at the first that fails.
    pub fn render_outputs(&self, outputs: &Vec<TemplateOutput>) -> (step: Result<
        Vec<GeneratedFile>,
        Error,
    >)
        ensures
            self.fits(step, self.rendered(outputs_view(outputs@))),
    {
        let ghost planned = outputs_view(outputs@);
        let mut files: Vec<GeneratedFile> = Vec::new();
        let mut i: usize = 0;
        assert(files_view(files@) =~= Seq::<GeneratedFileView>::empty());
        while i < outputs.len()
            invariant
                i <= outputs.len(),
                planned == outputs_view(outputs@),
                self.rendered(planned.take(i as int)) == Ok::<Seq<GeneratedFileView>, Seq<char>>(
                    files_view(files@),
                ),
            decreases outputs.len() - i,
        {
            let planned_file = &outputs[i];
            proof {
                assert(planned.take(i + 1).drop_last() == planned.take(i as int));
                assert(planned.take(i + 1).last() == planned_file@);
            }
            match self.template_renderer.render(
                planned_file.template.as_str(),
                &self.template_data,
                planned_file.path.as_str(),
            ) {
                Ok(file) => {
                    let ghost before = files@;
                    let ghost added = file@;
                    files.push(file);
                    assert(files_view(files@) =~= files_view(before).push(added));
                },
                Err(e) => {
                    proof {
                        lemma_render_all_in_parts(
                            self.template_renderer.templates(),
                            self.template_renderer.list_helpers(),
                            self.template_data@.fields(),
                            planned.take(i + 1),
                            planned.skip(i + 1),
                        );
                        assert(planned.take(i + 1) + planned.skip(i + 1) == planned);
                    }
                    return Err(e);
                },
            }
            i += 1;
        }
        assert(planned.take(outputs.len() as int) == planned);
        Ok(files)
    }

    /// The directories to make inside the project's own, in order.
    pub fn create_directory_structure(&self) -> (directories: Vec<String>)
        ensures
            texts(directories@) == self.config@.directories(),
    {
        self.config.create_directory_structure()
    }

    /// Renders the files that follow the directories: build files, sources,
    /// tests, the introduction, the settings of tools and formatters, and
    /// the license.
    pub fn render_templates(&self) -> (step: Result<Vec<GeneratedFile>, Error>)
        ensures
            self.fits(step, self.rendered(self.config@.template_outputs())),
    {
        let planned = self.config.template_outputs();
        self.render_outputs(&planned)
    }

    /// Renders the list of dependencies for the package manager, where one was chosen.
    pub fn setup_package_manager(&self) -> (step: Result<Vec<GeneratedFile>, Error>)
        ensures
            self.fits(step, self.rendered(self.config@.package_files())),
    {
        let planned = self.config.setup_package_manager();
        self.render_outputs(&planned)
    }

    /// Renders what version control adds once the repository is there.
    pub fn initialize_git(&self) -> (step: Result<Vec<GeneratedFile>, Error>)
        ensures
            self.fits(step, self.rendered(self.config@.git_files())),
    {
        let planned = self.config.initialize_git();
        self.render_outputs(&planned)
    }

    /// The lines that tell of the success and of what to do next.
    pub fn success_message(&self) -> (lines: Vec<String>)
        ensures
            texts(lines@) == success_lines(self.config@),
    {
        let mut lines: Vec<String> = Vec::new();
        lines.push(String::from_str(""));
        lines.push(String::from_str("\u{2728} Project created successfully!"));
        lines.push(String::from_str(""));
        lines.push(String::from_str("Next steps:"));
        lines.push(String::from_str("1. cd ").concat(self.config.path.as_str()));
        match self.config.package_manager {
            PackageManager::Conan => {
                lines.push(String::from_str("2. mkdir build && cd build"));
                lines.push(
                    String::from_str("3. conan install .. --output-folder=. --build=missing"),
                );
                lines.push(
                    String::from_str("4. cmake .. -DCMAKE_TOOLCHAIN_FILE=./conan_toolchain.cmake"),
                );
                lines.push(String::from_str("5. cmake --build ."));
            },
            PackageManager::Vcpkg => {
                lines.push(String::from_str("2. mkdir build && cd build"));
                lines.push(
                    String::from_str(
                        "3. cmake .. -DCMAKE_TOOLCHAIN_FILE=${VCPKG_ROOT}/scripts/buildsystems/vcpkg.cmake",
                    ),
                );
                lines.push(String::from_str("4. cmake --build ."));
            },
            PackageManager::Absent => match self.config.build_system {
                BuildSystem::CMake => {
                    lines.push(String::from_str("2. mkdir build && cd build"));
                    lines.push(String::from_str("3. cmake .."));
                    lines.push(String::from_str("4. cmake --build ."));
                },
                BuildSystem::Make => {
                    lines.push(String::from_str("2. make"));
                },
            },
        }
        assert(texts(lines@) =~= success_lines(self.config@));
        lines
    }

    /// Renders the whole project. Every file is rendered before any is
    /// handed out: at the first template that fails, a failure of that
    /// template is all that comes back.
    pub fn build(&self) -> (made: Result<Scaffold, Error>)
        ensures
            match made {
                Ok(scaffold) => self.build_spec() == Ok::<ScaffoldView, Seq<char>>(scaffold@),
                Err(e) => self.build_spec() matches Err(name) && is_failure_of(
                    self.template_renderer.templates(),
                    name,
                    e@,
                ),
            },
    {
        let mut planned = self.config.template_outputs();
        let mut packages = self.config.setup_package_manager();
        proof {
            lemma_outputs_add(planned@, packages@);
        }
        planned.append(&mut packages);
        let files = match self.render_outputs(&planned) {
            Ok(files) => files,
            Err(e) => {
                return Err(e);
            },
        };
        let git_files = match self.initialize_git() {
            Ok(files) => files,
            Err(e) => {
                return Err(e);
            },
        };
        Ok(
            Scaffold {
                root: self.config.path.clone(),
                directories: self.create_directory_structure(),
                files,
                init_git: self.config.use_git,
                git_files,
                next_steps: self.success_message(),
            },
        )
    }
}

/// The files that [`ProjectBuilder::build`] hands out, those that follow the
/// directories and then those that follow the repository, are the files of
/// the whole plan in its order; and where a template of the plan fails, the
/// build fails at the first that does.
pub proof fn lemma_build_renders_the_plan(builder: ProjectBuilder)
    ensures
        match builder.build_spec() {
            Ok(scaffold) => builder.rendered(builder.config@.planned_outputs()) == Ok::<
                Seq<GeneratedFileView>,
                Seq<char>,
            >(scaffold.files + scaffold.git_files),
            Err(name) => builder.rendered(builder.config@.planned_outputs()) == Err::<
                Seq<GeneratedFileView>,
                Seq<char>,
            >(name),
        },
{
    lemma_render_all_in_parts(
        builder.template_renderer.templates(),
        builder.template_renderer.list_helpers(),
        builder.template_data@.fields(),
        builder.config@.template_outputs() + builder.config@.package_files(),
        builder.config@.git_files(),
    );
}

} // verus!
