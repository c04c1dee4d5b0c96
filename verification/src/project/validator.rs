//! The checks on the machine: the tools a project needs, and a compiler
//! that is new enough for the chosen standard.

use crate::error::Error;
use crate::error::ErrorView;
use crate::project::config::CppStandard;
use crate::project::config::ProjectConfig;
use crate::project::config::ProjectConfigView;
use crate::project::BuildSystem;
use crate::project::PackageManager;
use crate::text::chars_of;
use crate::text::lemma_texts_add;
use crate::text::texts;
use vstd::prelude::*;
use vstd::string::StringExecFns;

verus! {

/// What the first group of the regular expression `pattern` captures in the
/// leftmost match in `text`; nothing where `pattern` is no regular
/// expression, where nothing matches, or where the match has no first group.
pub uninterp spec fn regex_first_capture(pattern: Seq<char>, text: Seq<char>) -> Option<Seq<char>>;

/// The texts of an optional string.
pub open spec fn option_text(value: Option<String>) -> Option<Seq<char>> {
    match value {
        Some(text) => Some(text@),
        None => None,
    }
}

/// `Regex::new` of the `regex` crate compiles a pattern; `Regex::captures`
/// finds the leftmost match in a text, and `Captures::get(1)` gives what the
/// first group took part with. Assumed: the outcome depends on the pattern
/// and the text alone.
#[verifier::external_body]
fn first_capture(pattern: &str, text: &str) -> (capture: Option<String>)
    ensures
        option_text(capture) == regex_first_capture(pattern@, text@),
{
    let compiled = regex::Regex::new(pattern).ok()?;
    Some(compiled.captures(text)?.get(1)?.as_str().to_string())
}

/// The pattern that finds the version in what `g++ --version` says first.
pub const GCC_VERSION_PATTERN: &'static str = r"g\+\+ .* (\d+\.\d+)";

/// What stands for the version of a compiler that said nothing.
pub const UNKNOWN_VERSION: &'static str = "unknown";

/// Whether `c` is one of the ten digits.
pub open spec fn is_digit(c: char) -> bool {
    '0' <= c <= '9'
}

/// Whether `s` consists of digits.
pub open spec fn all_digits(s: Seq<char>) -> bool {
    forall|i: int| 0 <= i < s.len() ==> is_digit(#[trigger] s[i])
}

/// The number that the digit `c` stands for.
pub open spec fn digit_value(c: char) -> nat {
    (c as u32 - 48) as nat
}

/// The number that the digits `digits` write.
pub open spec fn digits_value(digits: Seq<char>) -> nat
    decreases digits.len(),
{
    if digits.len() == 0 {
        0
    } else {
        digits_value(digits.drop_last()) * 10 + digit_value(digits.last())
    }
}

/// Whether `text` is a run of digits, a point at `dot`, and a run of digits.
pub open spec fn is_version_text(text: Seq<char>, dot: int) -> bool {
    &&& 0 < dot < text.len() - 1
    &&& text[dot] == '.'
    &&& all_digits(text.take(dot))
    &&& all_digits(text.skip(dot + 1))
}

/// The version of a compiler, as far as it decides whether the compiler is
/// new enough: the number before the point, and the first digit after it.
#[derive(Debug, Clone)]
pub struct CompilerVersion {
    /// The number before the point; the largest `u64` where it is larger.
    pub major: u64,
    /// The first digit after the point.
    pub tenth: u8,
    /// The version as the compiler wrote it.
    pub text: String,
}

/// A [`CompilerVersion`] with its text as a sequence of characters.
pub struct CompilerVersionView {
    pub major: nat,
    pub tenth: nat,
    pub text: Seq<char>,
}

impl View for CompilerVersion {
    type V = CompilerVersionView;

    open spec fn view(&self) -> CompilerVersionView {
        CompilerVersionView {
            major: self.major as nat,
            tenth: self.tenth as nat,
            text: self.text@,
        }
    }
}

/// The version of an optional compiler version.
pub open spec fn option_version(version: Option<CompilerVersion>) -> Option<CompilerVersionView> {
    match version {
        Some(version) => Some(version@),
        None => None,
    }
}

/// `a`, or `b` where that is less.
pub open spec fn at_most(a: nat, b: nat) -> nat {
    if a <= b {
        a
    } else {
        b
    }
}

/// The version that `text` writes, where it is digits, a point and digits.
pub open spec fn parsed_version(text: Seq<char>) -> Option<CompilerVersionView> {
    if exists|dot: int| is_version_text(text, dot) {
        let dot = choose|dot: int| is_version_text(text, dot);
        Some(
            CompilerVersionView {
                major: at_most(digits_value(text.take(dot)), u64::MAX as nat),
                tenth: digit_value(text[dot + 1]),
                text,
            },
        )
    } else {
        None
    }
}

/// A text has its point in one place only.
proof fn lemma_one_point(text: Seq<char>, a: int, b: int)
    requires
        is_version_text(text, a),
        is_version_text(text, b),
    ensures
        a == b,
{
    if a < b {
        assert(text.take(b)[a] == text[a]);
    } else if b < a {
        assert(text.take(a)[b] == text[b]);
    }
}

/// Where digits run up to `dot` and no digit stands there, the point of a
/// version text can stand nowhere but at `dot`.
proof fn lemma_point_follows_the_digits(text: Seq<char>, dot: int, at: int)
    requires
        0 <= dot <= text.len(),
        all_digits(text.take(dot)),
        dot < text.len() ==> !is_digit(text[dot]),
        is_version_text(text, at),
    ensures
        at == dot,
{
    if at < dot {
        assert(text.take(dot)[at] == text[at]);
    } else if at > dot {
        assert(text.take(at)[dot] == text[dot]);
    }
}

/// Reads a version from a text that is digits, a point and digits.
pub fn parse_version(text: &str) -> (version: Option<CompilerVersion>)
    ensures
        option_version(version) == parsed_version(text@),
{
    let chars = chars_of(text);
    let mut major: u64 = 0;
    let mut dot: usize = 0;
    while dot < chars.len() && '0' <= chars[dot] && chars[dot] <= '9'
        invariant
            dot <= chars.len(),
            chars@ == text@,
            all_digits(text@.take(dot as int)),
            major == at_most(digits_value(text@.take(dot as int)), u64::MAX as nat),
        decreases chars.len() - dot,
    {
        let digit: u64 = (chars[dot] as u32 - 48) as u64;
        proof {
            let upto = text@.take(dot + 1);
            assert(upto.drop_last() == text@.take(dot as int));
            assert(upto.last() == chars@[dot as int]);
            assert forall|i: int| 0 <= i < upto.len() implies is_digit(#[trigger] upto[i]) by {
                if i < dot {
                    assert(text@.take(dot as int)[i] == upto[i]);
                }
            }
        }
        major = match major.checked_mul(10) {
            Some(tens) => match tens.checked_add(digit) {
                Some(sum) => sum,
                None => u64::MAX,
            },
            None => u64::MAX,
        };
        dot += 1;
    }
    if dot == 0 || chars.len() - dot < 2 || chars[dot] != '.' {
        proof {
            if exists|at: int| is_version_text(text@, at) {
                let at = choose|at: int| is_version_text(text@, at);
                lemma_point_follows_the_digits(text@, dot as int, at);
            }
        }
        return None;
    }
    let mut i: usize = dot + 1;
    while i < chars.len()
        invariant
            0 < dot < i <= chars.len(),
            chars@ == text@,
            text@[dot as int] == '.',
            all_digits(text@.take(dot as int)),
            forall|j: int| dot < j < i ==> is_digit(#[trigger] text@[j]),
        decreases chars.len() - i,
    {
        if !('0' <= chars[i] && chars[i] <= '9') {
            proof {
                if exists|at: int| is_version_text(text@, at) {
                    let at = choose|at: int| is_version_text(text@, at);
                    lemma_point_follows_the_digits(text@, dot as int, at);
                    assert(text@.skip(dot + 1)[i - dot - 1] == text@[i as int]);
                }
            }
            return None;
        }
        i += 1;
    }
    proof {
        assert forall|j: int| 0 <= j < text@.skip(dot + 1).len() implies is_digit(
            #[trigger] text@.skip(dot + 1)[j],
        ) by {
            assert(text@.skip(dot + 1)[j] == text@[dot + 1 + j]);
        }
        assert(is_version_text(text@, dot as int));
        let chosen = choose|at: int| is_version_text(text@, at);
        lemma_one_point(text@, chosen, dot as int);
    }
    let tenth: u8 = (chars[dot + 1] as u32 - 48) as u8;
    Some(CompilerVersion { major, tenth, text: String::from_str(text) })
}

impl CppStandard {
    /// The oldest compiler that knows the standard: the number before the
    /// point of its version, and the digit after it.
    pub open spec fn minimum_version(self) -> (nat, nat) {
        match self {
            CppStandard::Cpp11 => (4, 8),
            CppStandard::Cpp14 => (5, 0),
            CppStandard::Cpp17 => (7, 0),
            CppStandard::Cpp20 => (10, 0),
            CppStandard::Cpp23 => (12, 0),
        }
    }

    /// The oldest compiler that knows the standard, as it is written in messages.
    pub open spec fn minimum_version_text(self) -> Seq<char> {
        match self {
            CppStandard::Cpp11 => "4.8"@,
            CppStandard::Cpp14 => "5"@,
            CppStandard::Cpp17 => "7"@,
            CppStandard::Cpp20 => "10"@,
            CppStandard::Cpp23 => "12"@,
        }
    }

    /// The oldest compiler that knows the standard: the number before the
    /// point of its version, and the digit after it.
    pub fn required_version(&self) -> (minimum: (u64, u8))
        ensures
            (minimum.0 as nat, minimum.1 as nat) == self.minimum_version(),
    {
        match self {
            CppStandard::Cpp11 => (4, 8),
            CppStandard::Cpp14 => (5, 0),
            CppStandard::Cpp17 => (7, 0),
            CppStandard::Cpp20 => (10, 0),
            CppStandard::Cpp23 => (12, 0),
        }
    }

    /// The oldest compiler that knows the standard, as it is written in messages.
    pub fn required_version_text(&self) -> (text: String)
        ensures
            text@ == self.minimum_version_text(),
    {
        match self {
            CppStandard::Cpp11 => String::from_str("4.8"),
            CppStandard::Cpp14 => String::from_str("5"),
            CppStandard::Cpp17 => String::from_str("7"),
            CppStandard::Cpp20 => String::from_str("10"),
            CppStandard::Cpp23 => String::from_str("12"),
        }
    }
}

/// Whether a compiler of version `found` is older than `standard` needs.
pub open spec fn too_old(standard: CppStandard, found: CompilerVersionView) -> bool {
    found.major < standard.minimum_version().0 || (found.major == standard.minimum_version().0
        && found.tenth < standard.minimum_version().1)
}

/// Whether a compiler whose version was read as `found` will do for
/// `standard`: it fails where the version is known and too old, and passes
/// where it is new enough or could not be read.
pub open spec fn version_verdict_spec(
    standard: CppStandard,
    found: Option<CompilerVersionView>,
) -> Result<(), ErrorView> {
    match found {
        Some(version) => if too_old(standard, version) {
            Err(
                ErrorView::CompilerTooOld {
                    found: version.text,
                    standard: standard.name(),
                    required: standard.minimum_version_text(),
                },
            )
        } else {
            Ok(())
        },
        None => Ok(()),
    }
}

/// Decides whether a compiler whose version was read as `found` will do for `standard`.
pub fn version_verdict(standard: CppStandard, found: Option<CompilerVersion>) -> (verdict: Result<
    (),
    Error,
>)
    ensures
        match verdict {
            Ok(_) => version_verdict_spec(standard, option_version(found)) is Ok,
            Err(e) => version_verdict_spec(standard, option_version(found)) == Err::<(), ErrorView>(
                e@,
            ),
        },
{
    match found {
        Some(version) => {
            let minimum = standard.required_version();
            if version.major < minimum.0 || (version.major == minimum.0 && version.tenth
                < minimum.1) {
                Err(
                    Error::CompilerTooOld {
                        found: version.text,
                        standard: standard.to_string(),
                        required: standard.required_version_text(),
                    },
                )
            } else {
                Ok(())
            }
        },
        None => Ok(()),
    }
}

/// The version that the first line of the compiler's report names, where
/// the pattern finds one and it can be read.
pub open spec fn extracted_version(version_string: Seq<char>) -> Option<CompilerVersionView> {
    match regex_first_capture(GCC_VERSION_PATTERN@, version_string) {
        Some(capture) => parsed_version(capture),
        None => None,
    }
}

/// The first line of `output`; `unknown` where `output` is empty.
pub open spec fn first_line(output: Seq<char>) -> Seq<char> {
    if output.len() == 0 {
        UNKNOWN_VERSION@
    } else if exists|end: int| is_line_end(output, end) {
        let end = choose|end: int| is_line_end(output, end);
        if end > 0 && output[end - 1] == '\r' {
            output.take(end - 1)
        } else {
            output.take(end)
        }
    } else {
        output
    }
}

/// Whether the first newline of `output` stands at `end`.
pub open spec fn is_line_end(output: Seq<char>, end: int) -> bool {
    &&& 0 <= end < output.len()
    &&& output[end] == '\n'
    &&& forall|i: int| 0 <= i < end ==> output[i] != '\n'
}

impl ProjectConfigView {
    /// The tools of the build system, the compiler among them.
    pub open spec fn build_tools(self) -> Seq<Seq<char>> {
        match self.build_system {
            BuildSystem::CMake => seq!["cmake"@, "g++"@],
            BuildSystem::Make => seq!["make"@, "g++"@],
        }
    }

    /// The tool of the package manager, where one was chosen.
    pub open spec fn package_tools(self) -> Seq<Seq<char>> {
        match self.package_manager {
            PackageManager::Conan => seq!["conan"@],
            PackageManager::Vcpkg => seq!["vcpkg"@],
            PackageManager::Absent => Seq::empty(),
        }
    }

    /// The tools that must be installed, in the order they are looked for:
    /// those of the build system, that of the package manager, the static
    /// analysis tools and the formatters that are switched on.
    pub open spec fn required_tools(self) -> Seq<Seq<char>> {
        self.build_tools() + self.package_tools() + self.quality_config.tools()
            + self.code_formatter.tools()
    }
}

/// What is made of the search for `tool`: a failure that names the tool
/// where it was not found.
pub fn tool_verdict(tool: &str, installed: bool) -> (verdict: Result<(), Error>)
    ensures
        verdict is Ok <==> installed,
        verdict matches Err(e) ==> e@ == ErrorView::ToolNotFound(tool@),
{
    if installed {
        Ok(())
    } else {
        Err(Error::ToolNotFound(String::from_str(tool)))
    }
}

/// A verdict, with the texts of its failure as sequences of characters.
pub open spec fn verdict_view(verdict: Result<(), Error>) -> Result<(), ErrorView> {
    match verdict {
        Ok(_) => Ok(()),
        Err(e) => Err(e@),
    }
}

/// Whether the lookup at `i` is the first that found nothing, where
/// `found[i]` says whether the tool `tools[i]` was found.
pub open spec fn is_first_missing(tools: Seq<Seq<char>>, found: Seq<bool>, i: int) -> bool {
    &&& 0 <= i < found.len()
    &&& i < tools.len()
    &&& !found[i]
    &&& forall|j: int| 0 <= j < i ==> found[j]
}

/// What is made of the lookups of `tools`, where `found[i]` says whether
/// `tools[i]` was found: the failure that names the first tool that was not
/// found; success where every lookup found its tool.
pub open spec fn tools_verdict_spec(tools: Seq<Seq<char>>, found: Seq<bool>) -> Result<
    (),
    ErrorView,
> {
    if exists|i: int| is_first_missing(tools, found, i) {
        Err(ErrorView::ToolNotFound(tools[choose|i: int| is_first_missing(tools, found, i)]))
    } else {
        Ok(())
    }
}

/// Decides on the lookups of `tools`, where `found[i]` says whether
/// `tools[i]` was found: succeeds where every lookup found its tool, and
/// else fails with the first tool, in the order of `tools`, that was not
/// found.
pub fn tools_verdict(tools: &Vec<String>, found: &Vec<bool>) -> (verdict: Result<(), Error>)
    ensures
        verdict_view(verdict) == tools_verdict_spec(texts(tools@), found@),
        verdict is Ok <==> forall|i: int| 0 <= i < found.len() && i < tools.len() ==> found[i],
        verdict matches Err(e) ==> exists|i: int|
            #[trigger] is_first_missing(texts(tools@), found@, i) && e@ == ErrorView::ToolNotFound(
                tools[i]@,
            ),
{
    let mut i: usize = 0;
    while i < tools.len() && i < found.len()
        invariant
            forall|j: int| 0 <= j < i ==> found[j],
            i <= tools.len(),
            i <= found.len(),
        decreases tools.len() - i,
    {
        if !found[i] {
            proof {
                let names = texts(tools@);
                assert(is_first_missing(names, found@, i as int));
                let chosen = choose|k: int| is_first_missing(names, found@, k);
                assert(chosen == i);
                assert(names[i as int] == tools[i as int]@);
            }
            return tool_verdict(tools[i].as_str(), false);
        }
        i += 1;
    }
    Ok(())
}

/// Whether `found` can be the lookups that `verdict` was made of: the tools
/// were looked up in order, up to the first that was not found or to the
/// end, and the verdict is that of these lookups.
pub open spec fn lookups_explain(
    tools: Seq<Seq<char>>,
    found: Seq<bool>,
    verdict: Result<(), ErrorView>,
) -> bool {
    &&& found.len() <= tools.len()
    &&& forall|j: int| 0 <= j < found.len() - 1 ==> found[j]
    &&& found.len() < tools.len() ==> found.len() > 0 && !found.last()
    &&& verdict == tools_verdict_spec(tools, found)
}

/// The first of two failures, that of the tools before that of the compiler.
pub open spec fn first_failure_spec(
    tools: Result<(), ErrorView>,
    compiler: Result<(), ErrorView>,
) -> Result<(), ErrorView> {
    if tools is Err {
        tools
    } else {
        compiler
    }
}

/// Puts the two checks in their order: a failure of the tools comes before
/// one of the compiler, and all is well where both are.
pub fn first_failure(tools: Result<(), Error>, compiler: Result<(), Error>) -> (verdict: Result<
    (),
    Error,
>)
    ensures
        verdict_view(verdict) == first_failure_spec(verdict_view(tools), verdict_view(compiler)),
{
    match tools {
        Err(e) => Err(e),
        Ok(_) => compiler,
    }
}

/// What the compiler reported on its version, or why it could not be asked,
/// with its texts as sequences of characters.
pub open spec fn report_view(report: Result<String, Error>) -> Result<Seq<char>, ErrorView> {
    match report {
        Ok(line) => Ok(line@),
        Err(e) => Err(e@),
    }
}

/// Whether a compiler that reported `report` will do for `standard`: where
/// it could not be asked, the failure of asking; else the verdict on the
/// version that its line names.
pub open spec fn reported_verdict_spec(
    standard: CppStandard,
    report: Result<Seq<char>, ErrorView>,
) -> Result<(), ErrorView> {
    match report {
        Ok(line) => version_verdict_spec(standard, extracted_version(line)),
        Err(e) => Err(e),
    }
}

/// Checks that the machine has what a project needs.
pub struct ProjectValidator {
    /// What was chosen for the project.
    pub config: ProjectConfig,
}

impl ProjectValidator {
    /// A validator for the project `config`.
    pub fn new(config: ProjectConfig) -> (validator: Self)
        ensures
            validator.config == config,
    {
        Self { config }
    }

    /// `which::which` looks for a program of the given name in the
    /// directories of the search path. Nothing is assumed of what it finds:
    /// that depends on the machine.
    #[verifier::external_body]
    fn is_tool_installed(tool: &str) -> (installed: bool) {
        which::which(tool).is_ok()
    }

    /// The tools of the build system, the compiler among them.
    fn build_tools(&self) -> (tools: Vec<String>)
        ensures
            texts(tools@) == self.config@.build_tools(),
    {
        let mut tools: Vec<String> = Vec::new();
        match self.config.build_system {
            BuildSystem::CMake => {
                tools.push(String::from_str("cmake"));
            },
            BuildSystem::Make => {
                tools.push(String::from_str("make"));
            },
        }
        tools.push(String::from_str("g++"));
        assert(texts(tools@) =~= self.config@.build_tools());
        tools
    }

    /// The tool of the package manager, where one was chosen.
    fn package_tools(&self) -> (tools: Vec<String>)
        ensures
            texts(tools@) == self.config@.package_tools(),
    {
        let mut tools: Vec<String> = Vec::new();
        match self.config.package_manager {
            PackageManager::Conan => {
                tools.push(String::from_str("conan"));
            },
            PackageManager::Vcpkg => {
                tools.push(String::from_str("vcpkg"));
            },
            PackageManager::Absent => {},
        }
        assert(texts(tools@) =~= self.config@.package_tools());
        tools
    }

    /// The tools that must be installed, in the order they are looked for.
    pub fn required_tools(&self) -> (tools: Vec<String>)
        ensures
            texts(tools@) == self.config@.required_tools(),
    {
        let mut tools = self.build_tools();
        let mut packages = self.package_tools();
        proof {
            lemma_texts_add(tools@, packages@);
        }
        tools.append(&mut packages);
        let mut quality = self.config.quality_config.tool_names();
        proof {
            lemma_texts_add(tools@, quality@);
        }
        tools.append(&mut quality);
        let mut formatters = self.config.code_formatter.tool_names();
        proof {
            lemma_texts_add(tools@, formatters@);
        }
        tools.append(&mut formatters);
        tools
    }

    /// Looks for each required tool in turn, up to the first that is not
    /// installed, and hands the lookups to [`tools_verdict`]. Whether a tool
    /// is installed is for the machine to say: the verdict is that of some
    /// run of lookups, so a failure names the first tool that was not found
    /// and success means that every tool was looked up and found.
    pub fn check_required_tools(&self) -> (verdict: Result<(), Error>)
        ensures
            exists|found: Seq<bool>| #[trigger]
                lookups_explain(self.config@.required_tools(), found, verdict_view(verdict)),
            verdict matches Err(e) ==> exists|i: int|
                0 <= i < self.config@.required_tools().len() && e@ == ErrorView::ToolNotFound(
                    #[trigger] self.config@.required_tools()[i],
                ),
    {
        let tools = self.required_tools();
        let mut found: Vec<bool> = Vec::new();
        let mut all_found = true;
        let mut i: usize = 0;
        while i < tools.len() && all_found
            invariant
                i <= tools.len(),
                found.len() == i,
                forall|j: int| 0 <= j < i - 1 ==> found[j],
                i > 0 ==> found[i - 1] == all_found,
                i == 0 ==> all_found,
            decreases tools.len() - i,
        {
            all_found = Self::is_tool_installed(tools[i].as_str());
            found.push(all_found);
            i += 1;
        }
        let verdict = tools_verdict(&tools, &found);
        proof {
            assert(lookups_explain(self.config@.required_tools(), found@, verdict_view(verdict)));
            if verdict is Err {
                let at = choose|at: int|
                    #[trigger] is_first_missing(texts(tools@), found@, at) && verdict->Err_0@
                        == ErrorView::ToolNotFound(tools[at]@);
                assert(texts(tools@)[at] == tools[at]@);
            }
        }
        verdict
    }

    /// The first line of what the compiler reported on its version, without
    /// the end of line; `unknown` where it reported nothing.
    pub fn get_compiler_version(output: &str) -> (line: String)
        ensures
            line@ == first_line(output@),
    {
        let chars = chars_of(output);
        if chars.len() == 0 {
            return String::from_str(UNKNOWN_VERSION);
        }
        let mut end: usize = 0;
        while end < chars.len() && chars[end] != '\n'
            invariant
                end <= chars.len(),
                chars@ == output@,
                forall|i: int| 0 <= i < end ==> output@[i] != '\n',
            decreases chars.len() - end,
        {
            end += 1;
        }
        if end == chars.len() {
            return String::from_str(output);
        }
        proof {
            assert(is_line_end(output@, end as int));
            let chosen = choose|at: int| is_line_end(output@, at);
            assert(chosen == end);
        }
        let stop = if end > 0 && chars[end - 1] == '\r' {
            end - 1
        } else {
            end
        };
        String::from_str(output.substring_char(0, stop))
    }

    /// Reads the version of the compiler from the first line of its report.
    pub fn extract_gcc_version(version_string: &str) -> (version: Option<CompilerVersion>)
        ensures
            option_version(version) == extracted_version(version_string@),
    {
        match first_capture(GCC_VERSION_PATTERN, version_string) {
            Some(capture) => parse_version(capture.as_str()),
            None => None,
        }
    }

    /// Checks that the compiler, which reported `version_line` on its
    /// version, is new enough for the chosen standard. A report that names
    /// no version passes.
    pub fn check_compiler_version(&self, version_line: &str) -> (verdict: Result<(), Error>)
        ensures
            match verdict {
                Ok(_) => version_verdict_spec(
                    self.config.cpp_standard,
                    extracted_version(version_line@),
                ) is Ok,
                Err(e) => version_verdict_spec(
                    self.config.cpp_standard,
                    extracted_version(version_line@),
                ) == Err::<(), ErrorView>(e@),
            },
    {
        version_verdict(self.config.cpp_standard, Self::extract_gcc_version(version_line))
    }

    /// Checks the compiler by what it reported on its version: where it
    /// could not be asked, that failure; else whether the version that its
    /// line names is new enough for the chosen standard.
    pub fn check_reported_compiler(&self, report: Result<String, Error>) -> (verdict: Result<
        (),
        Error,
    >)
        ensures
            verdict_view(verdict) == reported_verdict_spec(
                self.config.cpp_standard,
                report_view(report),
            ),
    {
        match report {
            Ok(line) => self.check_compiler_version(line.as_str()),
            Err(e) => Err(e),
        }
    }

    /// Checks the tools and then the compiler. `report` is what the
    /// compiler reported on its version, or why it could not be asked. The
    /// first failure wins, the tools before the compiler: a tool that is
    /// not found is named even where the compiler could not be asked or is
    /// too old.
    pub fn check_prerequisites(&self, report: Result<String, Error>) -> (verdict: Result<
        (),
        Error,
    >)
        ensures
            exists|found: Seq<bool>, tools: Result<(), ErrorView>| #[trigger]
                lookups_explain(self.config@.required_tools(), found, tools) && verdict_view(
                    verdict,
                ) == first_failure_spec(
                    tools,
                    reported_verdict_spec(self.config.cpp_standard, report_view(report)),
                ),
    {
        let tools = self.check_required_tools();
        let compiler = self.check_reported_compiler(report);
        let ghost said = verdict_view(tools);
        let verdict = first_failure(tools, compiler);
        proof {
            let found = choose|found: Seq<bool>| #[trigger]
                lookups_explain(self.config@.required_tools(), found, said);
            assert(lookups_explain(self.config@.required_tools(), found, said));
        }
        verdict
    }
}

} // verus!
