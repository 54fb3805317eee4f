//! Project detection: what the files of a project say about its kind and
//! its dependencies.
//!
//! Reading the files is left to the caller. The functions here take the
//! text of a file and give what it declares.

use vstd::prelude::*;
use vstd::string::StringExecFns;
use vstd::string::StrSliceExecFns;
use std::path::PathBuf;
use serde_json::Value;
use crate::detection::describes_project;
use crate::detection::detect_project;
use crate::detection::detection_error;
use crate::detection::is_configuration_error;
use crate::detection::ProjectFiles;
use crate::json::as_text;
use crate::json::entries;
use crate::json::entries_view;
use crate::json::items;
use crate::json::json_entries;
use crate::json::json_items;
use crate::json::json_member;
use crate::json::json_parsed;
use crate::json::json_str;
use crate::json::member;
use crate::json::parse_json;
use crate::json::parse_toml;
use crate::json::toml_parsed;
use crate::model::AgentError;
use crate::model::Dependency;
use crate::model::DependencySource;
use crate::model::ProjectInfo;
use crate::outside::file_name_of;
use crate::outside::path_file_name;
use crate::text::begins_with;
use crate::text::chars_of;
use crate::text::contains_text;
use crate::text::find_last_char;
use crate::text::find_text;
use crate::text::first_occurrence;
use crate::text::last_position;
use crate::text::lines_of;
use crate::text::lowercase;
use crate::text::same_text;
use crate::text::skip_leading;
use crate::text::split_lines;
use crate::text::split_words;
use crate::text::starts_with_text;
use crate::text::text_between;
use crate::text::text_of;
use crate::text::trim_range;
use crate::text::trimmed;
use crate::text::trimmed_text;
use crate::text::without_leading;
use crate::text::words_of;

verus! {

/// The detector of one project directory.
pub struct ProjectDetector {
    project_path: PathBuf,
    config_files: Vec<PathBuf>,
    dependencies: Vec<Dependency>,
}

/// Whether a lowercase file name is that of a configuration file that the
/// detector knows.
pub open spec fn is_config_name(lower: Seq<char>) -> bool {
    lower == "cargo.toml"@ || lower == "package.json"@ || lower == "pom.xml"@ || lower
        == "build.gradle"@ || lower == "requirements.txt"@ || lower == "pyproject.toml"@ || lower
        == "go.mod"@ || lower == "composer.json"@ || lower == "gemfile"@ || lower == "mix.exs"@
        || lower == "project.clj"@ || lower == "sbt.sbt"@ || lower == "build.sbt"@ || lower
        == "cmakelists.txt"@ || lower == "meson.build"@ || lower == "makefile"@ || lower
        == "dockerfile"@ || lower == "docker-compose.yml"@ || lower == "terraform.tf"@ || lower
        == "main.tf"@ || lower == "vars.tf"@
}

/// A text cut in two at a mark: the part before position `at` and the part
/// after the `width` characters of the mark, each without white space at
/// its ends.
pub open spec fn cut(s: Seq<char>, at: int, width: int) -> (Seq<char>, Seq<char>) {
    (trimmed(s.take(at)), trimmed(s.skip(at + width)))
}

/// Whether a text is a comment: its first character that is not white
/// space is `#`.
pub open spec fn is_comment(s: Seq<char>) -> bool {
    trimmed(s).len() > 0 && trimmed(s)[0] == '#'
}

/// The name and the version that a Python requirement gives. The text is
/// cut at the first `>=`, else at the first `==`, `~=>`, `~`, `>` or `<`,
/// tried in this order; the version begins behind the mark, but for `~=>`
/// behind its first two characters. A text without a mark names the
/// latest version. A comment and an empty text give nothing.
pub open spec fn python_dependency(s: Seq<char>) -> Option<(Seq<char>, Seq<char>)> {
    if is_comment(s) {
        None
    } else if first_occurrence(s, ">="@) is Some {
        Some(cut(s, first_occurrence(s, ">="@)->0, 2))
    } else if first_occurrence(s, "=="@) is Some {
        Some(cut(s, first_occurrence(s, "=="@)->0, 2))
    } else if first_occurrence(s, "~=>"@) is Some {
        Some(cut(s, first_occurrence(s, "~=>"@)->0, 2))
    } else if first_occurrence(s, "~"@) is Some {
        Some(cut(s, first_occurrence(s, "~"@)->0, 1))
    } else if first_occurrence(s, ">"@) is Some {
        Some(cut(s, first_occurrence(s, ">"@)->0, 1))
    } else if first_occurrence(s, "<"@) is Some {
        Some(cut(s, first_occurrence(s, "<"@)->0, 1))
    } else if s.len() > 0 {
        Some((s, "latest"@))
    } else {
        None
    }
}

/// The two parts of the characters around a mark of `width` characters at
/// `at`.
fn cut_text(chars: &Vec<char>, at: usize, width: usize) -> (r: (String, String))
    requires
        at + width <= chars@.len(),
    ensures
        (r.0@, r.1@) == cut(chars@, at as int, width as int),
{
    let n = chars.len();
    assert(chars@.subrange(0, at as int) =~= chars@.take(at as int));
    assert(chars@.subrange(at + width, n as int) =~= chars@.skip(at + width));
    (trimmed_text(chars, 0, at), trimmed_text(chars, at + width, n))
}

impl ProjectDetector {
    /// The directory that the detector looks at.
    pub closed spec fn path(&self) -> PathBuf {
        self.project_path
    }

    /// The configuration files found so far.
    pub closed spec fn found_files(&self) -> Seq<PathBuf> {
        self.config_files@
    }

    /// The dependencies found so far.
    pub closed spec fn found_dependencies(&self) -> Seq<Dependency> {
        self.dependencies@
    }

    /// A detector for a directory, with nothing found yet.
    pub fn new(project_path: PathBuf) -> (detector: Self)
        ensures
            detector.path() == project_path,
            detector.found_files().len() == 0,
            detector.found_dependencies().len() == 0,
    {
        ProjectDetector { project_path, config_files: Vec::new(), dependencies: Vec::new() }
    }

    /// The directory that the detector looks at.
    pub fn project_path(&self) -> (path: &PathBuf)
        ensures
            *path == self.path(),
    {
        &self.project_path
    }

    /// Whether a file name, whatever its case, is that of a configuration
    /// file that the detector knows.
    pub fn is_config_file(file_name: &str) -> (b: bool)
        ensures
            b == is_config_name(lowercase(file_name@)),
    {
        let lower = file_name.to_lowercase();
        let l = lower.as_str();
        same_text(l, "cargo.toml") || same_text(l, "package.json") || same_text(l, "pom.xml")
            || same_text(l, "build.gradle") || same_text(l, "requirements.txt") || same_text(
            l,
            "pyproject.toml",
        ) || same_text(l, "go.mod") || same_text(l, "composer.json") || same_text(l, "gemfile")
            || same_text(l, "mix.exs") || same_text(l, "project.clj") || same_text(l, "sbt.sbt")
            || same_text(l, "build.sbt") || same_text(l, "cmakelists.txt") || same_text(
            l,
            "meson.build",
        ) || same_text(l, "makefile") || same_text(l, "dockerfile") || same_text(
            l,
            "docker-compose.yml",
        ) || same_text(l, "terraform.tf") || same_text(l, "main.tf") || same_text(l, "vars.tf")
    }

    /// Reads the name and the version from a Python requirement such as
    /// `requests>=2.0.0`, `django~=4.0` or `numpy`.
    pub fn parse_python_dependency(&self, dep_str: &str) -> (r: Option<(String, String)>)
        ensures
            match r {
                Some((name, version)) => python_dependency(dep_str@) == Some((name@, version@)),
                None => python_dependency(dep_str@) is None,
            },
    {
        read_python_requirement(dep_str)
    }
}

/// Reads the name and the version from a Python requirement.
pub fn read_python_requirement(dep_str: &str) -> (r: Option<(String, String)>)
    ensures
        match r {
            Some((name, version)) => python_dependency(dep_str@) == Some((name@, version@)),
            None => python_dependency(dep_str@) is None,
        },
{
    let chars = chars_of(dep_str);
    assert(chars@.subrange(0, chars@.len() as int) =~= chars@);
    let (a, b) = trim_range(&chars, 0, chars.len());
    if a < b && chars[a] == '#' {
        assert(chars@.subrange(a as int, b as int)[0] == chars@[a as int]);
        return None;
    }
    proof {
        if a < b {
            assert(chars@.subrange(a as int, b as int)[0] == chars@[a as int]);
        }
    }
    proof {
        reveal_strlit(">=");
        reveal_strlit("==");
        reveal_strlit("~=>");
        reveal_strlit("~");
        reveal_strlit(">");
        reveal_strlit("<");
    }
    if let Some(i) = find_text(&chars, ">=") {
        let (name, version) = cut_text(&chars, i, 2);
        return Some((name, version));
    }
    if let Some(i) = find_text(&chars, "==") {
        let (name, version) = cut_text(&chars, i, 2);
        return Some((name, version));
    }
    if let Some(i) = find_text(&chars, "~=>") {
        let (name, version) = cut_text(&chars, i, 2);
        return Some((name, version));
    }
    if let Some(i) = find_text(&chars, "~") {
        let (name, version) = cut_text(&chars, i, 1);
        return Some((name, version));
    }
    if let Some(i) = find_text(&chars, ">") {
        let (name, version) = cut_text(&chars, i, 1);
        return Some((name, version));
    }
    if let Some(i) = find_text(&chars, "<") {
        let (name, version) = cut_text(&chars, i, 1);
        return Some((name, version));
    }
    if chars.len() > 0 {
        Some((dep_str.to_owned(), "latest".to_owned()))
    } else {
        None
    }
}

/// The names and versions of dependencies.
pub open spec fn dependency_pairs(deps: Seq<Dependency>) -> Seq<(Seq<char>, Seq<char>)> {
    Seq::new(deps.len(), |i: int| (deps[i].name@, deps[i].version@))
}

/// What a line of a requirements file declares, the line being without
/// white space at its ends. A comment and an empty line declare nothing.
/// A line with `==`, else with `>=`, else with `~`, is cut at the first
/// such mark, and declares nothing where the name or the version is
/// empty. Any other line names a package in its latest version.
pub open spec fn pip_line(line: Seq<char>) -> Option<(Seq<char>, Seq<char>)> {
    if begins_with(line, "#"@) || line.len() == 0 {
        None
    } else if first_occurrence(line, "=="@) is Some {
        nonempty_pair(cut(line, first_occurrence(line, "=="@)->0, 2))
    } else if first_occurrence(line, ">="@) is Some {
        nonempty_pair(cut(line, first_occurrence(line, ">="@)->0, 2))
    } else if first_occurrence(line, "~"@) is Some {
        nonempty_pair(cut(line, first_occurrence(line, "~"@)->0, 1))
    } else {
        Some((line, "latest"@))
    }
}

/// The pair, unless one of its parts is empty.
pub open spec fn nonempty_pair(pair: (Seq<char>, Seq<char>)) -> Option<(Seq<char>, Seq<char>)> {
    if pair.0.len() > 0 && pair.1.len() > 0 {
        Some(pair)
    } else {
        None
    }
}

/// What the lines of a file declare, line by line, where `declared` says
/// what one line without white space at its ends declares.
pub open spec fn declared_by_lines(
    lines: Seq<Seq<char>>,
    declared: spec_fn(Seq<char>) -> Option<(Seq<char>, Seq<char>)>,
) -> Seq<(Seq<char>, Seq<char>)>
    decreases lines.len(),
{
    if lines.len() == 0 {
        Seq::empty()
    } else {
        declared_by_lines(lines.drop_last(), declared) + match declared(trimmed(lines.last())) {
            Some(pair) => seq![pair],
            None => Seq::empty(),
        }
    }
}

/// What a line of a Gradle build file declares: a line that begins with
/// `implementation ` or `api ` and holds two double quotes declares what
/// stands between the first and the last of them, cut at its first colon
/// into name and version.
pub open spec fn gradle_line(line: Seq<char>) -> Option<(Seq<char>, Seq<char>)> {
    if !(begins_with(line, "implementation "@) || begins_with(line, "api "@)) {
        None
    } else if first_occurrence(line, "\""@) is None {
        None
    } else {
        let start = first_occurrence(line, "\""@)->0;
        let end = last_position(line, '"');
        if start < end {
            let quoted = trimmed(line.subrange(start + 1, end));
            match first_occurrence(quoted, ":"@) {
                Some(colon) => Some((quoted.take(colon), quoted.skip(colon + 1))),
                None => None,
            }
        } else {
            None
        }
    }
}

/// What a line of a Go module file declares: a line that begins with
/// `require ` and has at least three words declares its second word in
/// the version of its third.
pub open spec fn go_line(line: Seq<char>) -> Option<(Seq<char>, Seq<char>)> {
    if begins_with(line, "require "@) && words_of(line).len() >= 3 {
        Some((words_of(line)[1], words_of(line)[2]))
    } else {
        None
    }
}

/// The three fields of a Maven dependency that have been read, and
/// whether the lines are inside a dependency.
pub struct MavenState {
    pub inside: bool,
    pub group_id: Option<Seq<char>>,
    pub artifact_id: Option<Seq<char>>,
    pub version: Option<Seq<char>>,
}

/// The field that a line inside a Maven dependency sets: the text before
/// the first `>`, without white space and without `<` at its start, and
/// the text between that `>` and the last `<`. Nothing is set where the
/// `>` does not stand before the `<`, or where either text is empty.
pub open spec fn maven_field(line: Seq<char>) -> Option<(Seq<char>, Seq<char>)> {
    if first_occurrence(line, ">"@) is None {
        None
    } else {
        let start = first_occurrence(line, ">"@)->0;
        let end = last_position(line, '<');
        if start < end {
            nonempty_pair(
                (
                    without_leading(trimmed(line.take(start)), '<'),
                    trimmed(line.subrange(start + 1, end)),
                ),
            )
        } else {
            None
        }
    }
}

/// The state after a line of a Maven file, the line being without white
/// space at its ends.
pub open spec fn maven_after(state: MavenState, line: Seq<char>) -> MavenState {
    if contains_text(line, "<dependency>"@) {
        MavenState { inside: true, group_id: None, artifact_id: None, version: None }
    } else if contains_text(line, "</dependency>"@) {
        MavenState { inside: false, group_id: None, artifact_id: None, version: None }
    } else if state.inside {
        match maven_field(line) {
            Some((key, value)) => if key == "groupId"@ {
                MavenState { group_id: Some(value), ..state }
            } else if key == "artifactId"@ {
                MavenState { artifact_id: Some(value), ..state }
            } else if key == "version"@ {
                MavenState { version: Some(value), ..state }
            } else {
                state
            },
            None => state,
        }
    } else {
        state
    }
}

/// What a line of a Maven file declares in a given state: the line that
/// ends a dependency declares it, as group and artifact joined by a colon
/// and the version, where all three fields have been read.
pub open spec fn maven_declared(state: MavenState, line: Seq<char>) -> Option<
    (Seq<char>, Seq<char>),
> {
    if !contains_text(line, "<dependency>"@) && contains_text(line, "</dependency>"@)
        && state.group_id is Some && state.artifact_id is Some && state.version is Some {
        Some((state.group_id->0 + ":"@ + state.artifact_id->0, state.version->0))
    } else {
        None
    }
}

/// The state after the lines of a Maven file.
pub open spec fn maven_state(lines: Seq<Seq<char>>) -> MavenState
    decreases lines.len(),
{
    if lines.len() == 0 {
        MavenState { inside: false, group_id: None, artifact_id: None, version: None }
    } else {
        maven_after(maven_state(lines.drop_last()), trimmed(lines.last()))
    }
}

/// What the lines of a Maven file declare.
pub open spec fn maven_dependencies(lines: Seq<Seq<char>>) -> Seq<(Seq<char>, Seq<char>)>
    decreases lines.len(),
{
    if lines.len() == 0 {
        Seq::empty()
    } else {
        maven_dependencies(lines.drop_last()) + match maven_declared(
            maven_state(lines.drop_last()),
            trimmed(lines.last()),
        ) {
            Some(pair) => seq![pair],
            None => Seq::empty(),
        }
    }
}

/// A line without the white space at its ends.
fn trim_line(line: &Vec<char>) -> (r: Vec<char>)
    ensures
        r@ == trimmed(line@),
{
    let n = line.len();
    assert(line@.subrange(0, n as int) =~= line@);
    let (a, b) = trim_range(line, 0, n);
    let mut out: Vec<char> = Vec::new();
    let mut i: usize = a;
    assert(line@.subrange(a as int, a as int) =~= Seq::empty());
    while i < b
        invariant
            a <= i <= b <= line@.len(),
            out@ == line@.subrange(a as int, i as int),
        decreases b - i,
    {
        out.push(line[i]);
        assert(line@.subrange(a as int, i + 1) =~= line@.subrange(a as int, i as int).push(
            line@[i as int],
        ));
        i = i + 1;
    }
    out
}

/// The two parts of a line around a mark, unless one of them is empty.
fn cut_nonempty(chars: &Vec<char>, at: usize, width: usize) -> (r: Option<(String, String)>)
    requires
        at + width <= chars@.len(),
    ensures
        match r {
            Some((name, version)) => nonempty_pair(cut(chars@, at as int, width as int)) == Some(
                (name@, version@),
            ),
            None => nonempty_pair(cut(chars@, at as int, width as int)) is None,
        },
{
    let (name, version) = cut_text(chars, at, width);
    if name.as_str().unicode_len() > 0 && version.as_str().unicode_len() > 0 {
        Some((name, version))
    } else {
        None
    }
}

/// What a line of a requirements file declares.
fn parse_pip_line(line: &Vec<char>) -> (r: Option<(String, String)>)
    ensures
        match r {
            Some((name, version)) => pip_line(line@) == Some((name@, version@)),
            None => pip_line(line@) is None,
        },
{
    proof {
        reveal_strlit("==");
        reveal_strlit(">=");
        reveal_strlit("~");
    }
    if starts_with_text(line, "#") || line.len() == 0 {
        return None;
    }
    if let Some(i) = find_text(line, "==") {
        return cut_nonempty(line, i, 2);
    }
    if let Some(i) = find_text(line, ">=") {
        return cut_nonempty(line, i, 2);
    }
    if let Some(i) = find_text(line, "~") {
        return cut_nonempty(line, i, 1);
    }
    Some((text_of(line), "latest".to_owned()))
}

/// What a line of a Gradle build file declares.
fn parse_gradle_line(line: &Vec<char>) -> (r: Option<(String, String)>)
    ensures
        match r {
            Some((name, version)) => gradle_line(line@) == Some((name@, version@)),
            None => gradle_line(line@) is None,
        },
{
    proof {
        reveal_strlit("\"");
        reveal_strlit(":");
    }
    if !(starts_with_text(line, "implementation ") || starts_with_text(line, "api ")) {
        return None;
    }
    let start = match find_text(line, "\"") {
        Some(i) => i,
        None => {
            return None;
        },
    };
    let end = match find_last_char(line, '"') {
        Some(i) => i,
        None => {
            return None;
        },
    };
    if start >= end {
        return None;
    }
    let (a, b) = trim_range(line, start + 1, end);
    let mut quoted: Vec<char> = Vec::new();
    let mut i: usize = a;
    assert(line@.subrange(a as int, a as int) =~= Seq::empty());
    while i < b
        invariant
            a <= i <= b <= line@.len(),
            quoted@ == line@.subrange(a as int, i as int),
        decreases b - i,
    {
        quoted.push(line[i]);
        assert(line@.subrange(a as int, i + 1) =~= line@.subrange(a as int, i as int).push(
            line@[i as int],
        ));
        i = i + 1;
    }
    match find_text(&quoted, ":") {
        Some(colon) => {
            let n = quoted.len();
            assert(quoted@.subrange(0, colon as int) =~= quoted@.take(colon as int));
            assert(quoted@.subrange(colon + 1, n as int) =~= quoted@.skip(colon + 1));
            Some((text_between(&quoted, 0, colon), text_between(&quoted, colon + 1, n)))
        },
        None => None,
    }
}

/// What a line of a Go module file declares.
fn parse_go_line(line: &Vec<char>) -> (r: Option<(String, String)>)
    ensures
        match r {
            Some((name, version)) => go_line(line@) == Some((name@, version@)),
            None => go_line(line@) is None,
        },
{
    if !starts_with_text(line, "require ") {
        return None;
    }
    let words = split_words(line);
    if words.len() >= 3 {
        Some((text_of(&words[1]), text_of(&words[2])))
    } else {
        None
    }
}

/// The dependency with that name, that version and that source.
fn dependency(name: String, version: String, source: DependencySource) -> (d: Dependency)
    ensures
        d.name == name,
        d.version == version,
        d.source == source,
{
    Dependency { name, version, source }
}

/// The dependencies that a `requirements.txt` declares, in the order of
/// its lines.
pub fn parse_pip_dependencies(content: &str) -> (deps: Vec<Dependency>)
    ensures
        dependency_pairs(deps@) == declared_by_lines(
            lines_of(content@),
            |line: Seq<char>| pip_line(line),
        ),
        forall|i: int| 0 <= i < deps@.len() ==> (#[trigger] deps@[i]).source == DependencySource::Pip,
{
    let chars = chars_of(content);
    let lines = split_lines(&chars);
    let ghost all = lines_of(content@);
    let ghost declared = |line: Seq<char>| pip_line(line);
    let mut deps: Vec<Dependency> = Vec::new();
    let mut i: usize = 0;
    assert(all.take(0) =~= Seq::empty());
    assert(dependency_pairs(deps@) =~= Seq::empty());
    while i < lines.len()
        invariant
            i <= lines@.len(),
            lines@.len() == all.len(),
            declared == (|line: Seq<char>| pip_line(line)),
            forall|j: int| 0 <= j < lines@.len() ==> (#[trigger] lines@[j])@ == all[j],
            dependency_pairs(deps@) == declared_by_lines(all.take(i as int), declared),
            forall|j: int|
                0 <= j < deps@.len() ==> (#[trigger] deps@[j]).source == DependencySource::Pip,
        decreases lines@.len() - i,
    {
        let ghost before = deps@;
        let line = trim_line(&lines[i]);
        proof {
            assert(all.take(i + 1).drop_last() =~= all.take(i as int));
            assert(all.take(i + 1).last() == all[i as int]);
        }
        match parse_pip_line(&line) {
            Some((name, version)) => {
                deps.push(dependency(name, version, DependencySource::Pip));
                assert(dependency_pairs(deps@) =~= dependency_pairs(before).push((name@, version@)));
            },
            None => {},
        }
        assert(dependency_pairs(deps@) =~= declared_by_lines(all.take(i + 1), declared));
        i = i + 1;
    }
    assert(all.take(lines@.len() as int) =~= all);
    deps
}

/// The dependencies that a `build.gradle` declares, in the order of its
/// lines.
pub fn parse_gradle_dependencies(content: &str) -> (deps: Vec<Dependency>)
    ensures
        dependency_pairs(deps@) == declared_by_lines(
            lines_of(content@),
            |line: Seq<char>| gradle_line(line),
        ),
        forall|i: int|
            0 <= i < deps@.len() ==> (#[trigger] deps@[i]).source == DependencySource::Gradle,
{
    let chars = chars_of(content);
    let lines = split_lines(&chars);
    let ghost all = lines_of(content@);
    let ghost declared = |line: Seq<char>| gradle_line(line);
    let mut deps: Vec<Dependency> = Vec::new();
    let mut i: usize = 0;
    assert(all.take(0) =~= Seq::empty());
    assert(dependency_pairs(deps@) =~= Seq::empty());
    while i < lines.len()
        invariant
            i <= lines@.len(),
            lines@.len() == all.len(),
            declared == (|line: Seq<char>| gradle_line(line)),
            forall|j: int| 0 <= j < lines@.len() ==> (#[trigger] lines@[j])@ == all[j],
            dependency_pairs(deps@) == declared_by_lines(all.take(i as int), declared),
            forall|j: int|
                0 <= j < deps@.len() ==> (#[trigger] deps@[j]).source == DependencySource::Gradle,
        decreases lines@.len() - i,
    {
        let ghost before = deps@;
        let line = trim_line(&lines[i]);
        proof {
            assert(all.take(i + 1).drop_last() =~= all.take(i as int));
            assert(all.take(i + 1).last() == all[i as int]);
        }
        match parse_gradle_line(&line) {
            Some((name, version)) => {
                deps.push(dependency(name, version, DependencySource::Gradle));
                assert(dependency_pairs(deps@) =~= dependency_pairs(before).push((name@, version@)));
            },
            None => {},
        }
        assert(dependency_pairs(deps@) =~= declared_by_lines(all.take(i + 1), declared));
        i = i + 1;
    }
    assert(all.take(lines@.len() as int) =~= all);
    deps
}

/// The dependencies that a `go.mod` declares, in the order of its lines.
pub fn parse_go_dependencies(content: &str) -> (deps: Vec<Dependency>)
    ensures
        dependency_pairs(deps@) == declared_by_lines(
            lines_of(content@),
            |line: Seq<char>| go_line(line),
        ),
        forall|i: int|
            0 <= i < deps@.len() ==> (#[trigger] deps@[i]).source == DependencySource::GoMod,
{
    let chars = chars_of(content);
    let lines = split_lines(&chars);
    let ghost all = lines_of(content@);
    let ghost declared = |line: Seq<char>| go_line(line);
    let mut deps: Vec<Dependency> = Vec::new();
    let mut i: usize = 0;
    assert(all.take(0) =~= Seq::empty());
    assert(dependency_pairs(deps@) =~= Seq::empty());
    while i < lines.len()
        invariant
            i <= lines@.len(),
            lines@.len() == all.len(),
            declared == (|line: Seq<char>| go_line(line)),
            forall|j: int| 0 <= j < lines@.len() ==> (#[trigger] lines@[j])@ == all[j],
            dependency_pairs(deps@) == declared_by_lines(all.take(i as int), declared),
            forall|j: int|
                0 <= j < deps@.len() ==> (#[trigger] deps@[j]).source == DependencySource::GoMod,
        decreases lines@.len() - i,
    {
        let ghost before = deps@;
        let line = trim_line(&lines[i]);
        proof {
            assert(all.take(i + 1).drop_last() =~= all.take(i as int));
            assert(all.take(i + 1).last() == all[i as int]);
        }
        match parse_go_line(&line) {
            Some((name, version)) => {
                deps.push(dependency(name, version, DependencySource::GoMod));
                assert(dependency_pairs(deps@) =~= dependency_pairs(before).push((name@, version@)));
            },
            None => {},
        }
        assert(dependency_pairs(deps@) =~= declared_by_lines(all.take(i + 1), declared));
        i = i + 1;
    }
    assert(all.take(lines@.len() as int) =~= all);
    deps
}

/// The field that a line inside a Maven dependency sets.
fn parse_maven_field(line: &Vec<char>) -> (r: Option<(String, String)>)
    ensures
        match r {
            Some((key, value)) => maven_field(line@) == Some((key@, value@)),
            None => maven_field(line@) is None,
        },
{
    proof {
        reveal_strlit(">");
    }
    let start = match find_text(line, ">") {
        Some(i) => i,
        None => {
            return None;
        },
    };
    let end = match find_last_char(line, '<') {
        Some(i) => i,
        None => {
            return None;
        },
    };
    if start >= end {
        return None;
    }
    assert(line@.subrange(0, start as int) =~= line@.take(start as int));
    let (a, b) = trim_range(line, 0, start);
    let from = skip_leading(line, a, b, '<');
    let key = text_between(line, from, b);
    let value = trimmed_text(line, start + 1, end);
    if key.as_str().unicode_len() > 0 && value.as_str().unicode_len() > 0 {
        Some((key, value))
    } else {
        None
    }
}

/// The text that an optional text holds.
pub open spec fn text_in(field: Option<String>) -> Option<Seq<char>> {
    match field {
        Some(text) => Some(text@),
        None => None,
    }
}

/// The dependencies that a `pom.xml` declares, in the order in which its
/// `dependency` elements end. The file is read line by line: a line with
/// `<dependency>` begins a dependency, a line with `</dependency>` ends
/// it, and the lines between set its fields.
pub fn parse_maven_dependencies(content: &str) -> (deps: Vec<Dependency>)
    ensures
        dependency_pairs(deps@) == maven_dependencies(lines_of(content@)),
        forall|i: int|
            0 <= i < deps@.len() ==> (#[trigger] deps@[i]).source == DependencySource::Maven,
{
    let chars = chars_of(content);
    let lines = split_lines(&chars);
    let ghost all = lines_of(content@);
    let mut deps: Vec<Dependency> = Vec::new();
    let mut inside = false;
    let mut group_id: Option<String> = None;
    let mut artifact_id: Option<String> = None;
    let mut version: Option<String> = None;
    let mut i: usize = 0;
    assert(all.take(0) =~= Seq::empty());
    assert(dependency_pairs(deps@) =~= Seq::empty());
    while i < lines.len()
        invariant
            i <= lines@.len(),
            lines@.len() == all.len(),
            forall|j: int| 0 <= j < lines@.len() ==> (#[trigger] lines@[j])@ == all[j],
            dependency_pairs(deps@) == maven_dependencies(all.take(i as int)),
            maven_state(all.take(i as int)) == (MavenState {
                inside,
                group_id: text_in(group_id),
                artifact_id: text_in(artifact_id),
                version: text_in(version),
            }),
            forall|j: int|
                0 <= j < deps@.len() ==> (#[trigger] deps@[j]).source == DependencySource::Maven,
        decreases lines@.len() - i,
    {
        let ghost before = deps@;
        let ghost state = maven_state(all.take(i as int));
        let line = trim_line(&lines[i]);
        proof {
            assert(all.take(i + 1).drop_last() =~= all.take(i as int));
            assert(all.take(i + 1).last() == all[i as int]);
        }
        if find_text(&line, "<dependency>").is_some() {
            inside = true;
            group_id = None;
            artifact_id = None;
            version = None;
        } else if find_text(&line, "</dependency>").is_some() {
            inside = false;
            match (group_id, artifact_id, version) {
                (Some(group), Some(artifact), Some(v)) => {
                    let mut name = group;
                    name.append(":");
                    name.append(artifact.as_str());
                    deps.push(dependency(name, v, DependencySource::Maven));
                    assert(dependency_pairs(deps@) =~= dependency_pairs(before).push(
                        (name@, v@),
                    ));
                },
                _ => {},
            }
            group_id = None;
            artifact_id = None;
            version = None;
        } else if inside {
            match parse_maven_field(&line) {
                Some((key, value)) => {
                    if same_text(key.as_str(), "groupId") {
                        group_id = Some(value);
                    } else if same_text(key.as_str(), "artifactId") {
                        artifact_id = Some(value);
                    } else if same_text(key.as_str(), "version") {
                        version = Some(value);
                    }
                },
                None => {},
            }
        }
        assert(dependency_pairs(deps@) =~= maven_dependencies(all.take(i + 1)));
        i = i + 1;
    }
    assert(all.take(lines@.len() as int) =~= all);
    deps
}

/// What the members of an object declare, member by member, where
/// `declared` says what the version of one member is.
pub open spec fn declared_by_members(
    members: Seq<(Seq<char>, Value)>,
    declared: spec_fn(Value) -> Option<Seq<char>>,
) -> Seq<(Seq<char>, Seq<char>)>
    decreases members.len(),
{
    if members.len() == 0 {
        Seq::empty()
    } else {
        declared_by_members(members.drop_last(), declared) + match declared(members.last().1) {
            Some(version) => seq![(members.last().0, version)],
            None => Seq::empty(),
        }
    }
}

/// What the object under `section` in a document declares; nothing where
/// the document has no object there.
pub open spec fn declared_by_section(
    document: Value,
    section: Seq<char>,
    declared: spec_fn(Value) -> Option<Seq<char>>,
) -> Seq<(Seq<char>, Seq<char>)> {
    match json_member(document, section) {
        Some(table) => match json_entries(table) {
            Some(members) => declared_by_members(members, declared),
            None => Seq::empty(),
        },
        None => Seq::empty(),
    }
}

/// The version that a dependency of a Cargo manifest has: the text
/// itself, or the text under `version` in a table.
pub open spec fn cargo_version(value: Value) -> Option<Seq<char>> {
    match json_str(value) {
        Some(text) => Some(text),
        None => if json_entries(value) is Some {
            match json_member(value, "version"@) {
                Some(version) => json_str(version),
                None => None,
            }
        } else {
            None
        },
    }
}

/// The version of a dependency in a Cargo manifest.
fn read_cargo_version(value: &Value) -> (r: Option<String>)
    ensures
        text_in(r) == cargo_version(*value),
{
    match as_text(value) {
        Some(text) => Some(text.to_owned()),
        None => match entries(value) {
            Some(_) => match member(value, "version") {
                Some(version) => match as_text(version) {
                    Some(text) => Some(text.to_owned()),
                    None => None,
                },
                None => None,
            },
            None => None,
        },
    }
}

/// The version of a dependency in a package manifest: the text itself.
fn read_npm_version(value: &Value) -> (r: Option<String>)
    ensures
        text_in(r) == json_str(*value),
{
    match as_text(value) {
        Some(text) => Some(text.to_owned()),
        None => None,
    }
}

/// Appends what the object under `section` declares in a Cargo manifest.
fn push_cargo_section(deps: &mut Vec<Dependency>, document: &Value, section: &str)
    requires
        forall|i: int|
            0 <= i < old(deps)@.len() ==> (#[trigger] old(deps)@[i]).source
                == DependencySource::Cargo,
    ensures
        dependency_pairs(final(deps)@) == dependency_pairs(old(deps)@) + declared_by_section(
            *document,
            section@,
            |v: Value| cargo_version(v),
        ),
        forall|i: int|
            0 <= i < final(deps)@.len() ==> (#[trigger] final(deps)@[i]).source
                == DependencySource::Cargo,
{
    let ghost base = dependency_pairs(deps@);
    let ghost declared = |v: Value| cargo_version(v);
    assert(base + Seq::<(Seq<char>, Seq<char>)>::empty() =~= base);
    let table = match member(document, section) {
        Some(table) => table,
        None => {
            return ;
        },
    };
    let list = match entries(table) {
        Some(list) => list,
        None => {
            return ;
        },
    };
    let ghost members = entries_view(list@);
    let mut i: usize = 0;
    assert(members.take(0) =~= Seq::empty());
    while i < list.len()
        invariant
            i <= list@.len(),
            members == entries_view(list@),
            declared == (|v: Value| cargo_version(v)),
            dependency_pairs(deps@) == base + declared_by_members(members.take(i as int), declared),
            forall|j: int|
                0 <= j < deps@.len() ==> (#[trigger] deps@[j]).source == DependencySource::Cargo,
        decreases list@.len() - i,
    {
        let ghost before = deps@;
        proof {
            assert(members.take(i + 1).drop_last() =~= members.take(i as int));
            assert(members.take(i + 1).last() == members[i as int]);
        }
        match read_cargo_version(&list[i].1) {
            Some(version) => {
                let name = list[i].0.clone();
                deps.push(dependency(name, version, DependencySource::Cargo));
                assert(dependency_pairs(deps@) =~= dependency_pairs(before).push(
                    (name@, version@),
                ));
            },
            None => {},
        }
        assert(dependency_pairs(deps@) =~= base + declared_by_members(
            members.take(i + 1),
            declared,
        ));
        i = i + 1;
    }
    assert(members.take(list@.len() as int) =~= members);
}

/// Appends what the object under `section` declares in a package
/// manifest.
fn push_npm_section(deps: &mut Vec<Dependency>, document: &Value, section: &str)
    requires
        forall|i: int|
            0 <= i < old(deps)@.len() ==> (#[trigger] old(deps)@[i]).source
                == DependencySource::Npm,
    ensures
        dependency_pairs(final(deps)@) == dependency_pairs(old(deps)@) + declared_by_section(
            *document,
            section@,
            |v: Value| json_str(v),
        ),
        forall|i: int|
            0 <= i < final(deps)@.len() ==> (#[trigger] final(deps)@[i]).source
                == DependencySource::Npm,
{
    let ghost base = dependency_pairs(deps@);
    let ghost declared = |v: Value| json_str(v);
    assert(base + Seq::<(Seq<char>, Seq<char>)>::empty() =~= base);
    let table = match member(document, section) {
        Some(table) => table,
        None => {
            return ;
        },
    };
    let list = match entries(table) {
        Some(list) => list,
        None => {
            return ;
        },
    };
    let ghost members = entries_view(list@);
    let mut i: usize = 0;
    assert(members.take(0) =~= Seq::empty());
    while i < list.len()
        invariant
            i <= list@.len(),
            members == entries_view(list@),
            declared == (|v: Value| json_str(v)),
            dependency_pairs(deps@) == base + declared_by_members(members.take(i as int), declared),
            forall|j: int|
                0 <= j < deps@.len() ==> (#[trigger] deps@[j]).source == DependencySource::Npm,
        decreases list@.len() - i,
    {
        let ghost before = deps@;
        proof {
            assert(members.take(i + 1).drop_last() =~= members.take(i as int));
            assert(members.take(i + 1).last() == members[i as int]);
        }
        match read_npm_version(&list[i].1) {
            Some(version) => {
                let name = list[i].0.clone();
                deps.push(dependency(name, version, DependencySource::Npm));
                assert(dependency_pairs(deps@) =~= dependency_pairs(before).push(
                    (name@, version@),
                ));
            },
            None => {},
        }
        assert(dependency_pairs(deps@) =~= base + declared_by_members(
            members.take(i + 1),
            declared,
        ));
        i = i + 1;
    }
    assert(members.take(list@.len() as int) =~= members);
}

/// The dependencies that a `Cargo.toml` declares under `dependencies`: a
/// dependency given as a text has that version, one given as a table the
/// text under `version`, and any other is left out. A text that is not
/// TOML is refused with the parser's message.
pub fn parse_cargo_dependencies(content: &str) -> (r: Result<Vec<Dependency>, AgentError>)
    ensures
        match r {
            Ok(deps) => toml_parsed(content@) is Ok && dependency_pairs(deps@)
                == declared_by_section(
                toml_parsed(content@)->Ok_0,
                "dependencies"@,
                |v: Value| cargo_version(v),
            ) && forall|i: int|
                0 <= i < deps@.len() ==> (#[trigger] deps@[i]).source == DependencySource::Cargo,
            Err(e) => toml_parsed(content@) is Err && (e matches AgentError::Configuration(m) && m@
                == toml_parsed(content@)->Err_0),
        },
{
    let document = match parse_toml(content) {
        Ok(document) => document,
        Err(message) => {
            return Err(AgentError::Configuration(message));
        },
    };
    let mut deps: Vec<Dependency> = Vec::new();
    assert(dependency_pairs(deps@) =~= Seq::empty());
    push_cargo_section(&mut deps, &document, "dependencies");
    assert(Seq::<(Seq<char>, Seq<char>)>::empty() + declared_by_section(
        document,
        "dependencies"@,
        |v: Value| cargo_version(v),
    ) =~= declared_by_section(document, "dependencies"@, |v: Value| cargo_version(v)));
    Ok(deps)
}

/// The dependencies that a `package.json` declares: the members of
/// `dependencies` and then those of `devDependencies` whose version is a
/// text. A text that is not JSON is refused with the parser's message.
pub fn parse_npm_dependencies(content: &str) -> (r: Result<Vec<Dependency>, AgentError>)
    ensures
        match r {
            Ok(deps) => json_parsed(content@) is Ok && dependency_pairs(deps@)
                == declared_by_section(
                json_parsed(content@)->Ok_0,
                "dependencies"@,
                |v: Value| json_str(v),
            ) + declared_by_section(
                json_parsed(content@)->Ok_0,
                "devDependencies"@,
                |v: Value| json_str(v),
            ) && forall|i: int|
                0 <= i < deps@.len() ==> (#[trigger] deps@[i]).source == DependencySource::Npm,
            Err(e) => json_parsed(content@) is Err && (e matches AgentError::Configuration(m) && m@
                == json_parsed(content@)->Err_0),
        },
{
    let document = match parse_json(content) {
        Ok(document) => document,
        Err(message) => {
            return Err(AgentError::Configuration(message));
        },
    };
    let mut deps: Vec<Dependency> = Vec::new();
    assert(dependency_pairs(deps@) =~= Seq::empty());
    push_npm_section(&mut deps, &document, "dependencies");
    assert(Seq::<(Seq<char>, Seq<char>)>::empty() + declared_by_section(
        document,
        "dependencies"@,
        |v: Value| json_str(v),
    ) =~= declared_by_section(document, "dependencies"@, |v: Value| json_str(v)));
    push_npm_section(&mut deps, &document, "devDependencies");
    Ok(deps)
}

/// What the items of an array declare as Python requirements, item by
/// item; an item that is no text declares nothing.
pub open spec fn declared_by_items(list: Seq<Value>) -> Seq<(Seq<char>, Seq<char>)>
    decreases list.len(),
{
    if list.len() == 0 {
        Seq::empty()
    } else {
        declared_by_items(list.drop_last()) + match json_str(list.last()) {
            Some(text) => match python_dependency(text) {
                Some(pair) => seq![pair],
                None => Seq::empty(),
            },
            None => Seq::empty(),
        }
    }
}

/// What the array under `key` in a document declares as Python
/// requirements; nothing where the document has no array there.
pub open spec fn declared_by_array(document: Value, key: Seq<char>) -> Seq<(Seq<char>, Seq<char>)> {
    match json_member(document, key) {
        Some(array) => match json_items(array) {
            Some(list) => declared_by_items(list),
            None => Seq::empty(),
        },
        None => Seq::empty(),
    }
}

/// Appends what the array under `key` declares as Python requirements.
fn push_python_array(deps: &mut Vec<Dependency>, document: &Value, key: &str)
    requires
        forall|i: int|
            0 <= i < old(deps)@.len() ==> (#[trigger] old(deps)@[i]).source
                == DependencySource::Pip,
    ensures
        dependency_pairs(final(deps)@) == dependency_pairs(old(deps)@) + declared_by_array(
            *document,
            key@,
        ),
        forall|i: int|
            0 <= i < final(deps)@.len() ==> (#[trigger] final(deps)@[i]).source
                == DependencySource::Pip,
{
    let ghost base = dependency_pairs(deps@);
    assert(base + Seq::<(Seq<char>, Seq<char>)>::empty() =~= base);
    let array = match member(document, key) {
        Some(array) => array,
        None => {
            return ;
        },
    };
    let list = match items(array) {
        Some(list) => list,
        None => {
            return ;
        },
    };
    let mut i: usize = 0;
    assert(list@.take(0) =~= Seq::empty());
    while i < list.len()
        invariant
            i <= list@.len(),
            dependency_pairs(deps@) == base + declared_by_items(list@.take(i as int)),
            forall|j: int|
                0 <= j < deps@.len() ==> (#[trigger] deps@[j]).source == DependencySource::Pip,
        decreases list@.len() - i,
    {
        let ghost before = deps@;
        proof {
            assert(list@.take(i + 1).drop_last() =~= list@.take(i as int));
            assert(list@.take(i + 1).last() == list@[i as int]);
        }
        match as_text(&list[i]) {
            Some(text) => match read_python_requirement(text) {
                Some((name, version)) => {
                    deps.push(dependency(name, version, DependencySource::Pip));
                    assert(dependency_pairs(deps@) =~= dependency_pairs(before).push(
                        (name@, version@),
                    ));
                },
                None => {},
            },
            None => {},
        }
        assert(dependency_pairs(deps@) =~= base + declared_by_items(list@.take(i + 1)));
        i = i + 1;
    }
    assert(list@.take(list@.len() as int) =~= list@);
}

/// The dependencies that a `pyproject.toml` declares: the requirements in
/// the arrays under the keys `project.dependencies`,
/// `tool.poetry.dependencies` and `build-system.requires` of the document,
/// in this order. A text that is not TOML is refused with the parser's
/// message.
pub fn parse_pyproject_dependencies(content: &str) -> (r: Result<Vec<Dependency>, AgentError>)
    ensures
        match r {
            Ok(deps) => toml_parsed(content@) is Ok && dependency_pairs(deps@)
                == declared_by_array(toml_parsed(content@)->Ok_0, "project.dependencies"@)
                + declared_by_array(toml_parsed(content@)->Ok_0, "tool.poetry.dependencies"@)
                + declared_by_array(toml_parsed(content@)->Ok_0, "build-system.requires"@)
                && forall|i: int|
                0 <= i < deps@.len() ==> (#[trigger] deps@[i]).source == DependencySource::Pip,
            Err(e) => toml_parsed(content@) is Err && (e matches AgentError::Configuration(m) && m@
                == toml_parsed(content@)->Err_0),
        },
{
    let document = match parse_toml(content) {
        Ok(document) => document,
        Err(message) => {
            return Err(AgentError::Configuration(message));
        },
    };
    let mut deps: Vec<Dependency> = Vec::new();
    assert(dependency_pairs(deps@) =~= Seq::empty());
    push_python_array(&mut deps, &document, "project.dependencies");
    assert(Seq::<(Seq<char>, Seq<char>)>::empty() + declared_by_array(
        document,
        "project.dependencies"@,
    ) =~= declared_by_array(document, "project.dependencies"@));
    push_python_array(&mut deps, &document, "tool.poetry.dependencies");
    push_python_array(&mut deps, &document, "build-system.requires");
    Ok(deps)
}

/// The kind of file that declares dependencies.
#[derive(Debug, Clone, Copy, PartialEq, Eq, Structural)]
pub enum ManifestKind {
    Cargo,
    Npm,
    Maven,
    Gradle,
    Pip,
    Pyproject,
    GoMod,
}

/// The kind of manifest that a lowercase file name names.
pub open spec fn manifest_kind(lower: Seq<char>) -> Option<ManifestKind> {
    if lower == "cargo.toml"@ {
        Some(ManifestKind::Cargo)
    } else if lower == "package.json"@ {
        Some(ManifestKind::Npm)
    } else if lower == "pom.xml"@ {
        Some(ManifestKind::Maven)
    } else if lower == "build.gradle"@ {
        Some(ManifestKind::Gradle)
    } else if lower == "requirements.txt"@ {
        Some(ManifestKind::Pip)
    } else if lower == "pyproject.toml"@ {
        Some(ManifestKind::Pyproject)
    } else if lower == "go.mod"@ {
        Some(ManifestKind::GoMod)
    } else {
        None
    }
}

/// The kind of manifest that a file name names, whatever its case.
pub fn manifest_kind_of(file_name: &str) -> (kind: Option<ManifestKind>)
    ensures
        kind == manifest_kind(lowercase(file_name@)),
{
    let lower = file_name.to_lowercase();
    let l = lower.as_str();
    if same_text(l, "cargo.toml") {
        Some(ManifestKind::Cargo)
    } else if same_text(l, "package.json") {
        Some(ManifestKind::Npm)
    } else if same_text(l, "pom.xml") {
        Some(ManifestKind::Maven)
    } else if same_text(l, "build.gradle") {
        Some(ManifestKind::Gradle)
    } else if same_text(l, "requirements.txt") {
        Some(ManifestKind::Pip)
    } else if same_text(l, "pyproject.toml") {
        Some(ManifestKind::Pyproject)
    } else if same_text(l, "go.mod") {
        Some(ManifestKind::GoMod)
    } else {
        None
    }
}

/// The source of the dependencies that a manifest of a kind declares.
pub open spec fn source_of(kind: ManifestKind) -> DependencySource {
    match kind {
        ManifestKind::Cargo => DependencySource::Cargo,
        ManifestKind::Npm => DependencySource::Npm,
        ManifestKind::Maven => DependencySource::Maven,
        ManifestKind::Gradle => DependencySource::Gradle,
        ManifestKind::Pip => DependencySource::Pip,
        ManifestKind::Pyproject => DependencySource::Pip,
        ManifestKind::GoMod => DependencySource::GoMod,
    }
}

/// The names and versions that a manifest of a kind declares, in order, or
/// the message of the parser for a text that is no TOML or no JSON.
pub open spec fn declared_in(kind: ManifestKind, content: Seq<char>) -> Result<
    Seq<(Seq<char>, Seq<char>)>,
    Seq<char>,
> {
    match kind {
        ManifestKind::Cargo => match toml_parsed(content) {
            Ok(document) => Ok(
                declared_by_section(document, "dependencies"@, |v: Value| cargo_version(v)),
            ),
            Err(message) => Err(message),
        },
        ManifestKind::Npm => match json_parsed(content) {
            Ok(document) => Ok(
                declared_by_section(document, "dependencies"@, |v: Value| json_str(v))
                    + declared_by_section(document, "devDependencies"@, |v: Value| json_str(v)),
            ),
            Err(message) => Err(message),
        },
        ManifestKind::Maven => Ok(maven_dependencies(lines_of(content))),
        ManifestKind::Gradle => Ok(
            declared_by_lines(lines_of(content), |line: Seq<char>| gradle_line(line)),
        ),
        ManifestKind::Pip => Ok(
            declared_by_lines(lines_of(content), |line: Seq<char>| pip_line(line)),
        ),
        ManifestKind::Pyproject => match toml_parsed(content) {
            Ok(document) => Ok(
                declared_by_array(document, "project.dependencies"@) + declared_by_array(
                    document,
                    "tool.poetry.dependencies"@,
                ) + declared_by_array(document, "build-system.requires"@),
            ),
            Err(message) => Err(message),
        },
        ManifestKind::GoMod => Ok(
            declared_by_lines(lines_of(content), |line: Seq<char>| go_line(line)),
        ),
    }
}

/// Whether `r` is what the file of that name and content declares: nothing
/// where the name is that of no manifest, else the dependencies that a
/// manifest of its kind declares, each with the source of that kind, or
/// the error of the parser.
pub open spec fn is_declared(
    r: Result<Option<Vec<Dependency>>, AgentError>,
    file_name: Seq<char>,
    content: Seq<char>,
) -> bool {
    match manifest_kind(lowercase(file_name)) {
        None => r matches Ok(None),
        Some(kind) => match declared_in(kind, content) {
            Ok(pairs) => r matches Ok(Some(deps)) && dependency_pairs(deps@) == pairs && (forall|
                i: int,
            |
                0 <= i < deps@.len() ==> (#[trigger] deps@[i]).source == source_of(kind)),
            Err(message) => r matches Err(AgentError::Configuration(m)) && m@ == message,
        },
    }
}

/// The dependencies that a configuration file declares, by the kind that
/// its name gives it. A file of no such kind declares none: the result is
/// `Ok(None)`.
pub fn parse_dependencies(file_name: &str, content: &str) -> (r: Result<
    Option<Vec<Dependency>>,
    AgentError,
>)
    ensures
        is_declared(r, file_name@, content@),
{
    match manifest_kind_of(file_name) {
        None => Ok(None),
        Some(ManifestKind::Cargo) => match parse_cargo_dependencies(content) {
            Ok(deps) => Ok(Some(deps)),
            Err(e) => Err(e),
        },
        Some(ManifestKind::Npm) => match parse_npm_dependencies(content) {
            Ok(deps) => Ok(Some(deps)),
            Err(e) => Err(e),
        },
        Some(ManifestKind::Maven) => Ok(Some(parse_maven_dependencies(content))),
        Some(ManifestKind::Gradle) => Ok(Some(parse_gradle_dependencies(content))),
        Some(ManifestKind::Pip) => Ok(Some(parse_pip_dependencies(content))),
        Some(ManifestKind::Pyproject) => match parse_pyproject_dependencies(content) {
            Ok(deps) => Ok(Some(deps)),
            Err(e) => Err(e),
        },
        Some(ManifestKind::GoMod) => Ok(Some(parse_go_dependencies(content))),
    }
}

/// Whether a detector has taken note of a file: a file whose name is that
/// of no configuration file leaves it as it was; a configuration file is
/// added to the files found, and what it declares to the dependencies
/// found; a manifest that cannot be read leaves it as it was and gives the
/// error of the parser.
pub open spec fn has_scanned(
    before: ProjectDetector,
    after: ProjectDetector,
    r: Result<(), AgentError>,
    path: PathBuf,
    content: Seq<char>,
) -> bool {
    let name = match path_file_name(path) {
        Some(name) => name,
        None => Seq::empty(),
    };
    let unchanged = after.found_files() == before.found_files() && after.found_dependencies()
        == before.found_dependencies();
    &&& after.path() == before.path()
    &&& if !is_config_name(lowercase(name)) {
        r is Ok && unchanged
    } else {
        match manifest_kind(lowercase(name)) {
            None => r is Ok && after.found_files() == before.found_files().push(path)
                && after.found_dependencies() == before.found_dependencies(),
            Some(kind) => match declared_in(kind, content) {
                Ok(pairs) => {
                    &&& r is Ok
                    &&& after.found_files() == before.found_files().push(path)
                    &&& after.found_dependencies().len() == before.found_dependencies().len()
                        + pairs.len()
                    &&& after.found_dependencies().take(before.found_dependencies().len() as int)
                        == before.found_dependencies()
                    &&& dependency_pairs(
                        after.found_dependencies().skip(before.found_dependencies().len() as int),
                    ) == pairs
                    &&& forall|i: int|
                        before.found_dependencies().len() <= i < after.found_dependencies().len()
                            ==> (#[trigger] after.found_dependencies()[i]).source == source_of(
                            kind,
                        )
                },
                Err(message) => (r matches Err(AgentError::Configuration(m)) && m@ == message)
                    && unchanged,
            },
        }
    }
}

impl ProjectDetector {
    /// The configuration files found so far.
    pub fn config_files(&self) -> (files: &Vec<PathBuf>)
        ensures
            files@ == self.found_files(),
    {
        &self.config_files
    }

    /// The dependencies found so far.
    pub fn dependencies(&self) -> (dependencies: &Vec<Dependency>)
        ensures
            dependencies@ == self.found_dependencies(),
    {
        &self.dependencies
    }

    /// Takes note of a file of the project directory, given its path and
    /// its content. The content of a file that is no manifest is not
    /// looked at.
    pub fn scan_file(&mut self, path: PathBuf, content: &str) -> (r: Result<(), AgentError>)
        ensures
            has_scanned(*old(self), *final(self), r, path, content@),
    {
        let file_name = match file_name_of(&path) {
            Some(name) => name,
            None => String::new(),
        };
        if !Self::is_config_file(file_name.as_str()) {
            return Ok(());
        }
        let ghost before = self.dependencies@;
        match parse_dependencies(file_name.as_str(), content) {
            Err(e) => Err(e),
            Ok(None) => {
                self.config_files.push(path);
                Ok(())
            },
            Ok(Some(mut declared)) => {
                let ghost added = declared@;
                self.config_files.push(path);
                self.dependencies.append(&mut declared);
                proof {
                    assert(self.dependencies@ == before + added);
                    assert(self.dependencies@.take(before.len() as int) =~= before);
                    assert(self.dependencies@.skip(before.len() as int) =~= added);
                }
                Ok(())
            },
        }
    }

    /// Describes the project from what was found in its directory, with
    /// the configuration files and the dependencies that the detector has
    /// taken note of.
    pub fn into_project_info(self, files: &ProjectFiles) -> (r: Result<ProjectInfo, AgentError>)
        ensures
            match r {
                Ok(info) => detection_error(files) is None && describes_project(info, files)
                    && info.root_path == self.path() && info.config_files@ == self.found_files()
                    && info.dependencies@ == self.found_dependencies(),
                Err(e) => detection_error(files) is Some && is_configuration_error(
                    e,
                    detection_error(files)->0,
                ),
            },
    {
        detect_project(self.project_path, files, self.config_files, self.dependencies)
    }
}

} // verus!
