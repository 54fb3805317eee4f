//! What the files of a project directory say about the project: its kind,
//! its language, its framework, its build system and its package manager.
//!
//! The caller looks at the directory and hands over what it found, as
//! `ProjectFiles`. The decisions are made here.

use vstd::prelude::*;
use std::path::PathBuf;
use serde_json::Value;
use crate::json::json_member;
use crate::json::json_parsed;
use crate::json::member;
use crate::json::parse_json;
use crate::json::parse_toml;
use crate::json::toml_parsed;
use crate::model::AgentError;
use crate::model::Dependency;
use crate::model::ProjectInfo;
use crate::model::ProjectType;
use crate::project_detector::text_in;
use crate::text::begins_with;
use crate::text::chars_of;
use crate::text::contains_text;
use crate::text::find_text;
use crate::text::lines_of;
use crate::text::lowercase;
use crate::text::same_text;
use crate::text::split_lines;
use crate::text::starts_with_text;
use crate::text::trim_range;
use crate::text::trimmed;

verus! {

/// What was found in a project directory: the text of each configuration
/// file that is there, whether certain other files are there, and the
/// extensions of the source files near the top of the directory.
#[derive(Debug, Clone)]
pub struct ProjectFiles {
    pub cargo_toml: Option<String>,
    pub package_json: Option<String>,
    pub requirements_txt: Option<String>,
    pub pyproject_toml: Option<String>,
    pub pom_xml: Option<String>,
    pub build_gradle: Option<String>,
    pub go_mod: bool,
    pub main_tf: bool,
    pub terraform_tf: bool,
    pub dockerfile: bool,
    pub docker_compose: bool,
    pub yarn_lock: bool,
    pub pnpm_lock: bool,
    pub extensions: Vec<String>,
}

/// Whether the object under `section` of a document has a member `name`.
pub open spec fn in_section(document: Value, section: Seq<char>, name: Seq<char>) -> bool {
    match json_member(document, section) {
        Some(table) => json_member(table, name) is Some,
        None => false,
    }
}

/// Whether a package manifest names a dependency, for use or for
/// development.
pub open spec fn has_dependency(document: Value, name: Seq<char>) -> bool {
    in_section(document, "dependencies"@, name) || in_section(document, "devDependencies"@, name)
}

/// Whether the object under `section` of a document has a member `name`.
fn section_has(document: &Value, section: &str, name: &str) -> (b: bool)
    ensures
        b == in_section(*document, section@, name@),
{
    match member(document, section) {
        Some(table) => member(table, name).is_some(),
        None => false,
    }
}

/// Whether a package manifest names a dependency.
fn depends_on(document: &Value, name: &str) -> (b: bool)
    ensures
        b == has_dependency(*document, name@),
{
    section_has(document, "dependencies", name) || section_has(document, "devDependencies", name)
}

/// The kind of a project with a package manifest: React, Vue or Angular
/// where the manifest names one of them, tried in this order, else
/// Node.js.
pub open spec fn frontend_type(document: Value) -> ProjectType {
    if has_dependency(document, "react"@) {
        ProjectType::React
    } else if has_dependency(document, "vue"@) {
        ProjectType::Vue
    } else if has_dependency(document, "@angular/core"@) {
        ProjectType::Angular
    } else {
        ProjectType::Nodejs
    }
}

/// Whether an error is the configuration error with that message.
pub open spec fn is_configuration_error(error: AgentError, message: Seq<char>) -> bool {
    error matches AgentError::Configuration(m) && m@ == message
}

/// The kind of the project, or the message of the error that prevents
/// telling it. The files decide in this order: a Cargo manifest, a package
/// manifest, Python requirements or project file, a Maven or Gradle file,
/// a Go module, Terraform files, Docker files.
pub open spec fn project_type_of(files: &ProjectFiles) -> Result<ProjectType, Seq<char>> {
    if files.cargo_toml is Some {
        Ok(ProjectType::Rust)
    } else if files.package_json is Some {
        match json_parsed(files.package_json->0@) {
            Ok(document) => Ok(frontend_type(document)),
            Err(message) => Err(message),
        }
    } else if files.requirements_txt is Some || files.pyproject_toml is Some {
        Ok(ProjectType::Python)
    } else if files.pom_xml is Some || files.build_gradle is Some {
        Ok(ProjectType::Java)
    } else if files.go_mod {
        Ok(ProjectType::Go)
    } else if files.main_tf || files.terraform_tf {
        Ok(ProjectType::Terraform)
    } else if files.dockerfile || files.docker_compose {
        Ok(ProjectType::Docker)
    } else {
        Ok(ProjectType::Generic)
    }
}

/// The kind of a project with this package manifest.
pub fn detect_frontend_framework(package_json: &str) -> (r: Result<ProjectType, AgentError>)
    ensures
        match r {
            Ok(t) => json_parsed(package_json@) is Ok && t == frontend_type(
                json_parsed(package_json@)->Ok_0,
            ),
            Err(e) => json_parsed(package_json@) is Err && is_configuration_error(
                e,
                json_parsed(package_json@)->Err_0,
            ),
        },
{
    let document = match parse_json(package_json) {
        Ok(document) => document,
        Err(message) => {
            return Err(AgentError::Configuration(message));
        },
    };
    if depends_on(&document, "react") {
        Ok(ProjectType::React)
    } else if depends_on(&document, "vue") {
        Ok(ProjectType::Vue)
    } else if depends_on(&document, "@angular/core") {
        Ok(ProjectType::Angular)
    } else {
        Ok(ProjectType::Nodejs)
    }
}

/// The kind of the project.
pub fn detect_project_type(files: &ProjectFiles) -> (r: Result<ProjectType, AgentError>)
    ensures
        match r {
            Ok(t) => project_type_of(files) == Ok::<ProjectType, Seq<char>>(t),
            Err(e) => project_type_of(files) is Err && is_configuration_error(
                e,
                project_type_of(files)->Err_0,
            ),
        },
{
    if files.cargo_toml.is_some() {
        return Ok(ProjectType::Rust);
    }
    if let Some(text) = &files.package_json {
        return detect_frontend_framework(text.as_str());
    }
    if files.requirements_txt.is_some() || files.pyproject_toml.is_some() {
        return Ok(ProjectType::Python);
    }
    if files.pom_xml.is_some() || files.build_gradle.is_some() {
        return Ok(ProjectType::Java);
    }
    if files.go_mod {
        return Ok(ProjectType::Go);
    }
    if files.main_tf || files.terraform_tf {
        return Ok(ProjectType::Terraform);
    }
    if files.dockerfile || files.docker_compose {
        return Ok(ProjectType::Docker);
    }
    Ok(ProjectType::Generic)
}

/// The number of languages that the census of source files tells apart.
pub const LANGUAGES: usize = 15;

/// The name of the language with that number.
pub open spec fn language_name(index: int) -> Seq<char> {
    if index == 0 {
        "rust"@
    } else if index == 1 {
        "javascript"@
    } else if index == 2 {
        "typescript"@
    } else if index == 3 {
        "python"@
    } else if index == 4 {
        "java"@
    } else if index == 5 {
        "go"@
    } else if index == 6 {
        "ruby"@
    } else if index == 7 {
        "php"@
    } else if index == 8 {
        "csharp"@
    } else if index == 9 {
        "cpp"@
    } else if index == 10 {
        "c"@
    } else if index == 11 {
        "shell"@
    } else if index == 12 {
        "sql"@
    } else if index == 13 {
        "html"@
    } else {
        "css"@
    }
}

/// The number of the language that files with that extension are written
/// in; `LANGUAGES` for an extension that names none.
pub open spec fn language_of_extension(extension: Seq<char>) -> int {
    if extension == "rs"@ {
        0
    } else if extension == "js"@ || extension == "jsx"@ {
        1
    } else if extension == "ts"@ || extension == "tsx"@ {
        2
    } else if extension == "py"@ {
        3
    } else if extension == "java"@ {
        4
    } else if extension == "go"@ {
        5
    } else if extension == "rb"@ {
        6
    } else if extension == "php"@ {
        7
    } else if extension == "cs"@ {
        8
    } else if extension == "cpp"@ || extension == "cxx"@ || extension == "cc"@ {
        9
    } else if extension == "c"@ {
        10
    } else if extension == "sh"@ {
        11
    } else if extension == "sql"@ {
        12
    } else if extension == "html"@ {
        13
    } else if extension == "css"@ || extension == "scss"@ || extension == "sass"@ {
        14
    } else {
        LANGUAGES as int
    }
}

/// The number of files among the first `count` that are written in the
/// language with that number.
pub open spec fn language_count(extensions: Seq<String>, count: nat, language: int) -> nat
    decreases count,
{
    if count == 0 {
        0
    } else {
        language_count(extensions, (count - 1) as nat, language) + if language_of_extension(
            extensions[count - 1]@,
        ) == language {
            1nat
        } else {
            0nat
        }
    }
}

/// The language with the most files among the languages below `upto`: of
/// two with equally many, the one with the lower number.
pub open spec fn leading_language(extensions: Seq<String>, upto: nat) -> int
    decreases upto,
{
    if upto <= 1 {
        0
    } else {
        let before = leading_language(extensions, (upto - 1) as nat);
        if language_count(extensions, extensions.len(), upto - 1) > language_count(
            extensions,
            extensions.len(),
            before,
        ) {
            upto - 1
        } else {
            before
        }
    }
}

/// The language of a project by the census of its source files: the one
/// with the most files, or `unknown` where no file is written in a
/// language that the census knows.
pub open spec fn census_language(extensions: Seq<String>) -> Seq<char> {
    let best = leading_language(extensions, LANGUAGES as nat);
    if language_count(extensions, extensions.len(), best) > 0 {
        language_name(best)
    } else {
        "unknown"@
    }
}

/// The number of the language of an extension.
fn language_index(extension: &str) -> (index: usize)
    ensures
        index == language_of_extension(extension@),
        index <= LANGUAGES,
{
    if same_text(extension, "rs") {
        0
    } else if same_text(extension, "js") || same_text(extension, "jsx") {
        1
    } else if same_text(extension, "ts") || same_text(extension, "tsx") {
        2
    } else if same_text(extension, "py") {
        3
    } else if same_text(extension, "java") {
        4
    } else if same_text(extension, "go") {
        5
    } else if same_text(extension, "rb") {
        6
    } else if same_text(extension, "php") {
        7
    } else if same_text(extension, "cs") {
        8
    } else if same_text(extension, "cpp") || same_text(extension, "cxx") || same_text(
        extension,
        "cc",
    ) {
        9
    } else if same_text(extension, "c") {
        10
    } else if same_text(extension, "sh") {
        11
    } else if same_text(extension, "sql") {
        12
    } else if same_text(extension, "html") {
        13
    } else if same_text(extension, "css") || same_text(extension, "scss") || same_text(
        extension,
        "sass",
    ) {
        14
    } else {
        LANGUAGES
    }
}

/// The name of the language with that number.
fn language_text(index: usize) -> (name: &'static str)
    ensures
        name@ == language_name(index as int),
{
    if index == 0 {
        "rust"
    } else if index == 1 {
        "javascript"
    } else if index == 2 {
        "typescript"
    } else if index == 3 {
        "python"
    } else if index == 4 {
        "java"
    } else if index == 5 {
        "go"
    } else if index == 6 {
        "ruby"
    } else if index == 7 {
        "php"
    } else if index == 8 {
        "csharp"
    } else if index == 9 {
        "cpp"
    } else if index == 10 {
        "c"
    } else if index == 11 {
        "shell"
    } else if index == 12 {
        "sql"
    } else if index == 13 {
        "html"
    } else {
        "css"
    }
}

/// No language has more files than there are files.
proof fn lemma_count_bounded(extensions: Seq<String>, count: nat, language: int)
    ensures
        language_count(extensions, count, language) <= count,
    decreases count,
{
    if count > 0 {
        lemma_count_bounded(extensions, (count - 1) as nat, language);
    }
}

/// The language of a project, told from the extensions of its source
/// files.
pub fn detect_language_from_files(extensions: &Vec<String>) -> (language: String)
    ensures
        language@ == census_language(extensions@),
{
    let n = extensions.len();
    let mut counts: Vec<usize> = Vec::new();
    let mut k: usize = 0;
    while k < LANGUAGES
        invariant
            k <= LANGUAGES,
            counts@.len() == k,
            forall|j: int| 0 <= j < k ==> counts@[j] == 0,
        decreases LANGUAGES - k,
    {
        counts.push(0);
        k = k + 1;
    }
    let mut i: usize = 0;
    while i < n
        invariant
            n == extensions@.len(),
            i <= n,
            counts@.len() == LANGUAGES,
            forall|j: int|
                0 <= j < LANGUAGES ==> #[trigger] counts@[j] == language_count(extensions@, i as nat, j),
        decreases n - i,
    {
        let index = language_index(extensions[i].as_str());
        if index < LANGUAGES {
            proof {
                lemma_count_bounded(extensions@, i as nat, index as int);
            }
            let updated = counts[index] + 1;
            counts.set(index, updated);
        }
        i = i + 1;
    }
    let mut best: usize = 0;
    let mut language: usize = 1;
    while language < LANGUAGES
        invariant
            1 <= language <= LANGUAGES,
            best < language,
            n == extensions@.len(),
            counts@.len() == LANGUAGES,
            forall|j: int|
                0 <= j < LANGUAGES ==> #[trigger] counts@[j] == language_count(extensions@, n as nat, j),
            best == leading_language(extensions@, language as nat),
        decreases LANGUAGES - language,
    {
        if counts[language] > counts[best] {
            best = language;
        }
        language = language + 1;
    }
    if counts[best] > 0 {
        language_text(best).to_owned()
    } else {
        "unknown".to_owned()
    }
}

/// The language of the project: that of its kind, and for a project of no
/// known kind the language that the census of its source files gives.
pub open spec fn language_of(files: &ProjectFiles, project_type: ProjectType) -> Seq<char> {
    match project_type {
        ProjectType::Rust => "rust"@,
        ProjectType::Nodejs | ProjectType::React | ProjectType::Vue | ProjectType::Angular => "javascript"@,
        ProjectType::Python => "python"@,
        ProjectType::Java => "java"@,
        ProjectType::Go => "go"@,
        ProjectType::Terraform => "hcl"@,
        ProjectType::Docker => "dockerfile"@,
        ProjectType::Generic => census_language(files.extensions@),
    }
}

/// The language of a project of that kind.
pub fn detect_language(files: &ProjectFiles, project_type: ProjectType) -> (language: String)
    ensures
        language@ == language_of(files, project_type),
{
    match project_type {
        ProjectType::Rust => "rust".to_owned(),
        ProjectType::Nodejs | ProjectType::React | ProjectType::Vue | ProjectType::Angular => "javascript".to_owned(),
        ProjectType::Python => "python".to_owned(),
        ProjectType::Java => "java".to_owned(),
        ProjectType::Go => "go".to_owned(),
        ProjectType::Terraform => "hcl".to_owned(),
        ProjectType::Docker => "dockerfile".to_owned(),
        ProjectType::Generic => detect_language_from_files(&files.extensions),
    }
}

/// The build system of a project of that kind.
pub open spec fn build_system_of(files: &ProjectFiles, project_type: ProjectType) -> Option<
    Seq<char>,
> {
    match project_type {
        ProjectType::Rust => Some("cargo"@),
        ProjectType::Nodejs | ProjectType::React | ProjectType::Vue | ProjectType::Angular => Some(
            "npm"@,
        ),
        ProjectType::Python => if files.pyproject_toml is Some {
            Some("pyproject"@)
        } else {
            Some("pip"@)
        },
        ProjectType::Java => if files.pom_xml is Some {
            Some("maven"@)
        } else if files.build_gradle is Some {
            Some("gradle"@)
        } else {
            None
        },
        ProjectType::Go => Some("go"@),
        ProjectType::Terraform => Some("terraform"@),
        ProjectType::Docker => Some("docker"@),
        ProjectType::Generic => None,
    }
}

/// The build system of a project of that kind.
pub fn detect_build_system(files: &ProjectFiles, project_type: ProjectType) -> (r: Option<String>)
    ensures
        text_in(r) == build_system_of(files, project_type),
{
    match project_type {
        ProjectType::Rust => Some("cargo".to_owned()),
        ProjectType::Nodejs | ProjectType::React | ProjectType::Vue | ProjectType::Angular => Some(
            "npm".to_owned(),
        ),
        ProjectType::Python => if files.pyproject_toml.is_some() {
            Some("pyproject".to_owned())
        } else {
            Some("pip".to_owned())
        },
        ProjectType::Java => if files.pom_xml.is_some() {
            Some("maven".to_owned())
        } else if files.build_gradle.is_some() {
            Some("gradle".to_owned())
        } else {
            None
        },
        ProjectType::Go => Some("go".to_owned()),
        ProjectType::Terraform => Some("terraform".to_owned()),
        ProjectType::Docker => Some("docker".to_owned()),
        ProjectType::Generic => None,
    }
}

/// The packaging tool that a Python project file names at the top of the
/// document, under the keys `tool.poetry` and `tool.flit`; else `pip`.
pub open spec fn python_packager(document: Value) -> Seq<char> {
    if json_member(document, "tool.poetry"@) is Some {
        "poetry"@
    } else if json_member(document, "tool.flit"@) is Some {
        "flit"@
    } else {
        "pip"@
    }
}

/// The package manager of a project of that kind, or the message of the
/// error that prevents telling it.
pub open spec fn package_manager_of(files: &ProjectFiles, project_type: ProjectType) -> Result<
    Option<Seq<char>>,
    Seq<char>,
> {
    match project_type {
        ProjectType::Rust => Ok(Some("cargo"@)),
        ProjectType::Nodejs | ProjectType::React | ProjectType::Vue | ProjectType::Angular => if files.yarn_lock {
            Ok(Some("yarn"@))
        } else if files.pnpm_lock {
            Ok(Some("pnpm"@))
        } else {
            Ok(Some("npm"@))
        },
        ProjectType::Python => if files.pyproject_toml is Some {
            match toml_parsed(files.pyproject_toml->0@) {
                Ok(document) => Ok(Some(python_packager(document))),
                Err(message) => Err(message),
            }
        } else {
            Ok(Some("pip"@))
        },
        ProjectType::Java => if files.pom_xml is Some {
            Ok(Some("maven"@))
        } else if files.build_gradle is Some {
            Ok(Some("gradle"@))
        } else {
            Ok(None)
        },
        ProjectType::Go => Ok(Some("go"@)),
        _ => Ok(None),
    }
}

/// The package manager of a project of that kind.
pub fn detect_package_manager(files: &ProjectFiles, project_type: ProjectType) -> (r: Result<
    Option<String>,
    AgentError,
>)
    ensures
        match r {
            Ok(manager) => package_manager_of(files, project_type) == Ok::<
                Option<Seq<char>>,
                Seq<char>,
            >(text_in(manager)),
            Err(e) => package_manager_of(files, project_type) is Err && is_configuration_error(
                e,
                package_manager_of(files, project_type)->Err_0,
            ),
        },
{
    match project_type {
        ProjectType::Rust => Ok(Some("cargo".to_owned())),
        ProjectType::Nodejs | ProjectType::React | ProjectType::Vue | ProjectType::Angular => if files.yarn_lock {
            Ok(Some("yarn".to_owned()))
        } else if files.pnpm_lock {
            Ok(Some("pnpm".to_owned()))
        } else {
            Ok(Some("npm".to_owned()))
        },
        ProjectType::Python => match &files.pyproject_toml {
            Some(text) => {
                let document = match parse_toml(text.as_str()) {
                    Ok(document) => document,
                    Err(message) => {
                        return Err(AgentError::Configuration(message));
                    },
                };
                if member(&document, "tool.poetry").is_some() {
                    Ok(Some("poetry".to_owned()))
                } else if member(&document, "tool.flit").is_some() {
                    Ok(Some("flit".to_owned()))
                } else {
                    Ok(Some("pip".to_owned()))
                }
            },
            None => Ok(Some("pip".to_owned())),
        },
        ProjectType::Java => if files.pom_xml.is_some() {
            Ok(Some("maven".to_owned()))
        } else if files.build_gradle.is_some() {
            Ok(Some("gradle".to_owned()))
        } else {
            Ok(None)
        },
        ProjectType::Go => Ok(Some("go".to_owned())),
        _ => Ok(None),
    }
}

/// The framework that a package manifest names: the first of express,
/// next, nuxt, gatsby, react, vue, angular, nestjs, fastify, koa and hapi
/// that is among its dependencies.
pub open spec fn nodejs_framework(document: Value) -> Option<Seq<char>> {
    if has_dependency(document, "express"@) {
        Some("express"@)
    } else if has_dependency(document, "next"@) {
        Some("next"@)
    } else if has_dependency(document, "nuxt"@) {
        Some("nuxt"@)
    } else if has_dependency(document, "gatsby"@) {
        Some("gatsby"@)
    } else if has_dependency(document, "react"@) {
        Some("react"@)
    } else if has_dependency(document, "vue"@) {
        Some("vue"@)
    } else if has_dependency(document, "@angular/core"@) {
        Some("angular"@)
    } else if has_dependency(document, "nestjs"@) {
        Some("nestjs"@)
    } else if has_dependency(document, "fastify"@) {
        Some("fastify"@)
    } else if has_dependency(document, "koa"@) {
        Some("koa"@)
    } else if has_dependency(document, "hapi"@) {
        Some("hapi"@)
    } else {
        None
    }
}

/// The framework that a line of Python requirements names, the line being
/// in lowercase and without white space at its ends: the first of django,
/// flask, fastapi, sqlalchemy, pyramid, tornado, bottle, cherrypy, aiohttp
/// and sanic that the line begins with.
pub open spec fn python_line_framework(line: Seq<char>) -> Option<Seq<char>> {
    if begins_with(line, "django"@) {
        Some("django"@)
    } else if begins_with(line, "flask"@) {
        Some("flask"@)
    } else if begins_with(line, "fastapi"@) {
        Some("fastapi"@)
    } else if begins_with(line, "sqlalchemy"@) {
        Some("sqlalchemy"@)
    } else if begins_with(line, "pyramid"@) {
        Some("pyramid"@)
    } else if begins_with(line, "tornado"@) {
        Some("tornado"@)
    } else if begins_with(line, "bottle"@) {
        Some("bottle"@)
    } else if begins_with(line, "cherrypy"@) {
        Some("cherrypy"@)
    } else if begins_with(line, "aiohttp"@) {
        Some("aiohttp"@)
    } else if begins_with(line, "sanic"@) {
        Some("sanic"@)
    } else {
        None
    }
}

/// The framework that the first line names which names one.
pub open spec fn python_lines_framework(lines: Seq<Seq<char>>) -> Option<Seq<char>>
    decreases lines.len(),
{
    if lines.len() == 0 {
        None
    } else {
        match python_line_framework(lowercase(trimmed(lines[0]))) {
            Some(framework) => Some(framework),
            None => python_lines_framework(lines.drop_first()),
        }
    }
}

/// The tool that a Python project file names at the top of the document,
/// under the keys `tool.poetry`, `tool.flit` and `tool.setuptools`.
pub open spec fn python_tool(document: Value) -> Option<Seq<char>> {
    if json_member(document, "tool.poetry"@) is Some {
        Some("poetry"@)
    } else if json_member(document, "tool.flit"@) is Some {
        Some("flit"@)
    } else if json_member(document, "tool.setuptools"@) is Some {
        Some("setuptools"@)
    } else {
        None
    }
}

/// The framework that a Maven file names anywhere in its text, taken in
/// lowercase: the first of the known artifacts that occurs in it.
pub open spec fn pom_framework(lower: Seq<char>) -> Option<Seq<char>> {
    if contains_text(lower, "spring-boot-starter"@) {
        Some("spring-boot"@)
    } else if contains_text(lower, "spring-core"@) {
        Some("spring"@)
    } else if contains_text(lower, "jakarta.servlet-api"@) {
        Some("jakarta-ee"@)
    } else if contains_text(lower, "javax.servlet-api"@) {
        Some("java-ee"@)
    } else if contains_text(lower, "micronaut-core"@) {
        Some("micronaut"@)
    } else if contains_text(lower, "quarkus-core"@) {
        Some("quarkus"@)
    } else if contains_text(lower, "vertx-core"@) {
        Some("vertx"@)
    } else if contains_text(lower, "dropwizard-core"@) {
        Some("dropwizard"@)
    } else if contains_text(lower, "spark-core"@) {
        Some("spark"@)
    } else if contains_text(lower, "javalin"@) {
        Some("javalin"@)
    } else {
        None
    }
}

/// The framework that a Gradle file names anywhere in its text: the first
/// of the known groups that occurs in it.
pub open spec fn gradle_framework(content: Seq<char>) -> Option<Seq<char>> {
    if contains_text(content, "org.springframework.boot"@) {
        Some("spring-boot"@)
    } else if contains_text(content, "org.springframework"@) {
        Some("spring"@)
    } else if contains_text(content, "io.micronaut"@) {
        Some("micronaut"@)
    } else if contains_text(content, "io.quarkus"@) {
        Some("quarkus"@)
    } else if contains_text(content, "io.vertx"@) {
        Some("vertx"@)
    } else if contains_text(content, "io.dropwizard"@) {
        Some("dropwizard"@)
    } else if contains_text(content, "com.sparkjava"@) {
        Some("spark"@)
    } else if contains_text(content, "io.javalin"@) {
        Some("javalin"@)
    } else {
        None
    }
}

/// The framework that a Cargo manifest names: the first of the known
/// crates that is among its dependencies.
pub open spec fn rust_framework(document: Value) -> Option<Seq<char>> {
    if in_section(document, "dependencies"@, "actix-web"@) {
        Some("actix-web"@)
    } else if in_section(document, "dependencies"@, "axum"@) {
        Some("axum"@)
    } else if in_section(document, "dependencies"@, "rocket"@) {
        Some("rocket"@)
    } else if in_section(document, "dependencies"@, "warp"@) {
        Some("warp"@)
    } else if in_section(document, "dependencies"@, "tokio"@) {
        Some("tokio"@)
    } else if in_section(document, "dependencies"@, "async-std"@) {
        Some("async-std"@)
    } else if in_section(document, "dependencies"@, "serenity"@) {
        Some("serenity"@)
    } else if in_section(document, "dependencies"@, "tera"@) {
        Some("tera"@)
    } else if in_section(document, "dependencies"@, "askama"@) {
        Some("askama"@)
    } else if in_section(document, "dependencies"@, "yew"@) {
        Some("yew"@)
    } else if in_section(document, "dependencies"@, "seed"@) {
        Some("seed"@)
    } else {
        None
    }
}

/// The framework of a Node.js project, or the message of the error that
/// prevents telling it.
pub open spec fn nodejs_framework_of(files: &ProjectFiles) -> Result<Option<Seq<char>>, Seq<char>> {
    match files.package_json {
        Some(text) => match json_parsed(text@) {
            Ok(document) => Ok(nodejs_framework(document)),
            Err(message) => Err(message),
        },
        None => Ok(None),
    }
}

/// The framework of a Python project: what the requirements name, else the
/// tool that the project file names.
pub open spec fn python_framework_of(files: &ProjectFiles) -> Result<Option<Seq<char>>, Seq<char>> {
    let by_requirements = match files.requirements_txt {
        Some(text) => python_lines_framework(lines_of(text@)),
        None => None,
    };
    if by_requirements is Some {
        Ok(by_requirements)
    } else {
        match files.pyproject_toml {
            Some(text) => match toml_parsed(text@) {
                Ok(document) => Ok(python_tool(document)),
                Err(message) => Err(message),
            },
            None => Ok(None),
        }
    }
}

/// The framework of a Java project: what the Maven file names, else what
/// the Gradle file names.
pub open spec fn java_framework_of(files: &ProjectFiles) -> Option<Seq<char>> {
    let by_pom = match files.pom_xml {
        Some(text) => pom_framework(lowercase(text@)),
        None => None,
    };
    if by_pom is Some {
        by_pom
    } else {
        match files.build_gradle {
            Some(text) => gradle_framework(text@),
            None => None,
        }
    }
}

/// The framework of a Rust project, or the message of the error that
/// prevents telling it.
pub open spec fn rust_framework_of(files: &ProjectFiles) -> Result<Option<Seq<char>>, Seq<char>> {
    match files.cargo_toml {
        Some(text) => match toml_parsed(text@) {
            Ok(document) => Ok(rust_framework(document)),
            Err(message) => Err(message),
        },
        None => Ok(None),
    }
}

/// The framework of a project of that kind, or the message of the error
/// that prevents telling it.
pub open spec fn framework_of(files: &ProjectFiles, project_type: ProjectType) -> Result<
    Option<Seq<char>>,
    Seq<char>,
> {
    match project_type {
        ProjectType::React => Ok(Some("react"@)),
        ProjectType::Vue => Ok(Some("vue"@)),
        ProjectType::Angular => Ok(Some("angular"@)),
        ProjectType::Nodejs => nodejs_framework_of(files),
        ProjectType::Python => python_framework_of(files),
        ProjectType::Java => Ok(java_framework_of(files)),
        ProjectType::Rust => rust_framework_of(files),
        _ => Ok(None),
    }
}

/// Whether `r` gives what `expected` says: the same text, or the
/// configuration error with the same message.
pub open spec fn gives(r: Result<Option<String>, AgentError>, expected: Result<
    Option<Seq<char>>,
    Seq<char>,
>) -> bool {
    match r {
        Ok(text) => expected == Ok::<Option<Seq<char>>, Seq<char>>(text_in(text)),
        Err(e) => expected is Err && is_configuration_error(e, expected->Err_0),
    }
}

/// The framework that a package manifest names.
pub fn detect_nodejs_framework(files: &ProjectFiles) -> (r: Result<Option<String>, AgentError>)
    ensures
        gives(r, nodejs_framework_of(files)),
{
    let text = match &files.package_json {
        Some(text) => text,
        None => {
            return Ok(None);
        },
    };
    let document = match parse_json(text.as_str()) {
        Ok(document) => document,
        Err(message) => {
            return Err(AgentError::Configuration(message));
        },
    };
    let framework = if depends_on(&document, "express") {
        Some("express".to_owned())
    } else if depends_on(&document, "next") {
        Some("next".to_owned())
    } else if depends_on(&document, "nuxt") {
        Some("nuxt".to_owned())
    } else if depends_on(&document, "gatsby") {
        Some("gatsby".to_owned())
    } else if depends_on(&document, "react") {
        Some("react".to_owned())
    } else if depends_on(&document, "vue") {
        Some("vue".to_owned())
    } else if depends_on(&document, "@angular/core") {
        Some("angular".to_owned())
    } else if depends_on(&document, "nestjs") {
        Some("nestjs".to_owned())
    } else if depends_on(&document, "fastify") {
        Some("fastify".to_owned())
    } else if depends_on(&document, "koa") {
        Some("koa".to_owned())
    } else if depends_on(&document, "hapi") {
        Some("hapi".to_owned())
    } else {
        None
    };
    Ok(framework)
}

/// The framework that a line of Python requirements names.
fn python_framework_in_line(line: &Vec<char>) -> (r: Option<String>)
    ensures
        text_in(r) == python_line_framework(line@),
{
    if starts_with_text(line, "django") {
        Some("django".to_owned())
    } else if starts_with_text(line, "flask") {
        Some("flask".to_owned())
    } else if starts_with_text(line, "fastapi") {
        Some("fastapi".to_owned())
    } else if starts_with_text(line, "sqlalchemy") {
        Some("sqlalchemy".to_owned())
    } else if starts_with_text(line, "pyramid") {
        Some("pyramid".to_owned())
    } else if starts_with_text(line, "tornado") {
        Some("tornado".to_owned())
    } else if starts_with_text(line, "bottle") {
        Some("bottle".to_owned())
    } else if starts_with_text(line, "cherrypy") {
        Some("cherrypy".to_owned())
    } else if starts_with_text(line, "aiohttp") {
        Some("aiohttp".to_owned())
    } else if starts_with_text(line, "sanic") {
        Some("sanic".to_owned())
    } else {
        None
    }
}

/// The framework of a Python project.
pub fn detect_python_framework(files: &ProjectFiles) -> (r: Result<Option<String>, AgentError>)
    ensures
        gives(r, python_framework_of(files)),
{
    if let Some(text) = &files.requirements_txt {
        let chars = chars_of(text.as_str());
        let lines = split_lines(&chars);
        let ghost all = lines_of(text@);
        let mut i: usize = 0;
        assert(all.skip(0) =~= all);
        while i < lines.len()
            invariant
                i <= lines@.len(),
                lines@.len() == all.len(),
                forall|j: int| 0 <= j < lines@.len() ==> (#[trigger] lines@[j])@ == all[j],
                python_lines_framework(all) == python_lines_framework(all.skip(i as int)),
                files.requirements_txt == Some(*text),
                all == lines_of(text@),
            decreases lines@.len() - i,
        {
            let n = lines[i].len();
            assert(lines@[i as int]@.subrange(0, n as int) =~= lines@[i as int]@);
            let (a, b) = trim_range(&lines[i], 0, n);
            let trimmed_line = crate::text::text_between(&lines[i], a, b);
            let lower = chars_of(trimmed_line.as_str().to_lowercase().as_str());
            proof {
                assert(all.skip(i as int)[0] == all[i as int]);
                assert(all.skip(i as int).drop_first() =~= all.skip(i + 1));
            }
            match python_framework_in_line(&lower) {
                Some(framework) => {
                    return Ok(Some(framework));
                },
                None => {},
            }
            i = i + 1;
        }
    }
    let text = match &files.pyproject_toml {
        Some(text) => text,
        None => {
            return Ok(None);
        },
    };
    let document = match parse_toml(text.as_str()) {
        Ok(document) => document,
        Err(message) => {
            return Err(AgentError::Configuration(message));
        },
    };
    let tool = if member(&document, "tool.poetry").is_some() {
        Some("poetry".to_owned())
    } else if member(&document, "tool.flit").is_some() {
        Some("flit".to_owned())
    } else if member(&document, "tool.setuptools").is_some() {
        Some("setuptools".to_owned())
    } else {
        None
    };
    Ok(tool)
}

/// The framework that a Maven file names, the text being in lowercase.
fn framework_in_pom(lower: &Vec<char>) -> (r: Option<String>)
    ensures
        text_in(r) == pom_framework(lower@),
{
    if find_text(lower, "spring-boot-starter").is_some() {
        Some("spring-boot".to_owned())
    } else if find_text(lower, "spring-core").is_some() {
        Some("spring".to_owned())
    } else if find_text(lower, "jakarta.servlet-api").is_some() {
        Some("jakarta-ee".to_owned())
    } else if find_text(lower, "javax.servlet-api").is_some() {
        Some("java-ee".to_owned())
    } else if find_text(lower, "micronaut-core").is_some() {
        Some("micronaut".to_owned())
    } else if find_text(lower, "quarkus-core").is_some() {
        Some("quarkus".to_owned())
    } else if find_text(lower, "vertx-core").is_some() {
        Some("vertx".to_owned())
    } else if find_text(lower, "dropwizard-core").is_some() {
        Some("dropwizard".to_owned())
    } else if find_text(lower, "spark-core").is_some() {
        Some("spark".to_owned())
    } else if find_text(lower, "javalin").is_some() {
        Some("javalin".to_owned())
    } else {
        None
    }
}

/// The framework that a Gradle file names.
fn framework_in_gradle(content: &Vec<char>) -> (r: Option<String>)
    ensures
        text_in(r) == gradle_framework(content@),
{
    if find_text(content, "org.springframework.boot").is_some() {
        Some("spring-boot".to_owned())
    } else if find_text(content, "org.springframework").is_some() {
        Some("spring".to_owned())
    } else if find_text(content, "io.micronaut").is_some() {
        Some("micronaut".to_owned())
    } else if find_text(content, "io.quarkus").is_some() {
        Some("quarkus".to_owned())
    } else if find_text(content, "io.vertx").is_some() {
        Some("vertx".to_owned())
    } else if find_text(content, "io.dropwizard").is_some() {
        Some("dropwizard".to_owned())
    } else if find_text(content, "com.sparkjava").is_some() {
        Some("spark".to_owned())
    } else if find_text(content, "io.javalin").is_some() {
        Some("javalin".to_owned())
    } else {
        None
    }
}

/// The framework of a Java project.
pub fn detect_java_framework(files: &ProjectFiles) -> (r: Option<String>)
    ensures
        text_in(r) == java_framework_of(files),
{
    if let Some(text) = &files.pom_xml {
        let lower = chars_of(text.as_str().to_lowercase().as_str());
        match framework_in_pom(&lower) {
            Some(framework) => {
                return Some(framework);
            },
            None => {},
        }
    }
    match &files.build_gradle {
        Some(text) => framework_in_gradle(&chars_of(text.as_str())),
        None => None,
    }
}

/// The framework of a Rust project.
pub fn detect_rust_framework(files: &ProjectFiles) -> (r: Result<Option<String>, AgentError>)
    ensures
        gives(r, rust_framework_of(files)),
{
    let text = match &files.cargo_toml {
        Some(text) => text,
        None => {
            return Ok(None);
        },
    };
    let document = match parse_toml(text.as_str()) {
        Ok(document) => document,
        Err(message) => {
            return Err(AgentError::Configuration(message));
        },
    };
    let framework = if section_has(&document, "dependencies", "actix-web") {
        Some("actix-web".to_owned())
    } else if section_has(&document, "dependencies", "axum") {
        Some("axum".to_owned())
    } else if section_has(&document, "dependencies", "rocket") {
        Some("rocket".to_owned())
    } else if section_has(&document, "dependencies", "warp") {
        Some("warp".to_owned())
    } else if section_has(&document, "dependencies", "tokio") {
        Some("tokio".to_owned())
    } else if section_has(&document, "dependencies", "async-std") {
        Some("async-std".to_owned())
    } else if section_has(&document, "dependencies", "serenity") {
        Some("serenity".to_owned())
    } else if section_has(&document, "dependencies", "tera") {
        Some("tera".to_owned())
    } else if section_has(&document, "dependencies", "askama") {
        Some("askama".to_owned())
    } else if section_has(&document, "dependencies", "yew") {
        Some("yew".to_owned())
    } else if section_has(&document, "dependencies", "seed") {
        Some("seed".to_owned())
    } else {
        None
    };
    Ok(framework)
}

/// The framework of a project of that kind.
pub fn detect_framework(files: &ProjectFiles, project_type: ProjectType) -> (r: Result<
    Option<String>,
    AgentError,
>)
    ensures
        gives(r, framework_of(files, project_type)),
{
    match project_type {
        ProjectType::React => Ok(Some("react".to_owned())),
        ProjectType::Vue => Ok(Some("vue".to_owned())),
        ProjectType::Angular => Ok(Some("angular".to_owned())),
        ProjectType::Nodejs => detect_nodejs_framework(files),
        ProjectType::Python => detect_python_framework(files),
        ProjectType::Java => Ok(detect_java_framework(files)),
        ProjectType::Rust => detect_rust_framework(files),
        _ => Ok(None),
    }
}

/// Whether `info` describes the project that `files` were found in: its
/// kind, and the language, framework, build system and package manager
/// that go with the kind.
pub open spec fn describes_project(info: ProjectInfo, files: &ProjectFiles) -> bool {
    &&& project_type_of(files) == Ok::<ProjectType, Seq<char>>(info.project_type)
    &&& info.language@ == language_of(files, info.project_type)
    &&& framework_of(files, info.project_type) == Ok::<Option<Seq<char>>, Seq<char>>(
        text_in(info.framework),
    )
    &&& text_in(info.build_system) == build_system_of(files, info.project_type)
    &&& package_manager_of(files, info.project_type) == Ok::<Option<Seq<char>>, Seq<char>>(
        text_in(info.package_manager),
    )
}

/// The message of the first error that prevents describing the project:
/// that of its kind, else that of its framework, else that of its package
/// manager.
pub open spec fn detection_error(files: &ProjectFiles) -> Option<Seq<char>> {
    match project_type_of(files) {
        Err(message) => Some(message),
        Ok(project_type) => match framework_of(files, project_type) {
            Err(message) => Some(message),
            Ok(_) => match package_manager_of(files, project_type) {
                Err(message) => Some(message),
                Ok(_) => None,
            },
        },
    }
}

/// Describes the project in the directory `root_path` from what was found
/// there. The configuration files and the dependencies are handed on as
/// they are given.
pub fn detect_project(
    root_path: PathBuf,
    files: &ProjectFiles,
    config_files: Vec<PathBuf>,
    dependencies: Vec<Dependency>,
) -> (r: Result<ProjectInfo, AgentError>)
    ensures
        match r {
            Ok(info) => detection_error(files) is None && describes_project(info, files)
                && info.root_path == root_path && info.config_files == config_files
                && info.dependencies == dependencies,
            Err(e) => detection_error(files) is Some && is_configuration_error(
                e,
                detection_error(files)->0,
            ),
        },
{
    let project_type = match detect_project_type(files) {
        Ok(project_type) => project_type,
        Err(e) => {
            return Err(e);
        },
    };
    let language = detect_language(files, project_type);
    let framework = match detect_framework(files, project_type) {
        Ok(framework) => framework,
        Err(e) => {
            return Err(e);
        },
    };
    let build_system = detect_build_system(files, project_type);
    let package_manager = match detect_package_manager(files, project_type) {
        Ok(package_manager) => package_manager,
        Err(e) => {
            return Err(e);
        },
    };
    Ok(
        ProjectInfo {
            project_type,
            language,
            framework,
            build_system,
            package_manager,
            root_path,
            config_files,
            dependencies,
        },
    )
}

} // verus!
