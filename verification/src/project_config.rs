//! The configuration that is proposed for a project, in three sizes.

use vstd::prelude::*;
use vstd::string::StringExecFns;
use serde_json::Value;
use crate::json::bool_value;
use crate::json::entries_view;
use crate::json::json_of_bool;
use crate::json::json_of_entries;
use crate::json::json_of_optional_text;
use crate::json::json_of_text;
use crate::json::object_value;
use crate::json::optional_text_value;
use crate::json::text_value;
use crate::model::AgentError;
use crate::model::ProjectInfo;
use crate::outside::file_name_of;
use crate::outside::path_file_name;
use crate::project_detector::text_in;
use crate::text::same_text;

verus! {

/// The size of a proposed configuration.
#[derive(Debug, Clone, Copy, PartialEq, Eq, Structural)]
pub enum ConfigSize {
    Minimal,
    Standard,
    Comprehensive,
}

/// The size that a name stands for.
pub open spec fn config_size(name: Seq<char>) -> Option<ConfigSize> {
    if name == "minimal"@ {
        Some(ConfigSize::Minimal)
    } else if name == "standard"@ {
        Some(ConfigSize::Standard)
    } else if name == "comprehensive"@ {
        Some(ConfigSize::Comprehensive)
    } else {
        None
    }
}

/// The name of a project: the last component of its root path, or
/// `unknown` where the path has none.
pub open spec fn project_name(info: ProjectInfo) -> Seq<char> {
    match path_file_name(info.root_path) {
        Some(name) => name,
        None => "unknown"@,
    }
}

/// The `project` section: name, type and language, and from the standard
/// size on the framework and the build system, and in the comprehensive
/// size the package manager.
pub open spec fn project_section(info: ProjectInfo, size: ConfigSize) -> Seq<(Seq<char>, Value)> {
    let base = seq![
        ("name"@, json_of_text(project_name(info))),
        ("type"@, json_of_text(info.project_type.name_text())),
        ("language"@, json_of_text(info.language@)),
    ];
    let more = seq![
        ("framework"@, json_of_optional_text(text_in(info.framework))),
        ("build_system"@, json_of_optional_text(text_in(info.build_system))),
    ];
    match size {
        ConfigSize::Minimal => base,
        ConfigSize::Standard => base + more,
        ConfigSize::Comprehensive => base + more + seq![
            ("package_manager"@, json_of_optional_text(text_in(info.package_manager))),
        ],
    }
}

/// The basic analyses of a size.
pub open spec fn basics_section(size: ConfigSize) -> Seq<(Seq<char>, Value)> {
    let base = seq![
        ("code_quality"@, json_of_bool(true)),
        ("security_scan"@, json_of_bool(true)),
    ];
    let more = seq![
        ("dependency_check"@, json_of_bool(true)),
        ("test_coverage"@, json_of_bool(true)),
    ];
    match size {
        ConfigSize::Minimal => base,
        ConfigSize::Standard => base + more,
        ConfigSize::Comprehensive => base + more + seq![
            ("documentation_check"@, json_of_bool(true)),
        ],
    }
}

/// The advanced analyses of a size; the minimal size has none.
pub open spec fn advanced_section(size: ConfigSize) -> Seq<(Seq<char>, Value)> {
    let base = seq![
        ("performance_analysis"@, json_of_bool(true)),
        ("architecture_review"@, json_of_bool(true)),
    ];
    match size {
        ConfigSize::Minimal => Seq::empty(),
        ConfigSize::Standard => base,
        ConfigSize::Comprehensive => base + seq![
            ("best_practices"@, json_of_bool(true)),
            ("accessibility_check"@, json_of_bool(false)),
        ],
    }
}

/// The `analysis` section of a size.
pub open spec fn analysis_section(size: ConfigSize) -> Seq<(Seq<char>, Value)> {
    match size {
        ConfigSize::Minimal => seq![("basics"@, json_of_entries(basics_section(size)))],
        _ => seq![
            ("basics"@, json_of_entries(basics_section(size))),
            ("advanced"@, json_of_entries(advanced_section(size))),
        ],
    }
}

/// The configuration that is proposed for a project in a size.
pub open spec fn project_config(info: ProjectInfo, size: ConfigSize) -> Value {
    json_of_entries(
        seq![
            ("version"@, json_of_text("1.0"@)),
            ("project"@, json_of_entries(project_section(info, size))),
            ("analysis"@, json_of_entries(analysis_section(size))),
        ],
    )
}

/// One member of an object: a text under a key.
fn text_member(key: &str, text: &str) -> (m: (String, Value))
    ensures
        m.0@ == key@,
        m.1 == json_of_text(text@),
{
    (key.to_owned(), text_value(text.to_owned()))
}

/// One member of an object: a text, or `null`, under a key.
fn optional_member(key: &str, text: &Option<String>) -> (m: (String, Value))
    ensures
        m.0@ == key@,
        m.1 == json_of_optional_text(text_in(*text)),
{
    let copy = match text {
        Some(t) => Some(t.clone()),
        None => None,
    };
    (key.to_owned(), optional_text_value(copy))
}

/// One member of an object: a truth value under a key.
fn flag_member(key: &str, flag: bool) -> (m: (String, Value))
    ensures
        m.0@ == key@,
        m.1 == json_of_bool(flag),
{
    (key.to_owned(), bool_value(flag))
}

/// One member of an object: an object under a key.
fn object_member(key: &str, members: Vec<(String, Value)>) -> (m: (String, Value))
    ensures
        m.0@ == key@,
        m.1 == json_of_entries(entries_view(members@)),
{
    (key.to_owned(), object_value(members))
}

/// The configuration that is proposed for a project, in the size that
/// `config_type` names: `minimal`, `standard` or `comprehensive`. Any
/// other name is refused.
pub fn generate_project_config(project_info: &ProjectInfo, config_type: &str) -> (r: Result<
    Value,
    AgentError,
>)
    ensures
        match r {
            Ok(config) => config_size(config_type@) is Some && config == project_config(
                *project_info,
                config_size(config_type@)->0,
            ),
            Err(e) => config_size(config_type@) is None && (e matches AgentError::Configuration(m)
                && m@ == "Unknown config type: "@ + config_type@),
        },
{
    let size = if same_text(config_type, "minimal") {
        ConfigSize::Minimal
    } else if same_text(config_type, "standard") {
        ConfigSize::Standard
    } else if same_text(config_type, "comprehensive") {
        ConfigSize::Comprehensive
    } else {
        let mut message = "Unknown config type: ".to_owned();
        message.append(config_type);
        return Err(AgentError::Configuration(message));
    };
    let name = match file_name_of(&project_info.root_path) {
        Some(name) => name,
        None => "unknown".to_owned(),
    };
    let mut project: Vec<(String, Value)> = Vec::new();
    project.push(text_member("name", name.as_str()));
    project.push(text_member("type", project_info.project_type.name()));
    project.push(text_member("language", project_info.language.as_str()));
    let mut basics: Vec<(String, Value)> = Vec::new();
    basics.push(flag_member("code_quality", true));
    basics.push(flag_member("security_scan", true));
    let mut advanced: Vec<(String, Value)> = Vec::new();
    match size {
        ConfigSize::Minimal => {},
        _ => {
            project.push(optional_member("framework", &project_info.framework));
            project.push(optional_member("build_system", &project_info.build_system));
            basics.push(flag_member("dependency_check", true));
            basics.push(flag_member("test_coverage", true));
            advanced.push(flag_member("performance_analysis", true));
            advanced.push(flag_member("architecture_review", true));
        },
    }
    match size {
        ConfigSize::Comprehensive => {
            project.push(optional_member("package_manager", &project_info.package_manager));
            basics.push(flag_member("documentation_check", true));
            advanced.push(flag_member("best_practices", true));
            advanced.push(flag_member("accessibility_check", false));
        },
        _ => {},
    }
    assert(entries_view(project@) =~= project_section(*project_info, size));
    assert(entries_view(basics@) =~= basics_section(size));
    assert(entries_view(advanced@) =~= advanced_section(size));
    let mut analysis: Vec<(String, Value)> = Vec::new();
    analysis.push(object_member("basics", basics));
    match size {
        ConfigSize::Minimal => {},
        _ => {
            analysis.push(object_member("advanced", advanced));
        },
    }
    assert(entries_view(analysis@) =~= analysis_section(size));
    let mut config: Vec<(String, Value)> = Vec::new();
    config.push(text_member("version", "1.0"));
    config.push(object_member("project", project));
    config.push(object_member("analysis", analysis));
    assert(entries_view(config@) =~= seq![
        ("version"@, json_of_text("1.0"@)),
        ("project"@, json_of_entries(project_section(*project_info, size))),
        ("analysis"@, json_of_entries(analysis_section(size))),
    ]);
    Ok(object_value(config))
}

/// The configuration that is proposed for a project in one of the three
/// sizes, as `generate_project_config` gives it.
pub fn generate_project_config_for_type(project_info: &ProjectInfo, config_type: &str) -> (r: Result<
    Value,
    AgentError,
>)
    ensures
        match r {
            Ok(config) => config_size(config_type@) is Some && config == project_config(
                *project_info,
                config_size(config_type@)->0,
            ),
            Err(e) => config_size(config_type@) is None && (e matches AgentError::Configuration(m)
                && m@ == "Unknown config type: "@ + config_type@),
        },
{
    generate_project_config(project_info, config_type)
}

} // verus!
