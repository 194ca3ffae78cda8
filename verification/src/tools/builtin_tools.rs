//! Built-in tools: fixed-text producers for a file search and a weather
//! query. Both are pure functions of their arguments; the real work each
//! name suggests is outside this design's scope.

use vstd::prelude::*;
use vstd::string::StringExecFns;

use crate::json_value::get_str_field;
use crate::json_value::jv_get_str;
use crate::models::CallToolResult;
use crate::models::CallToolResultV;
use crate::models::Content;
use crate::models::ContentV;
use crate::models::Property;
use crate::models::PropertyV;
use crate::models::SchemaV;
use crate::models::ToolError;
use crate::models::ToolInputSchema;

verus! {

/// File search tool: reports a fixed file list for a pattern and directory.
#[derive(Debug, Clone, Copy)]
pub struct SearchFilesTool;

/// Weather query tool: reports fixed weather data for a city.
#[derive(Debug, Clone, Copy)]
pub struct WeatherTool;

/// The text produced by a successful `search_files` call.
pub open spec fn search_text(pattern: Seq<char>, directory: Seq<char>) -> Seq<char> {
    "在目录 "@ + directory + " 中搜索模式 '"@ + pattern
        + "'\n找到以下文件:\n1. /path/to/file1.txt\n2. /path/to/file2.log"@
}

/// The text produced by a successful `get_weather` call.
pub open spec fn weather_text(city: Seq<char>) -> Seq<char> {
    city + " 的天气:\n温度: 22°C\n天气: 晴朗\n湿度: 65%"@
}

/// The directory actually searched: the argument, or "." when absent.
pub open spec fn dir_or_default(directory: Option<String>) -> Seq<char> {
    match directory {
        Some(d) => d@,
        None => "."@,
    }
}

/// The directory actually searched, over the decoded characters.
pub open spec fn dir_seq(directory: Option<Seq<char>>) -> Seq<char> {
    match directory {
        Some(d) => d,
        None => "."@,
    }
}

/// A result holding one text content item.
pub open spec fn text_result(text: Seq<char>) -> CallToolResultV {
    CallToolResultV { content: seq![ContentV { type_: "text"@, text }] }
}

/// The message reported when the required `pattern` argument is missing.
pub open spec fn missing_pattern_msg() -> Seq<char> {
    "Missing required parameter: pattern"@
}

/// The message reported when the required `city` argument is missing.
pub open spec fn missing_city_msg() -> Seq<char> {
    "Missing required parameter: city"@
}

/// What `search_files` returns for a raw arguments value: the fixed text
/// for the string under `"pattern"` (and the one under `"directory"`, or
/// "."), or the missing-pattern message where `"pattern"` holds no string.
pub open spec fn spec_search_execute(args: serde_json::Value) -> Result<CallToolResultV, Seq<char>> {
    match jv_get_str(args, "pattern"@) {
        Some(p) => Ok(text_result(search_text(p, dir_seq(jv_get_str(args, "directory"@))))),
        None => Err(missing_pattern_msg()),
    }
}

/// What `get_weather` returns for a raw arguments value: the fixed text
/// for the string under `"city"`, or the missing-city message.
pub open spec fn spec_weather_execute(args: serde_json::Value) -> Result<CallToolResultV, Seq<char>> {
    match jv_get_str(args, "city"@) {
        Some(c) => Ok(text_result(weather_text(c))),
        None => Err(missing_city_msg()),
    }
}

/// The declared schema of `search_files`.
pub open spec fn search_files_schema() -> SchemaV {
    SchemaV {
        type_: "object"@,
        properties: seq![
            (
                "pattern"@,
                PropertyV { type_: "string"@, description: "搜索模式（支持通配符）"@ },
            ),
            ("directory"@, PropertyV { type_: "string"@, description: "搜索目录"@ }),
        ],
        required: seq!["pattern"@],
    }
}

/// The declared schema of `get_weather`.
pub open spec fn weather_schema() -> SchemaV {
    SchemaV {
        type_: "object"@,
        properties: seq![("city"@, PropertyV { type_: "string"@, description: "城市名称"@ })],
        required: seq!["city"@],
    }
}

fn text_content(text: String) -> (r: CallToolResult)
    ensures
        r@ == text_result(text@),
{
    let mut content: Vec<Content> = Vec::new();
    content.push(Content { type_: "text".to_owned(), text });
    let r = CallToolResult { content };
    proof {
        assert(r@.content =~= text_result(text@).content);
        assert(r@ =~= text_result(text@));
    }
    r
}

impl SearchFilesTool {
    /// The input schema: `pattern` (required) and `directory` (optional).
    pub fn schema(&self) -> (r: ToolInputSchema)
        ensures
            r@ == search_files_schema(),
            crate::models::schema_keys_unique(r@),
    {
        let mut properties: Vec<(String, Property)> = Vec::new();
        properties.push(
            (
                "pattern".to_owned(),
                Property {
                    type_: "string".to_owned(),
                    description: "搜索模式（支持通配符）".to_owned(),
                },
            ),
        );
        properties.push(
            (
                "directory".to_owned(),
                Property { type_: "string".to_owned(), description: "搜索目录".to_owned() },
            ),
        );
        let mut required: Vec<String> = Vec::new();
        required.push("pattern".to_owned());
        let r = ToolInputSchema { type_: "object".to_owned(), properties, required };
        proof {
            assert(r@.properties =~= search_files_schema().properties);
            assert(r@.required =~= search_files_schema().required);
            assert(r@ =~= search_files_schema());
            reveal_strlit("pattern");
            reveal_strlit("directory");
            assert forall|i: int, j: int|
                0 <= i < j < r@.properties.len() implies (#[trigger] r@.properties[i]).0 != (
            #[trigger] r@.properties[j]).0 by {
                assert(i == 0 && j == 1);
                assert("pattern"@.len() == 7);
                assert("directory"@.len() == 9);
            }
        }
        r
    }

    /// The tool on its decoded arguments: succeeds exactly when `pattern`
    /// was given, and then returns the one fixed text content.
    pub fn run(pattern: Option<String>, directory: Option<String>) -> (r: Result<
        CallToolResult,
        ToolError,
    >)
        ensures
            match r {
                Ok(res) => pattern matches Some(p) && res@ == text_result(
                    search_text(p@, dir_or_default(directory)),
                ),
                Err(e) => pattern is None && e.message@ == missing_pattern_msg(),
            },
    {
        match pattern {
            Some(p) => {
                let dir: String = match directory {
                    Some(d) => d,
                    None => ".".to_owned(),
                };
                let mut text = String::new();
                text.append("在目录 ");
                text.append(dir.as_str());
                text.append(" 中搜索模式 '");
                text.append(p.as_str());
                text.append("'\n找到以下文件:\n1. /path/to/file1.txt\n2. /path/to/file2.log");
                proof {
                    assert(text@ =~= search_text(p@, dir_or_default(directory)));
                }
                Ok(text_content(text))
            },
            None => Err(ToolError { message: "Missing required parameter: pattern".to_owned() }),
        }
    }

    /// Reads `pattern` and `directory` from the raw arguments and runs the
    /// tool: the result is exactly what [`spec_search_execute`] gives for
    /// the arguments value.
    pub fn execute(&self, arguments: &serde_json::Value) -> (r: Result<CallToolResult, ToolError>)
        ensures
            match r {
                Ok(res) => spec_search_execute(*arguments) == Ok::<CallToolResultV, Seq<char>>(
                    res@,
                ),
                Err(e) => spec_search_execute(*arguments) == Err::<CallToolResultV, Seq<char>>(
                    e.message@,
                ),
            },
    {
        let pattern: Option<String> = get_str_field(arguments, "pattern");
        let directory: Option<String> = get_str_field(arguments, "directory");
        let ghost gp = pattern;
        let ghost gd = directory;
        let r = Self::run(pattern, directory);
        proof {
            match gd {
                Some(d) => {
                    assert(dir_seq(jv_get_str(*arguments, "directory"@)) == d@);
                },
                None => {
                    assert(dir_seq(jv_get_str(*arguments, "directory"@)) == "."@);
                },
            }
            if r is Ok {
                let p = gp->0;
                assert(jv_get_str(*arguments, "pattern"@) == Some(p@));
            }
        }
        r
    }
}

impl WeatherTool {
    /// The input schema: `city` (required).
    pub fn schema(&self) -> (r: ToolInputSchema)
        ensures
            r@ == weather_schema(),
            crate::models::schema_keys_unique(r@),
    {
        let mut properties: Vec<(String, Property)> = Vec::new();
        properties.push(
            (
                "city".to_owned(),
                Property { type_: "string".to_owned(), description: "城市名称".to_owned() },
            ),
        );
        let mut required: Vec<String> = Vec::new();
        required.push("city".to_owned());
        let r = ToolInputSchema { type_: "object".to_owned(), properties, required };
        proof {
            assert(r@.properties =~= weather_schema().properties);
            assert(r@.required =~= weather_schema().required);
            assert(r@ =~= weather_schema());
        }
        r
    }

    /// The tool on its decoded arguments: succeeds exactly when `city` was
    /// given, and then returns the one fixed text content.
    pub fn run(city: Option<String>) -> (r: Result<CallToolResult, ToolError>)
        ensures
            match r {
                Ok(res) => city matches Some(c) && res@ == text_result(weather_text(c@)),
                Err(e) => city is None && e.message@ == missing_city_msg(),
            },
    {
        match city {
            Some(c) => {
                let mut text = String::new();
                text.append(c.as_str());
                text.append(" 的天气:\n温度: 22°C\n天气: 晴朗\n湿度: 65%");
                proof {
                    assert(text@ =~= weather_text(c@));
                }
                Ok(text_content(text))
            },
            None => Err(ToolError { message: "Missing required parameter: city".to_owned() }),
        }
    }

    /// Reads `city` from the raw arguments and runs the tool: the result
    /// is exactly what [`spec_weather_execute`] gives for the arguments
    /// value.
    pub fn execute(&self, arguments: &serde_json::Value) -> (r: Result<CallToolResult, ToolError>)
        ensures
            match r {
                Ok(res) => spec_weather_execute(*arguments) == Ok::<CallToolResultV, Seq<char>>(
                    res@,
                ),
                Err(e) => spec_weather_execute(*arguments) == Err::<CallToolResultV, Seq<char>>(
                    e.message@,
                ),
            },
    {
        let city: Option<String> = get_str_field(arguments, "city");
        let ghost gc = city;
        let r = Self::run(city);
        proof {
            if r is Ok {
                let c = gc->0;
                assert(jv_get_str(*arguments, "city"@) == Some(c@));
            }
        }
        r
    }
}

} // verus!
