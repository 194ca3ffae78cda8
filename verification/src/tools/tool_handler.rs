//! Tool dispatch and the tool registry.
//!
//! Tools form a closed enumeration: each is a variant of [`ToolImpl`], so
//! dispatch is exhaustive and compiler-checked. The registry is built once
//! and never mutated; lookups and listings preserve registration order.

use vstd::prelude::*;

use super::builtin_tools::search_files_schema;
use super::builtin_tools::spec_search_execute;
use super::builtin_tools::spec_weather_execute;
use super::builtin_tools::weather_schema;
use super::builtin_tools::SearchFilesTool;
use super::builtin_tools::WeatherTool;
use crate::json_text::str_eq;
use crate::models::CallToolResult;
use crate::models::CallToolResultV;
use crate::models::SchemaV;
use crate::models::Tool;
use crate::models::ToolError;
use crate::models::ToolInputSchema;
use crate::models::ToolV;

verus! {

/// All available tool implementations, one variant per tool.
#[derive(Debug, Clone, Copy)]
pub enum ToolImpl {
    /// File search tool.
    SearchFiles(SearchFilesTool),
    /// Weather query tool.
    Weather(WeatherTool),
}

/// What the given tool returns for a raw arguments value: the result, or
/// the message of its reported failure.
pub open spec fn spec_execute(t: ToolImpl, args: serde_json::Value) -> Result<
    CallToolResultV,
    Seq<char>,
> {
    match t {
        ToolImpl::SearchFiles(_) => spec_search_execute(args),
        ToolImpl::Weather(_) => spec_weather_execute(args),
    }
}

impl ToolImpl {
    /// The tool's registered name.
    pub open spec fn spec_name(&self) -> Seq<char> {
        match self {
            ToolImpl::SearchFiles(_) => "search_files"@,
            ToolImpl::Weather(_) => "get_weather"@,
        }
    }

    /// The tool's description.
    pub open spec fn spec_description(&self) -> Seq<char> {
        match self {
            ToolImpl::SearchFiles(_) => "在文件系统中搜索文件"@,
            ToolImpl::Weather(_) => "获取天气信息"@,
        }
    }

    /// The tool's declared input schema.
    pub open spec fn spec_schema(&self) -> SchemaV {
        match self {
            ToolImpl::SearchFiles(_) => search_files_schema(),
            ToolImpl::Weather(_) => weather_schema(),
        }
    }

    /// The metadata this tool reports in `tools/list`.
    pub open spec fn spec_meta(&self) -> ToolV {
        ToolV {
            name: self.spec_name(),
            description: self.spec_description(),
            input_schema: self.spec_schema(),
        }
    }

    /// Gets the name of this tool.
    pub fn name(&self) -> (r: &str)
        ensures
            r@ == self.spec_name(),
    {
        match self {
            ToolImpl::SearchFiles(_) => "search_files",
            ToolImpl::Weather(_) => "get_weather",
        }
    }

    /// Gets the human-readable description of this tool.
    pub fn description(&self) -> (r: &str)
        ensures
            r@ == self.spec_description(),
    {
        match self {
            ToolImpl::SearchFiles(_) => "在文件系统中搜索文件",
            ToolImpl::Weather(_) => "获取天气信息",
        }
    }

    /// Gets the input schema for this tool.
    pub fn schema(&self) -> (r: ToolInputSchema)
        ensures
            r@ == self.spec_schema(),
            crate::models::schema_keys_unique(r@),
    {
        match self {
            ToolImpl::SearchFiles(tool) => tool.schema(),
            ToolImpl::Weather(tool) => tool.schema(),
        }
    }

    /// Executes this tool on the raw arguments value: the result is
    /// exactly what [`spec_execute`] gives for this tool and value.
    pub fn execute(&self, arguments: &serde_json::Value) -> (r: Result<CallToolResult, ToolError>)
        ensures
            match r {
                Ok(res) => spec_execute(*self, *arguments) == Ok::<CallToolResultV, Seq<char>>(
                    res@,
                ),
                Err(e) => spec_execute(*self, *arguments) == Err::<CallToolResultV, Seq<char>>(
                    e.message@,
                ),
            },
    {
        match self {
            ToolImpl::SearchFiles(tool) => tool.execute(arguments),
            ToolImpl::Weather(tool) => tool.execute(arguments),
        }
    }
}

/// The position of the first registered tool carrying the given name, if
/// any.
pub open spec fn find_tool(ts: Seq<ToolImpl>, name: Seq<char>) -> Option<int>
    decreases ts.len(),
{
    if ts.len() == 0 {
        None
    } else if ts[0].spec_name() == name {
        Some(0)
    } else {
        match find_tool(ts.skip(1), name) {
            None => None,
            Some(i) => Some(i + 1),
        }
    }
}

/// `find_tool` yields the position of the first tool with the name.
pub proof fn lemma_find_tool_at(ts: Seq<ToolImpl>, name: Seq<char>, i: int)
    requires
        0 <= i < ts.len(),
        ts[i].spec_name() == name,
        forall|j: int| 0 <= j < i ==> (#[trigger] ts[j]).spec_name() != name,
    ensures
        find_tool(ts, name) == Some(i),
    decreases i,
{
    if i > 0 {
        lemma_find_tool_at(ts.skip(1), name, i - 1);
    }
}

/// `find_tool` yields nothing where no tool carries the name.
pub proof fn lemma_find_tool_none(ts: Seq<ToolImpl>, name: Seq<char>)
    requires
        forall|j: int| 0 <= j < ts.len() ==> (#[trigger] ts[j]).spec_name() != name,
    ensures
        find_tool(ts, name) is None,
    decreases ts.len(),
{
    if ts.len() > 0 {
        lemma_find_tool_none(ts.skip(1), name);
    }
}

/// Registry of all available tools, fixed at construction.
#[derive(Debug, Clone)]
pub struct ToolRegistry {
    tools: Vec<ToolImpl>,
}

impl ToolRegistry {
    /// The registered tools, in registration order.
    pub closed spec fn spec_tools(&self) -> Seq<ToolImpl> {
        self.tools@
    }

    /// Registered tool names are unique.
    pub open spec fn wf(&self) -> bool {
        forall|i: int, j: int|
            0 <= i < j < self.spec_tools().len() ==> (#[trigger] self.spec_tools()[i]).spec_name()
                != (#[trigger] self.spec_tools()[j]).spec_name()
    }

    /// Whether some registered tool carries the given name.
    pub open spec fn spec_has_tool(&self, name: Seq<char>) -> bool {
        exists|i: int|
            0 <= i < self.spec_tools().len() && (#[trigger] self.spec_tools()[i]).spec_name()
                == name
    }

    /// Creates the registry with the two built-in tools registered.
    pub fn new() -> (r: Self)
        ensures
            r.spec_tools() == seq![
                ToolImpl::SearchFiles(SearchFilesTool),
                ToolImpl::Weather(WeatherTool),
            ],
            r.wf(),
    {
        let mut tools: Vec<ToolImpl> = Vec::new();
        tools.push(ToolImpl::SearchFiles(SearchFilesTool));
        tools.push(ToolImpl::Weather(WeatherTool));
        let r = ToolRegistry { tools };
        proof {
            assert(r.spec_tools() =~= seq![
                ToolImpl::SearchFiles(SearchFilesTool),
                ToolImpl::Weather(WeatherTool),
            ]);
            reveal_strlit("search_files");
            reveal_strlit("get_weather");
            assert forall|i: int, j: int|
                0 <= i < j < r.spec_tools().len() implies (
            #[trigger] r.spec_tools()[i]).spec_name() != (
            #[trigger] r.spec_tools()[j]).spec_name() by {
                assert(i == 0 && j == 1);
                assert("search_files"@.len() == 12);
                assert("get_weather"@.len() == 11);
            }
        }
        r
    }

    /// Gets a tool by name: the first registered tool carrying the name,
    /// `None` exactly when no tool carries it.
    pub fn get(&self, name: &str) -> (r: Option<&ToolImpl>)
        ensures
            match r {
                Some(t) => find_tool(self.spec_tools(), name@) matches Some(i) && *t
                    == self.spec_tools()[i],
                None => find_tool(self.spec_tools(), name@) is None && !self.spec_has_tool(name@),
            },
    {
        let n = self.tools.len();
        let mut i: usize = 0;
        while i < n
            invariant
                n == self.tools.len(),
                i <= n,
                forall|j: int| 0 <= j < i ==> (#[trigger] self.spec_tools()[j]).spec_name()
                    != name@,
            decreases n - i,
        {
            let t = &self.tools[i];
            if str_eq(t.name(), name) {
                proof {
                    lemma_find_tool_at(self.spec_tools(), name@, i as int);
                }
                return Some(t);
            }
            i += 1;
        }
        proof {
            lemma_find_tool_none(self.spec_tools(), name@);
        }
        None
    }

    /// Lists the metadata of every registered tool, in registration order.
    pub fn list_tools(&self) -> (r: Vec<Tool>)
        ensures
            r@.len() == self.spec_tools().len(),
            forall|i: int| 0 <= i < r@.len() ==> (#[trigger] r@[i])@ == self.spec_tools()[
                i
            ].spec_meta(),
    {
        let n = self.tools.len();
        let mut r: Vec<Tool> = Vec::new();
        let mut i: usize = 0;
        while i < n
            invariant
                n == self.tools.len(),
                i <= n,
                r@.len() == i,
                forall|j: int| 0 <= j < i ==> (#[trigger] r@[j])@ == self.spec_tools()[
                    j
                ].spec_meta(),
            decreases n - i,
        {
            let t = &self.tools[i];
            let tool = Tool {
                name: t.name().to_owned(),
                description: t.description().to_owned(),
                input_schema: t.schema(),
            };
            r.push(tool);
            i += 1;
        }
        r
    }

    /// Lists every registered tool name, in registration order.
    pub fn get_tool_names(&self) -> (r: Vec<String>)
        ensures
            r@.len() == self.spec_tools().len(),
            forall|i: int| 0 <= i < r@.len() ==> (#[trigger] r@[i])@ == self.spec_tools()[
                i
            ].spec_name(),
    {
        let n = self.tools.len();
        let mut r: Vec<String> = Vec::new();
        let mut i: usize = 0;
        while i < n
            invariant
                n == self.tools.len(),
                i <= n,
                r@.len() == i,
                forall|j: int| 0 <= j < i ==> (#[trigger] r@[j])@ == self.spec_tools()[
                    j
                ].spec_name(),
            decreases n - i,
        {
            let t = &self.tools[i];
            r.push(t.name().to_owned());
            i += 1;
        }
        r
    }
}

impl Default for ToolRegistry {
    /// The default registry is the built-in one.
    fn default() -> (r: Self)
        ensures
            r.spec_tools() == seq![
                ToolImpl::SearchFiles(SearchFilesTool),
                ToolImpl::Weather(WeatherTool),
            ],
            r.wf(),
    {
        Self::new()
    }
}

/// Every tool's declared schema lists each of its required parameters among
/// its property keys.
pub proof fn lemma_schema_required_subset(t: ToolImpl)
    ensures
        crate::models::schema_required_subset(t.spec_schema()),
{
    match t {
        ToolImpl::SearchFiles(_) => {
            let s = search_files_schema();
            assert(crate::models::has_prop_key(s, "pattern"@)) by {
                assert(0 <= 0 < s.properties.len() && s.properties[0].0 == "pattern"@);
            }
            assert forall|i: int|
                0 <= i < s.required.len() implies crate::models::has_prop_key(
                s,
                #[trigger] s.required[i],
            ) by {
                assert(s.required[i] == "pattern"@);
            }
        },
        ToolImpl::Weather(_) => {
            let s = weather_schema();
            assert(crate::models::has_prop_key(s, "city"@)) by {
                assert(0 <= 0 < s.properties.len() && s.properties[0].0 == "city"@);
            }
            assert forall|i: int|
                0 <= i < s.required.len() implies crate::models::has_prop_key(
                s,
                #[trigger] s.required[i],
            ) by {
                assert(s.required[i] == "city"@);
            }
        },
    }
}

} // verus!
