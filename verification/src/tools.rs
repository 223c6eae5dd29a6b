//! The tools that a configuration declares: structured-query tools and
//! search-template tools over a common base.

use crate::json::Json;
use crate::response::{invalid_params, ProtocolError, INVALID_PARAMS};
use vstd::prelude::*;
use vstd::string::*;

verus! {

/// The insertion-ordered map of the `indexmap` crate, carried as it is.
#[verifier::external_type_specification]
#[verifier::external_body]
#[verifier::reject_recursive_types(K)]
#[verifier::reject_recursive_types(V)]
#[verifier::reject_recursive_types(S)]
pub struct ExIndexMap<K, V, S>(indexmap::IndexMap<K, V, S>);

/// The JSON schema of a parameter, carried as it is.
#[verifier::external_type_specification]
#[verifier::external_body]
pub struct ExSchemaObject(schemars::schema::SchemaObject);

/// A JSON value of the `serde_json` crate, carried as it is.
#[verifier::external_type_specification]
#[verifier::external_body]
pub struct ExValue(serde_json::Value);

/// The behaviour hints of the protocol crate, carried as they are.
#[verifier::external_type_specification]
#[verifier::external_body]
pub struct ExToolAnnotations(rmcp::model::ToolAnnotations);

/// What every tool has: a description for readers, the schema of each named
/// parameter in the order of declaration, and hints on its behaviour.
#[derive(Debug)]
pub struct ToolBase {
    pub description: String,
    pub parameters: indexmap::IndexMap<String, schemars::schema::SchemaObject>,
    pub annotations: Option<rmcp::model::ToolAnnotations>,
}

/// How the result of a structured query is handed back.
#[derive(Debug, Default, Clone, Copy, PartialEq, Eq)]
pub enum EsqlResultFormat {
    /// The result as it is, an object or an array of objects.
    #[default]
    Json,
    /// For an object with a single property, the value of that property.
    Value,
}

impl EsqlResultFormat {
    /// What `result` is handed back as under this format.
    pub open spec fn shaped(self, result: Json) -> Json {
        match self {
            EsqlResultFormat::Json => result,
            EsqlResultFormat::Value => if result.is_single_property() {
                result.single_property()
            } else {
                result
            },
        }
    }

    /// Shapes the result of a structured query. Under `Value`, a result
    /// that is no object with a single property is handed back unchanged.
    pub fn shape(self, result: Json) -> (r: Json)
        ensures
            r == self.shaped(result),
    {
        match self {
            EsqlResultFormat::Json => result,
            EsqlResultFormat::Value => match result {
                Json::Object(mut members) => {
                    if members.len() == 1 {
                        match members.pop() {
                            Some(member) => member.value,
                            None => Json::Object(members),
                        }
                    } else {
                        Json::Object(members)
                    }
                },
                other => other,
            },
        }
    }
}

/// A tool that runs a fixed query-language expression.
#[derive(Debug)]
pub struct EsqlTool {
    pub base: ToolBase,
    pub query: String,
    pub format: EsqlResultFormat,
}

/// The template of a search: stored in the backend under an identifier, or
/// given inline and handed to the backend as it is.
#[derive(Debug)]
pub enum SearchTemplate {
    TemplateId(String),
    Template(serde_json::Value),
}

/// A tool that runs a search template.
#[derive(Debug)]
pub struct SearchTemplateTool {
    pub base: ToolBase,
    pub template: SearchTemplate,
}

/// A tool of the configuration, by kind.
#[derive(Debug)]
pub enum CustomTool {
    Esql(EsqlTool),
    SearchTemplate(SearchTemplateTool),
}

impl CustomTool {
    /// What the tool hands back for the structured data `result` of its
    /// call: a structured query shapes it by its format, a search template
    /// hands it on as it is.
    pub open spec fn interpreted(&self, result: Json) -> Json {
        match self {
            CustomTool::Esql(tool) => tool.format.shaped(result),
            CustomTool::SearchTemplate(_) => result,
        }
    }

    /// Interprets the structured data that the call of the tool gave.
    pub fn interpret(&self, result: Json) -> (r: Json)
        ensures
            r == self.interpreted(result),
    {
        match self {
            CustomTool::Esql(tool) => tool.format.shape(result),
            CustomTool::SearchTemplate(_) => result,
        }
    }

    /// What the tool has in common with every other.
    pub fn base(&self) -> (r: &ToolBase)
        ensures
            *r == match *self {
                CustomTool::Esql(t) => t.base,
                CustomTool::SearchTemplate(t) => t.base,
            },
    {
        match self {
            CustomTool::Esql(esql) => &esql.base,
            CustomTool::SearchTemplate(search_template) => &search_template.base,
        }
    }
}

/// Which of the built-in tools to expose: only the ones named, or all but
/// the ones named.
#[derive(Debug)]
pub enum IncludeExclude {
    Include(Vec<String>),
    Exclude(Vec<String>),
}

/// A tool of the configuration under its name.
#[derive(Debug)]
pub struct NamedTool {
    pub name: String,
    pub tool: CustomTool,
}

/// The tool set of a configuration. The custom tools stand in a list, each
/// under its name; a well-formed set has no name twice, and the order of
/// the list means nothing.
#[derive(Debug)]
pub struct Tools {
    pub incl_excl: Option<IncludeExclude>,
    pub custom: Vec<NamedTool>,
}

impl Default for Tools {
    fn default() -> (r: Tools)
        ensures
            r.incl_excl is None,
            r.custom@.len() == 0,
    {
        Tools { incl_excl: None, custom: Vec::new() }
    }
}

impl Tools {
    /// No two custom tools have the same name.
    pub open spec fn wf(&self) -> bool {
        forall|i: int, j: int|
            0 <= i < j < self.custom@.len() ==> #[trigger] self.custom@[i].name@
                != #[trigger] self.custom@[j].name@
    }

    /// None of the first `n` custom tools is called `name`.
    pub open spec fn absent_before(&self, name: Seq<char>, n: int) -> bool {
        forall|i: int| 0 <= i < n ==> (#[trigger] self.custom@[i]).name@ != name
    }

    /// The message of the error for a name that no tool has.
    pub open spec fn unknown_tool_message(name: Seq<char>) -> Seq<char> {
        "Unknown tool: "@ + name
    }

    /// In a well-formed set a name stands for one tool: the tool under a
    /// name is the first under it, and the only one.
    pub proof fn lemma_name_is_key(&self, name: Seq<char>, i: int)
        requires
            self.wf(),
            0 <= i < self.custom@.len(),
            self.custom@[i].name@ == name,
        ensures
            self.absent_before(name, i),
            forall|j: int|
                0 <= j < self.custom@.len() && j != i ==> (#[trigger] self.custom@[j]).name@
                    != name,
    {
        assert forall|j: int| 0 <= j < self.custom@.len() && j != i implies (
        #[trigger] self.custom@[j]).name@ != name by {
            if j < i {
                assert(self.custom@[j].name@ != self.custom@[i].name@);
            } else {
                assert(self.custom@[i].name@ != self.custom@[j].name@);
            }
        }
    }

    /// Tells whether the set is well formed.
    pub fn has_distinct_names(&self) -> (r: bool)
        ensures
            r == self.wf(),
    {
        let n = self.custom.len();
        let mut j: usize = 0;
        while j < n
            invariant
                n == self.custom@.len(),
                j <= n,
                forall|a: int, b: int|
                    0 <= a < b < j ==> #[trigger] self.custom@[a].name@
                        != #[trigger] self.custom@[b].name@,
            decreases n - j,
        {
            let mut i: usize = 0;
            while i < j
                invariant
                    n == self.custom@.len(),
                    j < n,
                    i <= j,
                    forall|a: int| 0 <= a < i ==> (#[trigger] self.custom@[a]).name@
                        != self.custom@[j as int].name@,
                decreases j - i,
            {
                if self.custom[i].name == self.custom[j].name {
                    return false;
                }
                i += 1;
            }
            j += 1;
        }
        true
    }

    /// Looks a custom tool up by its name. A name that no tool has is the
    /// caller's error, not an internal one.
    pub fn find(&self, name: &str) -> (r: Result<&CustomTool, ProtocolError>)
        ensures
            match r {
                Ok(tool) => exists|i: int|
                    0 <= i < self.custom@.len() && self.absent_before(name@, i)
                        && self.custom@[i].name@ == name@ && *tool == self.custom@[i].tool,
                Err(e) => self.absent_before(name@, self.custom@.len() as int) && e.code
                    == INVALID_PARAMS && e.message@ == Self::unknown_tool_message(name@),
            },
    {
        let wanted: String = name.to_owned();
        let n = self.custom.len();
        let mut i: usize = 0;
        while i < n
            invariant
                n == self.custom@.len(),
                i <= n,
                wanted@ == name@,
                self.absent_before(name@, i as int),
            decreases n - i,
        {
            if self.custom[i].name == wanted {
                return Ok(&self.custom[i].tool);
            }
            i += 1;
        }
        let mut message = "Unknown tool: ".to_owned();
        message.append(name);
        Err(invalid_params(message))
    }
}

} // verus!
