use elastic_mcp::json::{Json, Member};
use elastic_mcp::response::INVALID_PARAMS;
use elastic_mcp::tools::{
    CustomTool, EsqlResultFormat, EsqlTool, IncludeExclude, NamedTool, SearchTemplate,
    SearchTemplateTool, ToolBase, Tools,
};
use indexmap::IndexMap;
use rmcp::model::ToolAnnotations;
use schemars::schema::SchemaObject;

fn number(text: &str) -> Json {
    Json::Number(text.to_string())
}

fn member(name: &str, value: Json) -> Member {
    Member { name: name.to_string(), value }
}

fn base(description: &str) -> ToolBase {
    let mut parameters = IndexMap::new();
    parameters.insert("index".to_string(), SchemaObject::default());
    parameters.insert("after".to_string(), SchemaObject::default());
    ToolBase {
        description: description.to_string(),
        parameters,
        annotations: Some(ToolAnnotations { read_only_hint: Some(true), ..Default::default() }),
    }
}

fn esql(description: &str, query: &str, format: EsqlResultFormat) -> CustomTool {
    CustomTool::Esql(EsqlTool { base: base(description), query: query.to_string(), format })
}

fn template(description: &str, id: &str) -> CustomTool {
    CustomTool::SearchTemplate(SearchTemplateTool {
        base: base(description),
        template: SearchTemplate::TemplateId(id.to_string()),
    })
}

fn tools() -> Tools {
    Tools {
        incl_excl: Some(IncludeExclude::Exclude(vec!["search".to_string()])),
        custom: vec![
            NamedTool {
                name: "count_docs".to_string(),
                tool: esql("Counts documents", "FROM logs | STATS COUNT(*)", EsqlResultFormat::Value),
            },
            NamedTool { name: "by_user".to_string(), tool: template("Finds by user", "by-user-v2") },
        ],
    }
}

#[test]
fn value_format_unwraps_a_single_property() {
    let result = Json::Object(vec![member("a", number("42"))]);
    assert_eq!(EsqlResultFormat::Value.shape(result), number("42"));
}

#[test]
fn value_format_leaves_an_object_with_two_properties() {
    let result = Json::Object(vec![member("a", number("1")), member("b", number("2"))]);
    let expected = Json::Object(vec![member("a", number("1")), member("b", number("2"))]);
    assert_eq!(EsqlResultFormat::Value.shape(result), expected);
}

#[test]
fn value_format_leaves_an_array() {
    let array = || {
        Json::Array(vec![
            Json::Object(vec![member("a", number("1"))]),
            Json::Object(vec![member("a", number("2"))]),
        ])
    };
    assert_eq!(EsqlResultFormat::Value.shape(array()), array());
}

#[test]
fn value_format_leaves_what_is_no_object() {
    assert_eq!(EsqlResultFormat::Value.shape(Json::Object(vec![])), Json::Object(vec![]));
    assert_eq!(EsqlResultFormat::Value.shape(Json::Null), Json::Null);
    assert_eq!(EsqlResultFormat::Value.shape(Json::Bool(true)), Json::Bool(true));
    assert_eq!(
        EsqlResultFormat::Value.shape(Json::String("x".to_string())),
        Json::String("x".to_string())
    );
    let single = || Json::Array(vec![Json::Object(vec![member("a", number("1"))])]);
    assert_eq!(EsqlResultFormat::Value.shape(single()), single());
}

#[test]
fn json_format_changes_nothing() {
    let result = Json::Object(vec![member("a", number("42"))]);
    assert_eq!(
        EsqlResultFormat::Json.shape(result),
        Json::Object(vec![member("a", number("42"))])
    );
}

#[test]
fn json_is_the_default_format() {
    assert_eq!(EsqlResultFormat::default(), EsqlResultFormat::Json);
}

#[test]
fn base_is_that_of_the_variant() {
    let tool = esql("Counts documents", "FROM logs", EsqlResultFormat::Json);
    assert_eq!(tool.base().description, "Counts documents");
    let tool = template("Finds by user", "by-user-v2");
    assert_eq!(tool.base().description, "Finds by user");
    let names: Vec<&String> = tool.base().parameters.keys().collect();
    assert_eq!(names, ["index", "after"]);
    assert_eq!(tool.base().annotations.as_ref().unwrap().read_only_hint, Some(true));
}

#[test]
fn find_gives_the_tool_of_that_name() {
    let tools = tools();
    match tools.find("by_user") {
        Ok(CustomTool::SearchTemplate(tool)) => match &tool.template {
            SearchTemplate::TemplateId(id) => assert_eq!(id, "by-user-v2"),
            other => panic!("unexpected template {:?}", other),
        },
        other => panic!("unexpected outcome {:?}", other),
    }
    match tools.find("count_docs") {
        Ok(CustomTool::Esql(tool)) => {
            assert_eq!(tool.query, "FROM logs | STATS COUNT(*)");
            assert_eq!(tool.format, EsqlResultFormat::Value);
        }
        other => panic!("unexpected outcome {:?}", other),
    }
}

#[test]
fn find_reports_an_unknown_name_as_the_callers_error() {
    let tools = tools();
    let error = tools.find("drop_index").unwrap_err();
    assert_eq!(error.code, INVALID_PARAMS);
    assert_eq!(error.code, -32602);
    assert_eq!(error.message, "Unknown tool: drop_index");
    assert!(Tools::default().find("count_docs").is_err());
}

#[test]
fn find_gives_the_first_of_two_tools_with_one_name() {
    let mut tools = tools();
    tools.custom.push(NamedTool { name: "by_user".to_string(), tool: template("Later", "other") });
    assert_eq!(tools.find("by_user").unwrap().base().description, "Finds by user");
}

#[test]
fn distinct_names_are_told_from_repeated_ones() {
    let mut tools = tools();
    assert!(tools.has_distinct_names());
    assert!(Tools::default().has_distinct_names());
    tools.custom.push(NamedTool { name: "count_docs".to_string(), tool: template("Again", "x") });
    assert!(!tools.has_distinct_names());
}

#[test]
fn default_tool_set_is_empty() {
    let tools = Tools::default();
    assert!(tools.incl_excl.is_none());
    assert!(tools.custom.is_empty());
}

#[test]
fn inline_template_is_carried_as_it_is() {
    let body: serde_json::Value =
        serde_json::from_str("{\"query\":{\"term\":{\"user\":\"{{user}}\"}}}").unwrap();
    let tool = CustomTool::SearchTemplate(SearchTemplateTool {
        base: base("Finds by user"),
        template: SearchTemplate::Template(body.clone()),
    });
    match tool {
        CustomTool::SearchTemplate(SearchTemplateTool {
            template: SearchTemplate::Template(held),
            ..
        }) => assert_eq!(held, body),
        _ => panic!("the template changed its kind"),
    }
}

#[test]
fn a_tool_interprets_its_result_by_kind() {
    let single = || Json::Object(vec![member("count", number("7"))]);
    let tool = esql("Counts documents", "FROM logs | STATS COUNT(*)", EsqlResultFormat::Value);
    assert_eq!(tool.interpret(single()), number("7"));
    let tool = esql("Counts documents", "FROM logs | STATS COUNT(*)", EsqlResultFormat::Json);
    assert_eq!(tool.interpret(single()), single());
    let tool = template("Finds by user", "by-user-v2");
    assert_eq!(tool.interpret(single()), single());
}
