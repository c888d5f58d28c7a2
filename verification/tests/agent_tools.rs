use feature_flag::tools::{
    execute, map_domain_error, publish_ruleset_schema, rejected, success, tool_definitions,
    tool_named, Action, AdminError, Event, ExecuteError, Schemas, Stage, Tool, ToolExecutionClass,
    GET_FLAG_TOOL,
};

const PUBLISH: &str = r##"{
    "type": "object",
    "properties": { "value": { "$ref": "flag-value.schema.json" } },
    "$defs": { "Key": { "type": "string" } }
}"##;

const VALUE: &str = r##"{
    "$defs": { "ValueType": { "enum": ["boolean"] } },
    "type": "object"
}"##;

fn schemas<'a>(publish: &'a str, value: &'a str) -> Schemas<'a> {
    Schemas {
        get_flag: "{ \"title\": \"get\" }",
        list_flags: "{}",
        list_evaluation_receipts: "{}",
        create_flag: "{}",
        update_flag: "{}",
        archive_flag: "{}",
        put_environment: "{}",
        publish_ruleset: publish,
        flag_value: value,
    }
}

#[test]
fn catalog_has_three_reads_and_five_mutations_without_evaluation_tools() {
    let tools = tool_definitions(schemas(PUBLISH, VALUE)).unwrap();
    assert_eq!(tools.len(), 8);
    assert_eq!(
        tools
            .iter()
            .filter(|tool| tool.execution == ToolExecutionClass::ParallelSafe)
            .count(),
        3
    );
    assert_eq!(
        tools
            .iter()
            .filter(|tool| tool.execution == ToolExecutionClass::Exclusive)
            .count(),
        5
    );
    assert!(tools.iter().all(|tool| {
        !matches!(
            tool.name.as_str(),
            "feature_flag_evaluate" | "feature_flag_evaluate_batch"
        ) && !tool.input_schema_json.as_str().contains("flag-value.schema.json")
    }));
    assert_eq!(tools[0].name, "feature_flag_admin_get_flag");
    assert_eq!(tools[0].input_schema_json, "{\"title\":\"get\"}");
    assert_eq!(
        tools[0].description,
        "Get one feature flag and its current immutable value type and revision."
    );
    assert!(tools.iter().all(|tool| tool_named(&tool.name).unwrap().name() == tool.name));
}

#[test]
fn a_schema_that_is_not_json_leaves_no_catalog() {
    assert!(tool_definitions(schemas("{", VALUE)).is_none());
    assert!(tool_definitions(schemas(PUBLISH, "[]")).is_none());
    assert!(tool_definitions(schemas("{}", VALUE)).is_none());
    assert!(tool_definitions(schemas("{\"$defs\":[]}", VALUE)).is_none());
    let mut broken = schemas(PUBLISH, VALUE);
    broken.create_flag = "no json";
    assert!(tool_definitions(broken).is_none());
}

#[test]
fn the_value_schema_is_drawn_into_the_rulesets_definitions() {
    let schema = publish_ruleset_schema(PUBLISH, VALUE).unwrap();
    let schema: serde_json::Value = serde_json::from_str(&schema).unwrap();
    assert_eq!(schema["properties"]["value"]["$ref"], "#/$defs/FlagValue");
    assert_eq!(schema["$defs"]["Key"]["type"], "string");
    assert_eq!(schema["$defs"]["FlagValue"]["type"], "object");
    assert!(schema["$defs"]["FlagValue"].get("$defs").is_none());
    assert_eq!(schema["$defs"]["ValueType"]["enum"][0], "boolean");
    let referring = "{\"$defs\":{},\"a\":\"flag-value.schema.json\",\"b\":\"fflag-value.schema.jsonflag-value.schema.json\"}";
    let schema = publish_ruleset_schema(referring, VALUE).unwrap();
    assert!(!schema.contains("flag-value.schema.json"));
    assert!(schema.contains("f#/$defs/FlagValue#/$defs/FlagValue"));
    let bare = publish_ruleset_schema(PUBLISH, "{\"type\":\"object\"}").unwrap();
    let bare: serde_json::Value = serde_json::from_str(&bare).unwrap();
    assert!(bare["$defs"]["ValueType"].is_null());
    assert_eq!(bare["$defs"]["FlagValue"]["type"], "object");
}

fn get_flag_arguments(text: &str) -> Result<(String, String), ()> {
    let value: serde_json::Value = serde_json::from_str(text).map_err(|_| ())?;
    let part = |key: &str| value[key].as_str().map(str::to_owned).ok_or(());
    Ok((part("organization_id")?, part("flag_key")?))
}

#[test]
fn exact_request_decodes_and_domain_failures_stay_distinct() {
    let (stage, action) = execute(Stage::Start, Event::Named(GET_FLAG_TOOL.to_owned()));
    assert!(matches!(action, Action::Decode(Tool::GetFlag)));
    let get = get_flag_arguments(r#"{"organization_id":"org-1","flag_key":"new-editor"}"#);
    assert_eq!(get.as_ref().unwrap().1, "new-editor");
    let (_, action) = execute(stage, Event::Decoded(get.is_ok()));
    assert!(matches!(action, Action::Ask(Tool::GetFlag)));
    let bad = get_flag_arguments(r#"{"flag_key":42}"#);
    assert!(bad.is_err());
    let (_, action) = execute(stage, Event::Decoded(bad.is_ok()));
    assert!(matches!(action, Action::Refuse(ExecuteError::InvalidArguments)));

    assert_eq!(map_domain_error(AdminError::Forbidden), ExecuteError::PermissionDenied);
    assert_eq!(map_domain_error(AdminError::NotFound), ExecuteError::NotFound);
    let ExecuteError::ExecutionFailed { payload } = map_domain_error(AdminError::RevisionConflict)
    else {
        panic!("revision conflict must remain an execution failure");
    };
    assert_eq!(payload.reason_code, "revision_conflict");
}

#[test]
fn every_refusal_has_its_answer() {
    assert_eq!(map_domain_error(AdminError::InvalidRequest), ExecuteError::InvalidArguments);
    assert_eq!(map_domain_error(AdminError::Unauthenticated), ExecuteError::PermissionDenied);
    for (error, code) in [
        (AdminError::AlreadyExists, "already_exists"),
        (AdminError::Archived, "archived"),
        (AdminError::IdempotencyConflict, "idempotency_conflict"),
        (AdminError::InvalidRuleset, "invalid_ruleset"),
        (AdminError::OperationInProgress, "operation_in_progress"),
        (AdminError::RevisionConflict, "revision_conflict"),
        (AdminError::TypeMismatch, "type_mismatch"),
        (AdminError::Unknown, "unknown_domain_error"),
    ] {
        assert_eq!(map_domain_error(error), rejected(code));
        let ExecuteError::ExecutionFailed { payload } = rejected(code) else {
            panic!("a rejection is a failed execution")
        };
        assert_eq!(payload.message, "Feature Flag Admin rejected the requested operation.");
        assert_eq!(payload.details_json, format!("{{\"domain_error\":\"{code}\"}}"));
    }
    let ExecuteError::ExecutionFailed { payload } = rejected("a\"b") else {
        panic!("a rejection is a failed execution")
    };
    assert_eq!(payload.details_json, "{\"domain_error\":\"a\\\"b\"}");
}

#[test]
fn a_request_goes_from_its_name_to_its_answer() {
    let (stage, action) = execute(Stage::Start, Event::Named("feature_flag_evaluate".to_owned()));
    assert_eq!(stage, Stage::Done);
    assert!(matches!(action, Action::Refuse(ExecuteError::NotFound)));
    let asking = Stage::Asking(Tool::ListFlags);
    let (stage, action) = execute(asking, Event::Answered(Ok("{}".to_owned())));
    assert_eq!(stage, Stage::Done);
    let Action::Respond(response) = action else { panic!("an answer was expected") };
    assert_eq!(response.content, "{}");
    assert_eq!(response.metadata_json, "{\"tool\":\"feature_flag_admin_list_flags\"}");
    let (_, action) = execute(asking, Event::Answered(Err("odd".to_owned())));
    assert!(matches!(
        action,
        Action::Fail(detail)
            if detail == "Feature Flag Admin Tool could not serialize its typed response: odd"
    ));
    assert!(success(Tool::GetFlag, Err("odd".to_owned())).is_err());
    let (_, action) = execute(asking, Event::Refused(AdminError::Forbidden));
    assert!(matches!(action, Action::Refuse(ExecuteError::PermissionDenied)));
    let (_, action) = execute(asking, Event::Broken);
    assert!(matches!(action, Action::Report));
    let (stage, action) = execute(Stage::Start, Event::Decoded(true));
    assert_eq!(stage, Stage::Start);
    assert!(matches!(action, Action::Ignore));
}
