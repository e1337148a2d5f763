use gemini_types::types::{
    Candidate, Content, FunctionCall, GenerateContent, GenerationConfig, Model, Part, Response,
    Role, Schema, ThinkingConfig,
};

fn blank(part: &Part) -> bool {
    part.inline_data.is_none()
        && part.file_data.is_none()
        && part.video_metadata.is_none()
        && part.executable_code.is_none()
        && part.code_execution_result.is_none()
        && part.function_call.is_none()
        && part.thought.is_none()
        && part.function_response.is_none()
}

fn response_with(parts: Vec<Part>) -> Response {
    Response {
        candidates: vec![Candidate {
            content: Content { role: Role::Model, parts },
            finish_reason: None,
            index: Some(0),
            safety_ratings: vec![],
        }],
        prompt_feedback: None,
        usage_metadata: None,
    }
}

#[test]
fn text_part_holds_the_text_and_nothing_else() {
    let part = Part::text("Hello, Gemini");
    assert_eq!(part.text.as_deref(), Some("Hello, Gemini"));
    assert!(blank(&part));
}

#[test]
fn text_part_of_empty_string() {
    let part = Part::text("");
    assert_eq!(part.text.as_deref(), Some(""));
    assert!(blank(&part));
}

#[test]
fn text_part_keeps_non_ascii_text() {
    let part = Part::text("héllo, 世界");
    assert_eq!(part.text.as_deref(), Some("héllo, 世界"));
}

#[test]
fn default_part_is_blank() {
    let part = Part::default();
    assert!(part.text.is_none());
    assert!(blank(&part));
}

#[test]
fn response_displays_first_text() {
    let response = response_with(vec![Part::text("first"), Part::text("second")]);
    assert_eq!(response.to_string(), "first");
}

#[test]
fn response_displays_empty_string_without_text() {
    let response = response_with(vec![Part::default(), Part::text("second")]);
    assert_eq!(response.to_string(), "");
}

#[test]
fn response_displays_only_first_candidate() {
    let mut response = response_with(vec![Part::text("one")]);
    response.candidates.push(Candidate {
        content: Content { role: Role::Model, parts: vec![Part::text("two")] },
        finish_reason: None,
        index: Some(1),
        safety_ratings: vec![],
    });
    assert_eq!(response.to_string(), "one");
}

#[test]
fn default_model_is_empty() {
    let model = Model::default();
    assert_eq!(model.name, "");
    assert_eq!(model.version, "");
    assert_eq!(model.display_name, "");
    assert_eq!(model.description, "");
    assert_eq!(model.input_token_limit, 0);
    assert_eq!(model.output_token_limit, 0);
    assert!(model.supported_generation_methods.is_empty());
    assert!(model.temperature.is_none() && model.top_p.is_none() && model.top_k.is_none());
}

#[test]
fn default_request_is_empty() {
    let request = GenerateContent::default();
    assert!(request.contents.is_empty());
    assert!(request.tools.is_empty());
    assert!(request.tool_config.is_none());
    assert!(request.safety_settings.is_empty());
    assert!(request.system_instruction.is_none());
    assert!(request.generation_config.is_none());
}

#[test]
fn default_generation_config_sets_nothing() {
    let config = GenerationConfig::default();
    assert!(config.temperature.is_none());
    assert!(config.top_p.is_none());
    assert!(config.top_k.is_none());
    assert!(config.candidate_count.is_none());
    assert!(config.max_output_tokens.is_none());
    assert!(config.stop_sequences.is_none());
    assert!(config.response_mime_type.is_none());
    assert!(config.response_schema.is_none());
    assert!(config.thinking_config.is_none());
}

#[test]
fn default_thinking_config_sets_nothing() {
    let config = ThinkingConfig::default();
    assert!(config.thinking_budget.is_none());
    assert!(config.include_thoughts.is_none());
}

#[test]
fn default_schema_constrains_nothing() {
    let schema = Schema::default();
    assert!(schema.schema_type.is_none());
    assert!(schema.format.is_none() && schema.title.is_none() && schema.description.is_none());
    assert!(schema.nullable.is_none() && schema.enum_values.is_none());
    assert!(schema.max_items.is_none() && schema.min_items.is_none());
    assert!(schema.properties.is_none() && schema.required.is_none());
    assert!(schema.property_ordering.is_none() && schema.items.is_none());
}

#[test]
fn cloned_function_call_keeps_its_arguments() {
    let call = FunctionCall {
        id: Some("call-1".to_string()),
        name: "get_weather".to_string(),
        args: serde_json::Value::String("Paris".to_string()),
    };
    let copy = call.clone();
    assert_eq!(copy.args, serde_json::Value::String("Paris".to_string()));
    assert_eq!(copy.name, "get_weather");
    assert_eq!(copy.id.as_deref(), Some("call-1"));
}

#[test]
fn float_parameters_are_held_as_bit_patterns() {
    let mut config = GenerationConfig::default();
    config.temperature = Some(0.7f32.to_bits());
    assert_eq!(f32::from_bits(config.temperature.unwrap()), 0.7f32);
}
