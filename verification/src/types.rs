//! Every type used in the library.

use std::collections::BTreeMap;

use vstd::prelude::*;

verus! {

/// The producer of the content
#[derive(Debug, Clone, Copy)]
pub enum Role {
    User,
    Model,
    Function,
}

/// What the API answers: the value asked for, or an error report.
///
/// On the wire the two are told apart by their shape alone.
#[derive(Debug)]
pub enum ApiResponse<T> {
    /// The value asked for.
    Success(T),
    /// An error report.
    Failure(ApiError),
}

/// An error report of the API.
#[derive(Debug)]
pub struct ApiError {
    pub error: ErrorDetail,
}

/// The body of an error report.
#[derive(Debug)]
pub struct ErrorDetail {
    pub code: u16,
    pub message: String,
    pub status: Status,
    pub details: Vec<ErrorInfo>,
}

/// One detail attached to an error report.
#[derive(Debug)]
pub struct ErrorInfo {
    /// The type URL of the detail (its `@type` member on the wire).
    pub type_: String,
    pub reason: Option<String>,
    pub domain: Option<String>,
    pub metadata: Option<BTreeMap<String, String>>,
}

/// Common backend error codes you may encounter
///
/// Use the [API Reference](https://ai.google.dev/gemini-api/docs/troubleshooting#error-codes) for
/// troubleshooting steps
#[derive(Debug)]
pub enum Status {
    /// The request body is malformed
    InvalidArgument,
    /// Gemini API free tier is not available in your country. Please enable billing on your project in Google AI Studio.
    FailedPrecondition,
    /// Your API key doesn't have the required permissions.
    PermissionDenied,
    /// The requested resource wasn't found.
    NotFound,
    /// You've exceeded the rate limit.
    ResourceExhausted,
    /// An unexpected error occurred on Google's side.
    Internal,
    /// The service may be temporarily overloaded or down.
    Unavailable,
    /// The service is unable to finish processing within the deadline.
    DeadlineExceeded,
}

/// A paginated list of Models, as the models listing answers it
///
/// [API Reference](https://ai.google.dev/api/models#response-body_1)
#[derive(Debug)]
pub struct Models {
    pub models: Vec<Model>,
    pub next_page_token: Option<String>,
}

/// Information about a Generative Language Model
///
/// `temperature` and `top_p` are 32-bit floats on the wire; they are held here
/// as their IEEE 754 binary32 bit patterns.
///
/// [API Reference](https://ai.google.dev/api/models#Model)
#[derive(Debug)]
pub struct Model {
    pub name: String,
    pub version: String,
    pub display_name: String,
    pub description: String,
    pub input_token_limit: i32,
    pub output_token_limit: i32,
    pub supported_generation_methods: Vec<String>,
    pub temperature: Option<u32>,
    pub top_p: Option<u32>,
    pub top_k: Option<i32>,
}

impl Default for Model {
    /// A model with empty strings and lists, zero token limits and no sampling parameters.
    fn default() -> (model: Self)
        ensures
            model.name@ == Seq::<char>::empty(),
            model.version@ == Seq::<char>::empty(),
            model.display_name@ == Seq::<char>::empty(),
            model.description@ == Seq::<char>::empty(),
            model.input_token_limit == 0,
            model.output_token_limit == 0,
            model.supported_generation_methods@ == Seq::<String>::empty(),
            model.temperature is None,
            model.top_p is None,
            model.top_k is None,
    {
        Model {
            name: String::new(),
            version: String::new(),
            display_name: String::new(),
            description: String::new(),
            input_token_limit: 0,
            output_token_limit: 0,
            supported_generation_methods: Vec::new(),
            temperature: None,
            top_p: None,
            top_k: None,
        }
    }
}

/// Response from the model supporting multiple candidate responses
///
/// [API Reference](https://ai.google.dev/api/generate-content#generatecontentresponse)
#[derive(Debug)]
pub struct Response {
    pub candidates: Vec<Candidate>,
    pub prompt_feedback: Option<PromptFeedback>,
    pub usage_metadata: Option<UsageMetadata>,
}

impl Response {
    /// The text of the first part of the first candidate, or the empty string
    /// where that part has no text. This is how a response is displayed.
    pub open spec fn spec_display(self) -> Seq<char>
        recommends
            self.candidates.len() > 0,
            self.candidates[0].content.parts.len() > 0,
    {
        match self.candidates[0].content.parts[0].text {
            Some(text) => text@,
            None => Seq::empty(),
        }
    }

    /// Displays the response: the text of the first part of the first
    /// candidate, or the empty string where that part has no text.
    pub fn to_string(&self) -> (shown: String)
        requires
            self.candidates.len() > 0,
            self.candidates[0].content.parts.len() > 0,
        ensures
            shown@ == self.spec_display(),
            self.candidates[0].content.parts[0].text matches Some(t) ==> shown@ == t@,
            self.candidates[0].content.parts[0].text is None ==> shown@.len() == 0,
    {
        match &self.candidates[0].content.parts[0].text {
            Some(text) => text.clone(),
            None => String::new(),
        }
    }
}

/// A response shows the whole text of its first candidate's first part, every
/// character of it and nothing more, or nothing where that part has no text.
pub proof fn lemma_display_shows_first_text(response: Response)
    requires
        response.candidates.len() > 0,
        response.candidates[0].content.parts.len() > 0,
    ensures
        response.candidates[0].content.parts[0].text matches Some(t) ==> {
            &&& response.spec_display().len() == t@.len()
            &&& forall|i: int| 0 <= i < t@.len() ==> response.spec_display()[i] == t@[i]
        },
        response.candidates[0].content.parts[0].text is None ==> response.spec_display().len() == 0,
{
}

/// What a response shows depends on its first candidate's first part alone:
/// two responses whose first parts hold the same text show the same string,
/// whatever their other candidates, parts, finish reasons, safety ratings,
/// prompt feedback and usage metadata.
pub proof fn lemma_display_depends_on_first_part_only(a: Response, b: Response)
    requires
        a.candidates.len() > 0,
        a.candidates[0].content.parts.len() > 0,
        b.candidates.len() > 0,
        b.candidates[0].content.parts.len() > 0,
        a.candidates[0].content.parts[0].text == b.candidates[0].content.parts[0].text,
    ensures
        a.spec_display() == b.spec_display(),
{
}

/// Metadata on the generation request's token usage
///
/// [API Reference](https://ai.google.dev/api/generate-content#UsageMetadata)
#[derive(Debug)]
pub struct UsageMetadata {
    pub prompt_token_count: u64,
    pub candidates_token_count: Option<u64>,
}

/// A response candidate generated from the model
///
/// [API Reference](https://ai.google.dev/api/generate-content#candidate)
#[derive(Debug)]
pub struct Candidate {
    pub content: Content,
    pub finish_reason: Option<FinishReason>,
    pub index: Option<i32>,
    pub safety_ratings: Vec<SafetyRating>,
}

/// A set of the feedback metadata the prompt specified in the request's content.
///
/// [API Reference](https://ai.google.dev/api/generate-content#PromptFeedback)
#[derive(Debug)]
pub struct PromptFeedback {
    pub safety_ratings: Vec<SafetyRating>,
}

/// Safety rating for a piece of content
///
/// The safety rating contains the category of harm and the harm probability level in that category for a piece of content.
/// Content is classified for safety across a number of harm categories and the probability of the harm classification is included here.
///
/// [API Reference](https://ai.google.dev/api/generate-content#safetyrating)
#[derive(Debug)]
pub struct SafetyRating {
    pub category: HarmCategory,
    pub probability: HarmProbability,
    pub blocked: bool,
}

/// A call of a declared function, predicted by the model
#[derive(Debug, Clone)]
pub struct FunctionCall {
    pub id: Option<String>,
    pub name: String,
    pub args: serde_json::Value,
}

/// The base structured datatype containing multi-part content of a message
///
/// [API Reference](https://ai.google.dev/api/caching#Content)
#[derive(Debug, Clone)]
pub struct Content {
    pub role: Role,
    pub parts: Vec<Part>,
}

/// A datatype containing media that is part of a multi-part Content message
///
/// [API Reference](https://ai.google.dev/api/caching#Part)
#[derive(Debug, Clone)]
pub struct Part {
    pub text: Option<String>,
    pub inline_data: Option<InlineData>,
    pub file_data: Option<FileData>,
    pub video_metadata: Option<VideoMetadata>,
    pub executable_code: Option<ExecutableCode>,
    pub code_execution_result: Option<CodeExecutionResult>,
    pub function_call: Option<FunctionCall>,
    pub thought: Option<bool>,
    pub function_response: Option<FunctionResponse>,
}

impl Part {
    /// Whether every field of the part is absent.
    pub open spec fn spec_is_blank(self) -> bool {
        &&& self.text is None
        &&& self.inline_data is None
        &&& self.file_data is None
        &&& self.video_metadata is None
        &&& self.executable_code is None
        &&& self.code_execution_result is None
        &&& self.function_call is None
        &&& self.thought is None
        &&& self.function_response is None
    }

    /// A part that holds the text `text` and nothing else.
    pub fn text(text: &str) -> (part: Self)
        ensures
            part.text matches Some(t) && t@ == text@,
            part.inline_data is None,
            part.file_data is None,
            part.video_metadata is None,
            part.executable_code is None,
            part.code_execution_result is None,
            part.function_call is None,
            part.thought is None,
            part.function_response is None,
    {
        Self { text: Some(text.to_owned()), ..Default::default() }
    }
}

impl Default for Part {
    /// A part with every field absent.
    fn default() -> (part: Self)
        ensures
            part.spec_is_blank(),
    {
        Part {
            text: None,
            inline_data: None,
            file_data: None,
            video_metadata: None,
            executable_code: None,
            code_execution_result: None,
            function_call: None,
            thought: None,
            function_response: None,
        }
    }
}

/// Metadata for a video File
///
/// [API Reference](https://ai.google.dev/api/files#VideoFileMetadata)
#[derive(Debug, Clone)]
pub struct VideoMetadata {
    pub start_offset: StartOffset,
    pub end_offset: EndOffset,
}

/// Where a video clip ends.
#[derive(Debug, Clone)]
pub struct EndOffset {
    pub seconds: i32,
    pub nanos: i32,
}

/// Where a video clip starts.
#[derive(Debug, Clone)]
pub struct StartOffset {
    pub seconds: i32,
    pub nanos: i32,
}

/// URI based data
///
/// [API Reference](https://ai.google.dev/api/caching#FileData)
#[derive(Debug, Clone)]
pub struct FileData {
    pub mime_type: String,
    pub file_uri: String,
}

/// Inline media bytes, stored as a base64 string
///
/// [API Reference](https://ai.google.dev/api/caching#Blob)
#[derive(Debug, Clone)]
pub struct InlineData {
    pub mime_type: String,
    pub data: String,
}

/// Defines the reason why the model stopped generating tokens
///
/// [API Reference](https://ai.google.dev/api/generate-content#FinishReason)
#[derive(Debug)]
pub enum FinishReason {
    /// Default value. This value is unused.
    FinishReasonUnspecified,
    /// Natural stop point of the model or provided stop sequence
    Stop,
    /// The maximum number of tokens as specified in the request was reached
    MaxTokens,
    /// The response candidate content was flagged for safety reasons
    Safety,
    /// The response candidate content was flagged for recitation reasons
    Recitation,
    /// The response candidate content was flagged for using an unsupported language
    Language,
    /// Unknown reason
    Other,
    /// Token generation stopped because the content contains forbidden terms
    Blocklist,
    /// Token generation stopped for potentially containing prohibited content
    ProhibitedContent,
    /// Token generation stopped because the content potentially contains Sensitive Personally Identifiable Information (SPII)
    Spii,
    /// The function call generated by the model is invalid
    MalformedFunctionCall,
    /// Token generation stopped because generated images contain safety violations
    ImageSafety,
}

/// The category of a rating
///
/// These categories cover various kinds of harms that developers may wish to adjust
///
/// [API Reference](https://ai.google.dev/api/generate-content#harmcategory)
#[derive(Debug, Clone)]
pub enum HarmCategory {
    /// Category is unspecified
    HarmCategoryUnspecified,
    /// PaLM - Negative or harmful comments targeting identity and/or protected attribute
    HarmCategoryDerogatory,
    /// PaLM - Content that is rude, disrespectful, or profane
    HarmCategoryToxicity,
    /// PaLM - Describes scenarios depicting violence against an individual or group, or general descriptions of gore
    HarmCategoryViolence,
    /// PaLM - Describes scenarios depicting violence against an individual or group, or general descriptions of gore
    HarmCategorySexual,
    /// PaLM - Promotes unchecked medical advice
    HarmCategoryMedical,
    /// PaLM - Dangerous content that promotes, facilitates, or encourages harmful acts
    HarmCategoryDangerous,
    /// Gemini - Harassment content
    HarmCategoryHarassment,
    /// Gemini - Hate speech and content
    HarmCategoryHateSpeech,
    /// Gemini - Sexually explicit content
    HarmCategorySexuallyExplicit,
    /// Gemini - Dangerous content
    HarmCategoryDangerousContent,
    /// Gemini - Content that may be used to harm civic integrity
    HarmCategoryCivicIntegrity,
}

/// Block at and beyond a specified harm probability
///
/// [API Reference](https://ai.google.dev/api/generate-content#HarmBlockThreshold)
#[allow(non_camel_case_types)]
#[derive(Debug, Clone)]
pub enum HarmBlockThreshold {
    /// Threshold is unspecified
    HarmBlockThresholdUnspecified,
    /// Content with [HarmProbability::Negligible] will be allowed
    BlockLowAndAbove,
    /// Content with [HarmProbability::Negligible] and [HarmProbability::Low] will be allowed
    BlockMedAndAbove,
    /// Content with [HarmProbability::Negligible], [HarmProbability::Low], and
    /// [HarmProbability::Medium] will be allowed
    BlockOnlyHigh,
    /// All content will be allowed
    BlockNone,
    /// Turn off the safety filter
    OFF,
}

/// The probability that a piece of content is harmful
///
/// The classification system gives the probability of the content being unsafe. This does not
/// indicate the severity of harm for a piece of content.
///
/// [API Reference](https://ai.google.dev/api/generate-content#HarmProbability)
#[derive(Debug)]
pub enum HarmProbability {
    /// Probability is unspecified
    HarmProbabilityUnspecified,
    /// Content has a negligible chance of being unsafe
    Negligible,
    /// Content has a low chance of being unsafe
    Low,
    /// Content has a medium chance of being unsafe
    Medium,
    /// Content has a high chance of being unsafe
    High,
}

/// GoogleSearch tool type.
///
/// Tool to support Google Search in Model. Powered by Google.
///
/// [API Reference](https://ai.google.dev/api/caching#GoogleSearch)
#[derive(Debug, Clone)]
pub struct GoogleSearchTool {}

/// Tool that executes code generated by the model, and automatically returns the result to the model
///
/// See also [ExecutableCode] and [CodeExecutionResult] which are only generated when using this tool
///
/// [API Reference](https://ai.google.dev/api/caching#CodeExecution)
#[derive(Debug, Clone)]
pub struct CodeExecutionTool {}

/// Tool details that the model may use to generate response
///
/// A `Tool` is a piece of code that enables the system to interact with external systems to perform
/// an action, or set of actions, outside of knowledge and scope of the model.
///
/// [API Reference](https://ai.google.dev/api/caching#Tool)
#[derive(Debug, Clone)]
pub struct Tools {
    pub function_declarations: Option<Vec<FunctionDeclaration>>,
    pub google_search: Option<GoogleSearchTool>,
    pub code_execution: Option<CodeExecutionTool>,
}

/// Structured representation of a function declaration
///
/// Defined by the OpenAPI 3.03 specification.
/// `FunctionDeclaration` is a representation of a block of code that can be used in [Tools] by the model and executed by the client.
///
/// [API Reference](https://ai.google.dev/api/caching#FunctionDeclaration)
#[derive(Debug, Clone)]
pub struct FunctionDeclaration {
    pub name: String,
    pub description: String,
    /// Defines the input parameters the function expects
    ///
    /// Use the [API Reference](https://ai.google.dev/gemini-api/docs/function-calling#function_declarations)
    /// to see how to structure the parameters.
    pub parameters: serde_json::Value,
}

/// Request to generate content from the model
///
/// [API Reference](https://ai.google.dev/api/generate-content#request-body)
#[derive(Debug)]
pub struct GenerateContent {
    pub contents: Vec<Content>,
    pub tools: Vec<Tools>,
    pub tool_config: Option<ToolConfig>,
    pub safety_settings: Vec<SafetySettings>,
    pub system_instruction: Option<SystemInstructionContent>,
    pub generation_config: Option<GenerationConfig>,
}

impl Default for GenerateContent {
    /// A request with no contents, tools, settings or configuration.
    fn default() -> (request: Self)
        ensures
            request.contents@ == Seq::<Content>::empty(),
            request.tools@ == Seq::<Tools>::empty(),
            request.tool_config is None,
            request.safety_settings@ == Seq::<SafetySettings>::empty(),
            request.system_instruction is None,
            request.generation_config is None,
    {
        GenerateContent {
            contents: Vec::new(),
            tools: Vec::new(),
            tool_config: None,
            safety_settings: Vec::new(),
            system_instruction: None,
            generation_config: None,
        }
    }
}

/// System instructions are used to provide the model with additional context or instructions
///
/// Similar to the [Content] struct, but specifically for system instructions.
#[derive(Debug, Clone)]
pub struct SystemInstructionContent {
    pub parts: Vec<SystemInstructionPart>,
}

/// A part of the system instruction content
#[derive(Debug, Clone)]
pub struct SystemInstructionPart {
    pub text: Option<String>,
}

/// Configuration options for model generation and outputs.
///
/// Not all parameters are configurable for every model.
/// `temperature` and `top_p` are 32-bit floats on the wire; they are held here
/// as their IEEE 754 binary32 bit patterns.
///
/// [API Reference](https://ai.google.dev/api/generate-content#v1beta.GenerationConfig)
#[derive(Debug)]
pub struct GenerationConfig {
    pub temperature: Option<u32>,
    pub top_p: Option<u32>,
    pub top_k: Option<i32>,
    pub candidate_count: Option<i32>,
    pub max_output_tokens: Option<i32>,
    pub stop_sequences: Option<Vec<String>>,
    pub response_mime_type: Option<String>,
    pub response_schema: Option<Schema>,
    pub thinking_config: Option<ThinkingConfig>,
}

impl Default for GenerationConfig {
    /// A configuration that sets no option.
    fn default() -> (config: Self)
        ensures
            config.temperature is None,
            config.top_p is None,
            config.top_k is None,
            config.candidate_count is None,
            config.max_output_tokens is None,
            config.stop_sequences is None,
            config.response_mime_type is None,
            config.response_schema is None,
            config.thinking_config is None,
    {
        GenerationConfig {
            temperature: None,
            top_p: None,
            top_k: None,
            candidate_count: None,
            max_output_tokens: None,
            stop_sequences: None,
            response_mime_type: None,
            response_schema: None,
            thinking_config: None,
        }
    }
}

/// Config for thinking features
///
/// [API Reference](https://ai.google.dev/api/generate-content#ThinkingConfig)
#[derive(Debug, Clone)]
pub struct ThinkingConfig {
    /// Between 0 and 24576 tokens.
    pub thinking_budget: Option<u16>,
    pub include_thoughts: Option<bool>,
}

impl Default for ThinkingConfig {
    /// A configuration that sets neither a budget nor whether thoughts are included.
    fn default() -> (config: Self)
        ensures
            config.thinking_budget is None,
            config.include_thoughts is None,
    {
        ThinkingConfig { thinking_budget: None, include_thoughts: None }
    }
}

/// Safety setting, affecting the safety-blocking behavior
///
/// Passing a safety setting for a category changes the allowed probability that content is blocked.
///
/// [API Reference](https://ai.google.dev/api/generate-content#safetysetting)
#[derive(Debug, Clone)]
pub struct SafetySettings {
    pub category: HarmCategory,
    pub threshold: HarmBlockThreshold,
}

/// The Schema object allows the definition of input and output data types.
///
/// These types can be objects, but also primitives and arrays.
/// Represents a select subset of an [OpenAPI 3.0 schema
/// object](https://spec.openapis.org/oas/v3.0.3#schema).
///
/// [API Reference](https://ai.google.dev/api/caching#Schema)
#[derive(Debug)]
pub struct Schema {
    pub schema_type: Option<Type>,
    pub format: Option<String>,
    pub title: Option<String>,
    pub description: Option<String>,
    pub nullable: Option<bool>,
    pub enum_values: Option<Vec<String>>,
    pub max_items: Option<String>,
    pub min_items: Option<String>,
    pub properties: Option<BTreeMap<String, Schema>>,
    pub required: Option<Vec<String>>,
    pub property_ordering: Option<Vec<String>>,
    pub items: Option<Box<Schema>>,
}

impl Default for Schema {
    /// A schema that constrains nothing.
    fn default() -> (schema: Self)
        ensures
            schema.schema_type is None,
            schema.format is None,
            schema.title is None,
            schema.description is None,
            schema.nullable is None,
            schema.enum_values is None,
            schema.max_items is None,
            schema.min_items is None,
            schema.properties is None,
            schema.required is None,
            schema.property_ordering is None,
            schema.items is None,
    {
        Schema {
            schema_type: None,
            format: None,
            title: None,
            description: None,
            nullable: None,
            enum_values: None,
            max_items: None,
            min_items: None,
            properties: None,
            required: None,
            property_ordering: None,
            items: None,
        }
    }
}

/// The Tool configuration containing parameters for specifying [Tools] use in the request
///
/// [API Reference](https://ai.google.dev/api/caching#ToolConfig)
#[derive(Debug, Clone)]
pub struct ToolConfig {
    pub function_calling_config: Option<FunctionCallingConfig>,
}

/// Configuration for specifying function calling behavior
///
/// [API Reference](https://ai.google.dev/api/caching#FunctionCallingConfig)
#[derive(Debug, Clone)]
pub struct FunctionCallingConfig {
    pub mode: Option<FunctionCallingMode>,
    pub allowed_function_names: Option<Vec<String>>,
}

/// Defines the execution behavior for function calling by defining the execution mode
///
/// [API Reference](https://ai.google.dev/api/caching#Mode_1)
#[derive(Debug, Clone)]
pub enum FunctionCallingMode {
    /// Unspecified function calling mode. This value should not be used.
    ModeUnspecified,
    /// Default model behavior, model decides to predict either a function call or a natural language response.
    Auto,
    /// Model is constrained to always predicting a function call only. If "allowedFunctionNames" are set, the predicted function call will be limited to any one of "allowedFunctionNames", else the predicted function call will be any one of the provided "functionDeclarations".
    Any,
    /// Model will not predict any function call. Model behavior is same as when not passing any function declarations.
    /// Sent as `NONE` on the wire.
    NoneMode,
    /// Model decides to predict either a function call or a natural language response, but will validate function calls with constrained decoding.
    Validated,
}

/// Code generated by the model that is meant to be executed, and the result returned to the model
///
/// Only generated when using the [CodeExecutionTool] tool, in which the code will be automatically executed, and a corresponding [CodeExecutionResult] will also be generated.
#[derive(Debug, Clone)]
pub struct ExecutableCode {
    pub language: ProgrammingLanguage,
    pub code: String,
}

/// Supported programming languages for the generated code
///
/// [API Reference](https://ai.google.dev/api/caching#Language)
#[derive(Debug, Clone)]
pub enum ProgrammingLanguage {
    /// Unspecified language. This value should not be used.
    LanguageUnspecified,
    /// Python >= 3.10, with numpy and simpy available.
    Python,
}

/// Enumeration of possible outcomes of the [CodeExecutionTool]
///
/// [API Reference](https://ai.google.dev/api/caching#Outcome)
#[derive(Debug, Clone)]
pub enum Outcome {
    /// Unspecified status. This value should not be used.
    OutcomeUnspecified,
    /// Code execution completed successfully.
    OutcomeOk,
    /// Code execution finished but with a failure. stderr should contain the reason.
    OutcomeError,
    /// Code execution ran for too long, and was cancelled. There may or may not be a partial output present.
    OutcomeDeadlineExceeded,
}

/// The result output from a [FunctionCall]
///
/// [API Reference](https://ai.google.dev/api/caching#FunctionResponse)
#[derive(Debug, Clone)]
pub struct FunctionResponse {
    pub id: Option<String>,
    pub name: String,
    /// The function response in JSON object format.
    pub response: serde_json::Value,
}

/// Result of executing the [ExecutableCode]
///
/// [API Reference](https://ai.google.dev/api/caching#CodeExecutionResult)
#[derive(Debug, Clone)]
pub struct CodeExecutionResult {
    pub outcome: Outcome,
    pub output: Option<String>,
}

/// Definitions of the types of data that can be used in [Schema]
#[derive(Debug, Clone, Copy)]
pub enum Type {
    Object,
    Array,
    String,
    Integer,
    Number,
    Boolean,
}

} // verus!
