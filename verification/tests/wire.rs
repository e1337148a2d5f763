use gemini_types::types::{
    FinishReason, FunctionCallingMode, HarmBlockThreshold, HarmCategory, HarmProbability, Outcome,
    ProgrammingLanguage, Role, Status, Type,
};
use gemini_types::wire::{str_equal, WireName};

#[test]
fn role_wire_names() {
    assert_eq!(Role::User.wire_name(), "user");
    assert_eq!(Role::Model.wire_name(), "model");
    assert_eq!(Role::Function.wire_name(), "function");
}

#[test]
fn role_wire_names_read_back() {
    assert!(matches!(Role::from_wire_name("user"), Some(Role::User)));
    assert!(matches!(Role::from_wire_name("model"), Some(Role::Model)));
    assert!(matches!(Role::from_wire_name("function"), Some(Role::Function)));
}

#[test]
fn role_rejects_other_names() {
    assert!(Role::from_wire_name("").is_none());
    assert!(Role::from_wire_name("USER").is_none());
    assert!(Role::from_wire_name("Userx").is_none());
    assert!(Role::from_wire_name("user ").is_none());
}

#[test]
fn status_wire_names() {
    assert_eq!(Status::InvalidArgument.wire_name(), "INVALID_ARGUMENT");
    assert_eq!(Status::FailedPrecondition.wire_name(), "FAILED_PRECONDITION");
    assert_eq!(Status::PermissionDenied.wire_name(), "PERMISSION_DENIED");
    assert_eq!(Status::NotFound.wire_name(), "NOT_FOUND");
    assert_eq!(Status::ResourceExhausted.wire_name(), "RESOURCE_EXHAUSTED");
    assert_eq!(Status::Internal.wire_name(), "INTERNAL");
    assert_eq!(Status::Unavailable.wire_name(), "UNAVAILABLE");
    assert_eq!(Status::DeadlineExceeded.wire_name(), "DEADLINE_EXCEEDED");
}

#[test]
fn status_wire_names_read_back() {
    assert!(matches!(Status::from_wire_name("INVALID_ARGUMENT"), Some(Status::InvalidArgument)));
    assert!(matches!(Status::from_wire_name("FAILED_PRECONDITION"), Some(Status::FailedPrecondition)));
    assert!(matches!(Status::from_wire_name("PERMISSION_DENIED"), Some(Status::PermissionDenied)));
    assert!(matches!(Status::from_wire_name("NOT_FOUND"), Some(Status::NotFound)));
    assert!(matches!(Status::from_wire_name("RESOURCE_EXHAUSTED"), Some(Status::ResourceExhausted)));
    assert!(matches!(Status::from_wire_name("INTERNAL"), Some(Status::Internal)));
    assert!(matches!(Status::from_wire_name("UNAVAILABLE"), Some(Status::Unavailable)));
    assert!(matches!(Status::from_wire_name("DEADLINE_EXCEEDED"), Some(Status::DeadlineExceeded)));
}

#[test]
fn status_rejects_other_names() {
    assert!(Status::from_wire_name("").is_none());
    assert!(Status::from_wire_name("invalid_argument").is_none());
    assert!(Status::from_wire_name("InvalidArgumentx").is_none());
    assert!(Status::from_wire_name("INVALID_ARGUMENT ").is_none());
}

#[test]
fn finish_reason_wire_names() {
    assert_eq!(FinishReason::FinishReasonUnspecified.wire_name(), "FINISH_REASON_UNSPECIFIED");
    assert_eq!(FinishReason::Stop.wire_name(), "STOP");
    assert_eq!(FinishReason::MaxTokens.wire_name(), "MAX_TOKENS");
    assert_eq!(FinishReason::Safety.wire_name(), "SAFETY");
    assert_eq!(FinishReason::Recitation.wire_name(), "RECITATION");
    assert_eq!(FinishReason::Language.wire_name(), "LANGUAGE");
    assert_eq!(FinishReason::Other.wire_name(), "OTHER");
    assert_eq!(FinishReason::Blocklist.wire_name(), "BLOCKLIST");
    assert_eq!(FinishReason::ProhibitedContent.wire_name(), "PROHIBITED_CONTENT");
    assert_eq!(FinishReason::Spii.wire_name(), "SPII");
    assert_eq!(FinishReason::MalformedFunctionCall.wire_name(), "MALFORMED_FUNCTION_CALL");
    assert_eq!(FinishReason::ImageSafety.wire_name(), "IMAGE_SAFETY");
}

#[test]
fn finish_reason_wire_names_read_back() {
    assert!(matches!(FinishReason::from_wire_name("FINISH_REASON_UNSPECIFIED"), Some(FinishReason::FinishReasonUnspecified)));
    assert!(matches!(FinishReason::from_wire_name("STOP"), Some(FinishReason::Stop)));
    assert!(matches!(FinishReason::from_wire_name("MAX_TOKENS"), Some(FinishReason::MaxTokens)));
    assert!(matches!(FinishReason::from_wire_name("SAFETY"), Some(FinishReason::Safety)));
    assert!(matches!(FinishReason::from_wire_name("RECITATION"), Some(FinishReason::Recitation)));
    assert!(matches!(FinishReason::from_wire_name("LANGUAGE"), Some(FinishReason::Language)));
    assert!(matches!(FinishReason::from_wire_name("OTHER"), Some(FinishReason::Other)));
    assert!(matches!(FinishReason::from_wire_name("BLOCKLIST"), Some(FinishReason::Blocklist)));
    assert!(matches!(FinishReason::from_wire_name("PROHIBITED_CONTENT"), Some(FinishReason::ProhibitedContent)));
    assert!(matches!(FinishReason::from_wire_name("SPII"), Some(FinishReason::Spii)));
    assert!(matches!(FinishReason::from_wire_name("MALFORMED_FUNCTION_CALL"), Some(FinishReason::MalformedFunctionCall)));
    assert!(matches!(FinishReason::from_wire_name("IMAGE_SAFETY"), Some(FinishReason::ImageSafety)));
}

#[test]
fn finish_reason_rejects_other_names() {
    assert!(FinishReason::from_wire_name("").is_none());
    assert!(FinishReason::from_wire_name("finish_reason_unspecified").is_none());
    assert!(FinishReason::from_wire_name("FinishReasonUnspecifiedx").is_none());
    assert!(FinishReason::from_wire_name("FINISH_REASON_UNSPECIFIED ").is_none());
}

#[test]
fn harm_category_wire_names() {
    assert_eq!(HarmCategory::HarmCategoryUnspecified.wire_name(), "HARM_CATEGORY_UNSPECIFIED");
    assert_eq!(HarmCategory::HarmCategoryDerogatory.wire_name(), "HARM_CATEGORY_DEROGATORY");
    assert_eq!(HarmCategory::HarmCategoryToxicity.wire_name(), "HARM_CATEGORY_TOXICITY");
    assert_eq!(HarmCategory::HarmCategoryViolence.wire_name(), "HARM_CATEGORY_VIOLENCE");
    assert_eq!(HarmCategory::HarmCategorySexual.wire_name(), "HARM_CATEGORY_SEXUAL");
    assert_eq!(HarmCategory::HarmCategoryMedical.wire_name(), "HARM_CATEGORY_MEDICAL");
    assert_eq!(HarmCategory::HarmCategoryDangerous.wire_name(), "HARM_CATEGORY_DANGEROUS");
    assert_eq!(HarmCategory::HarmCategoryHarassment.wire_name(), "HARM_CATEGORY_HARASSMENT");
    assert_eq!(HarmCategory::HarmCategoryHateSpeech.wire_name(), "HARM_CATEGORY_HATE_SPEECH");
    assert_eq!(HarmCategory::HarmCategorySexuallyExplicit.wire_name(), "HARM_CATEGORY_SEXUALLY_EXPLICIT");
    assert_eq!(HarmCategory::HarmCategoryDangerousContent.wire_name(), "HARM_CATEGORY_DANGEROUS_CONTENT");
    assert_eq!(HarmCategory::HarmCategoryCivicIntegrity.wire_name(), "HARM_CATEGORY_CIVIC_INTEGRITY");
}

#[test]
fn harm_category_wire_names_read_back() {
    assert!(matches!(HarmCategory::from_wire_name("HARM_CATEGORY_UNSPECIFIED"), Some(HarmCategory::HarmCategoryUnspecified)));
    assert!(matches!(HarmCategory::from_wire_name("HARM_CATEGORY_DEROGATORY"), Some(HarmCategory::HarmCategoryDerogatory)));
    assert!(matches!(HarmCategory::from_wire_name("HARM_CATEGORY_TOXICITY"), Some(HarmCategory::HarmCategoryToxicity)));
    assert!(matches!(HarmCategory::from_wire_name("HARM_CATEGORY_VIOLENCE"), Some(HarmCategory::HarmCategoryViolence)));
    assert!(matches!(HarmCategory::from_wire_name("HARM_CATEGORY_SEXUAL"), Some(HarmCategory::HarmCategorySexual)));
    assert!(matches!(HarmCategory::from_wire_name("HARM_CATEGORY_MEDICAL"), Some(HarmCategory::HarmCategoryMedical)));
    assert!(matches!(HarmCategory::from_wire_name("HARM_CATEGORY_DANGEROUS"), Some(HarmCategory::HarmCategoryDangerous)));
    assert!(matches!(HarmCategory::from_wire_name("HARM_CATEGORY_HARASSMENT"), Some(HarmCategory::HarmCategoryHarassment)));
    assert!(matches!(HarmCategory::from_wire_name("HARM_CATEGORY_HATE_SPEECH"), Some(HarmCategory::HarmCategoryHateSpeech)));
    assert!(matches!(HarmCategory::from_wire_name("HARM_CATEGORY_SEXUALLY_EXPLICIT"), Some(HarmCategory::HarmCategorySexuallyExplicit)));
    assert!(matches!(HarmCategory::from_wire_name("HARM_CATEGORY_DANGEROUS_CONTENT"), Some(HarmCategory::HarmCategoryDangerousContent)));
    assert!(matches!(HarmCategory::from_wire_name("HARM_CATEGORY_CIVIC_INTEGRITY"), Some(HarmCategory::HarmCategoryCivicIntegrity)));
}

#[test]
fn harm_category_rejects_other_names() {
    assert!(HarmCategory::from_wire_name("").is_none());
    assert!(HarmCategory::from_wire_name("harm_category_unspecified").is_none());
    assert!(HarmCategory::from_wire_name("HarmCategoryUnspecifiedx").is_none());
    assert!(HarmCategory::from_wire_name("HARM_CATEGORY_UNSPECIFIED ").is_none());
}

#[test]
fn harm_block_threshold_wire_names() {
    assert_eq!(HarmBlockThreshold::HarmBlockThresholdUnspecified.wire_name(), "HARM_BLOCK_THRESHOLD_UNSPECIFIED");
    assert_eq!(HarmBlockThreshold::BlockLowAndAbove.wire_name(), "BLOCK_LOW_AND_ABOVE");
    assert_eq!(HarmBlockThreshold::BlockMedAndAbove.wire_name(), "BLOCK_MED_AND_ABOVE");
    assert_eq!(HarmBlockThreshold::BlockOnlyHigh.wire_name(), "BLOCK_ONLY_HIGH");
    assert_eq!(HarmBlockThreshold::BlockNone.wire_name(), "BLOCK_NONE");
    assert_eq!(HarmBlockThreshold::OFF.wire_name(), "O_F_F");
}

#[test]
fn harm_block_threshold_wire_names_read_back() {
    assert!(matches!(HarmBlockThreshold::from_wire_name("HARM_BLOCK_THRESHOLD_UNSPECIFIED"), Some(HarmBlockThreshold::HarmBlockThresholdUnspecified)));
    assert!(matches!(HarmBlockThreshold::from_wire_name("BLOCK_LOW_AND_ABOVE"), Some(HarmBlockThreshold::BlockLowAndAbove)));
    assert!(matches!(HarmBlockThreshold::from_wire_name("BLOCK_MED_AND_ABOVE"), Some(HarmBlockThreshold::BlockMedAndAbove)));
    assert!(matches!(HarmBlockThreshold::from_wire_name("BLOCK_ONLY_HIGH"), Some(HarmBlockThreshold::BlockOnlyHigh)));
    assert!(matches!(HarmBlockThreshold::from_wire_name("BLOCK_NONE"), Some(HarmBlockThreshold::BlockNone)));
    assert!(matches!(HarmBlockThreshold::from_wire_name("O_F_F"), Some(HarmBlockThreshold::OFF)));
}

#[test]
fn harm_block_threshold_rejects_other_names() {
    assert!(HarmBlockThreshold::from_wire_name("").is_none());
    assert!(HarmBlockThreshold::from_wire_name("harm_block_threshold_unspecified").is_none());
    assert!(HarmBlockThreshold::from_wire_name("HarmBlockThresholdUnspecifiedx").is_none());
    assert!(HarmBlockThreshold::from_wire_name("HARM_BLOCK_THRESHOLD_UNSPECIFIED ").is_none());
}

#[test]
fn harm_probability_wire_names() {
    assert_eq!(HarmProbability::HarmProbabilityUnspecified.wire_name(), "HARM_PROBABILITY_UNSPECIFIED");
    assert_eq!(HarmProbability::Negligible.wire_name(), "NEGLIGIBLE");
    assert_eq!(HarmProbability::Low.wire_name(), "LOW");
    assert_eq!(HarmProbability::Medium.wire_name(), "MEDIUM");
    assert_eq!(HarmProbability::High.wire_name(), "HIGH");
}

#[test]
fn harm_probability_wire_names_read_back() {
    assert!(matches!(HarmProbability::from_wire_name("HARM_PROBABILITY_UNSPECIFIED"), Some(HarmProbability::HarmProbabilityUnspecified)));
    assert!(matches!(HarmProbability::from_wire_name("NEGLIGIBLE"), Some(HarmProbability::Negligible)));
    assert!(matches!(HarmProbability::from_wire_name("LOW"), Some(HarmProbability::Low)));
    assert!(matches!(HarmProbability::from_wire_name("MEDIUM"), Some(HarmProbability::Medium)));
    assert!(matches!(HarmProbability::from_wire_name("HIGH"), Some(HarmProbability::High)));
}

#[test]
fn harm_probability_rejects_other_names() {
    assert!(HarmProbability::from_wire_name("").is_none());
    assert!(HarmProbability::from_wire_name("harm_probability_unspecified").is_none());
    assert!(HarmProbability::from_wire_name("HarmProbabilityUnspecifiedx").is_none());
    assert!(HarmProbability::from_wire_name("HARM_PROBABILITY_UNSPECIFIED ").is_none());
}

#[test]
fn function_calling_mode_wire_names() {
    assert_eq!(FunctionCallingMode::ModeUnspecified.wire_name(), "MODE_UNSPECIFIED");
    assert_eq!(FunctionCallingMode::Auto.wire_name(), "AUTO");
    assert_eq!(FunctionCallingMode::Any.wire_name(), "ANY");
    assert_eq!(FunctionCallingMode::NoneMode.wire_name(), "NONE");
    assert_eq!(FunctionCallingMode::Validated.wire_name(), "VALIDATED");
}

#[test]
fn function_calling_mode_wire_names_read_back() {
    assert!(matches!(FunctionCallingMode::from_wire_name("MODE_UNSPECIFIED"), Some(FunctionCallingMode::ModeUnspecified)));
    assert!(matches!(FunctionCallingMode::from_wire_name("AUTO"), Some(FunctionCallingMode::Auto)));
    assert!(matches!(FunctionCallingMode::from_wire_name("ANY"), Some(FunctionCallingMode::Any)));
    assert!(matches!(FunctionCallingMode::from_wire_name("NONE"), Some(FunctionCallingMode::NoneMode)));
    assert!(matches!(FunctionCallingMode::from_wire_name("VALIDATED"), Some(FunctionCallingMode::Validated)));
}

#[test]
fn function_calling_mode_rejects_other_names() {
    assert!(FunctionCallingMode::from_wire_name("").is_none());
    assert!(FunctionCallingMode::from_wire_name("mode_unspecified").is_none());
    assert!(FunctionCallingMode::from_wire_name("ModeUnspecifiedx").is_none());
    assert!(FunctionCallingMode::from_wire_name("MODE_UNSPECIFIED ").is_none());
}

#[test]
fn programming_language_wire_names() {
    assert_eq!(ProgrammingLanguage::LanguageUnspecified.wire_name(), "LANGUAGE_UNSPECIFIED");
    assert_eq!(ProgrammingLanguage::Python.wire_name(), "PYTHON");
}

#[test]
fn programming_language_wire_names_read_back() {
    assert!(matches!(ProgrammingLanguage::from_wire_name("LANGUAGE_UNSPECIFIED"), Some(ProgrammingLanguage::LanguageUnspecified)));
    assert!(matches!(ProgrammingLanguage::from_wire_name("PYTHON"), Some(ProgrammingLanguage::Python)));
}

#[test]
fn programming_language_rejects_other_names() {
    assert!(ProgrammingLanguage::from_wire_name("").is_none());
    assert!(ProgrammingLanguage::from_wire_name("language_unspecified").is_none());
    assert!(ProgrammingLanguage::from_wire_name("LanguageUnspecifiedx").is_none());
    assert!(ProgrammingLanguage::from_wire_name("LANGUAGE_UNSPECIFIED ").is_none());
}

#[test]
fn outcome_wire_names() {
    assert_eq!(Outcome::OutcomeUnspecified.wire_name(), "OUTCOME_UNSPECIFIED");
    assert_eq!(Outcome::OutcomeOk.wire_name(), "OUTCOME_OK");
    assert_eq!(Outcome::OutcomeError.wire_name(), "OUTCOME_ERROR");
    assert_eq!(Outcome::OutcomeDeadlineExceeded.wire_name(), "OUTCOME_DEADLINE_EXCEEDED");
}

#[test]
fn outcome_wire_names_read_back() {
    assert!(matches!(Outcome::from_wire_name("OUTCOME_UNSPECIFIED"), Some(Outcome::OutcomeUnspecified)));
    assert!(matches!(Outcome::from_wire_name("OUTCOME_OK"), Some(Outcome::OutcomeOk)));
    assert!(matches!(Outcome::from_wire_name("OUTCOME_ERROR"), Some(Outcome::OutcomeError)));
    assert!(matches!(Outcome::from_wire_name("OUTCOME_DEADLINE_EXCEEDED"), Some(Outcome::OutcomeDeadlineExceeded)));
}

#[test]
fn outcome_rejects_other_names() {
    assert!(Outcome::from_wire_name("").is_none());
    assert!(Outcome::from_wire_name("outcome_unspecified").is_none());
    assert!(Outcome::from_wire_name("OutcomeUnspecifiedx").is_none());
    assert!(Outcome::from_wire_name("OUTCOME_UNSPECIFIED ").is_none());
}

#[test]
fn type_wire_names() {
    assert_eq!(Type::Object.wire_name(), "object");
    assert_eq!(Type::Array.wire_name(), "array");
    assert_eq!(Type::String.wire_name(), "string");
    assert_eq!(Type::Integer.wire_name(), "integer");
    assert_eq!(Type::Number.wire_name(), "number");
    assert_eq!(Type::Boolean.wire_name(), "boolean");
}

#[test]
fn type_wire_names_read_back() {
    assert!(matches!(Type::from_wire_name("object"), Some(Type::Object)));
    assert!(matches!(Type::from_wire_name("array"), Some(Type::Array)));
    assert!(matches!(Type::from_wire_name("string"), Some(Type::String)));
    assert!(matches!(Type::from_wire_name("integer"), Some(Type::Integer)));
    assert!(matches!(Type::from_wire_name("number"), Some(Type::Number)));
    assert!(matches!(Type::from_wire_name("boolean"), Some(Type::Boolean)));
}

#[test]
fn type_rejects_other_names() {
    assert!(Type::from_wire_name("").is_none());
    assert!(Type::from_wire_name("OBJECT").is_none());
    assert!(Type::from_wire_name("Objectx").is_none());
    assert!(Type::from_wire_name("object ").is_none());
}

#[test]
fn off_threshold_follows_the_renaming_rule() {
    assert_eq!(HarmBlockThreshold::OFF.wire_name(), "O_F_F");
    assert!(HarmBlockThreshold::from_wire_name("OFF").is_none());
}

#[test]
fn none_mode_is_sent_as_none() {
    assert_eq!(FunctionCallingMode::NoneMode.wire_name(), "NONE");
    assert!(matches!(FunctionCallingMode::from_wire_name("NONE"), Some(FunctionCallingMode::NoneMode)));
}

#[test]
fn str_equal_compares_characters() {
    assert!(str_equal("", ""));
    assert!(str_equal("model", "model"));
    assert!(!str_equal("model", "Model"));
    assert!(!str_equal("model", "models"));
    assert!(!str_equal("é", "e"));
    assert!(str_equal("世界", "世界"));
}
