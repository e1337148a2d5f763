//! The names that enumeration values take on the JSON wire.
//!
//! Each enumeration is written as a JSON string: the identifier of the value,
//! renamed by the enumeration's rule (all lower case, or SCREAMING_SNAKE_CASE,
//! in which an underscore goes before every capital letter but the first and
//! every letter is upper case; so `BlockLowAndAbove` becomes
//! `BLOCK_LOW_AND_ABOVE` and `OFF` becomes `O_F_F`).

use vstd::prelude::*;

use crate::types::{
    FinishReason, FunctionCallingMode, HarmBlockThreshold, HarmCategory, HarmProbability, Outcome,
    ProgrammingLanguage, Role, Status, Type,
};

verus! {

/// Whether `c` is an ASCII capital letter.
pub open spec fn is_ascii_upper(c: char) -> bool {
    'A' <= c && c <= 'Z'
}

/// `c` in upper case, where it is an ASCII letter; `c` itself otherwise.
pub open spec fn ascii_upper(c: char) -> char {
    if 'a' <= c && c <= 'z' {
        ((c as u32) - 32) as char
    } else {
        c
    }
}

/// `c` in lower case, where it is an ASCII letter; `c` itself otherwise.
pub open spec fn ascii_lower(c: char) -> char {
    if 'A' <= c && c <= 'Z' {
        ((c as u32) + 32) as char
    } else {
        c
    }
}

/// Every character of `identifier` in lower case.
pub open spec fn lower_case(identifier: Seq<char>) -> Seq<char> {
    identifier.map_values(|c: char| ascii_lower(c))
}

/// The SCREAMING_SNAKE_CASE rendering of `rest`, a tail of an identifier that
/// is the whole identifier where `at_start` holds: each capital letter but the
/// identifier's first character takes an underscore before it, and every
/// letter is put in upper case.
pub open spec fn screaming_snake_case_from(rest: Seq<char>, at_start: bool) -> Seq<char>
    decreases rest.len(),
{
    if rest.len() == 0 {
        Seq::empty()
    } else {
        let c = rest[0];
        let head = if !at_start && is_ascii_upper(c) {
            seq!['_', ascii_upper(c)]
        } else {
            seq![ascii_upper(c)]
        };
        head + screaming_snake_case_from(rest.drop_first(), false)
    }
}

/// The SCREAMING_SNAKE_CASE rendering of `identifier`.
pub open spec fn screaming_snake_case(identifier: Seq<char>) -> Seq<char> {
    screaming_snake_case_from(identifier, true)
}

/// Whether two strings hold the same characters.
pub fn str_equal(a: &str, b: &str) -> (equal: bool)
    ensures
        equal == (a@ == b@),
{
    let n = a.unicode_len();
    if n != b.unicode_len() {
        return false;
    }
    let mut i: usize = 0;
    while i < n
        invariant
            n == a@.len(),
            n == b@.len(),
            i <= n,
            forall|j: int| 0 <= j < i ==> a@[j] == b@[j],
        decreases n - i,
    {
        if a.get_char(i) != b.get_char(i) {
            return false;
        }
        i = i + 1;
    }
    assert(a@ =~= b@);
    true
}

/// An enumeration whose values travel as fixed names on the JSON wire.
pub trait WireName: Sized {
    /// The identifier of the value in the API's own spelling.
    spec fn spec_identifier(self) -> Seq<char>;

    /// The rule by which the enumeration renames identifiers for the wire.
    spec fn spec_rename(identifier: Seq<char>) -> Seq<char>;

    /// The name that `self` takes on the wire.
    spec fn spec_wire_name(self) -> Seq<char>;

    /// The value whose wire name is `name`, if there is one.
    spec fn spec_from_wire_name(name: Seq<char>) -> Option<Self>;

    /// The name that `self` takes on the wire.
    fn wire_name(&self) -> (name: &'static str)
        ensures
            name@ == self.spec_wire_name(),
    ;

    /// Reads a wire name back; `None` for a string that names no value.
    fn from_wire_name(name: &str) -> (value: Option<Self>)
        ensures
            value == Self::spec_from_wire_name(name@),
    ;

    /// The wire name of every value is its identifier renamed by the
    /// enumeration's rule.
    proof fn lemma_wire_name_renames_identifier(value: Self)
        ensures
            value.spec_wire_name() == Self::spec_rename(value.spec_identifier()),
    ;

    /// Reading a name back gives `value` exactly when the name is that of `value`:
    /// a written name reads back as the value it was written from, and no
    /// other string reads as any value.
    proof fn lemma_wire_name_inverse(value: Self, name: Seq<char>)
        ensures
            Self::spec_from_wire_name(name) == Some(value) <==> name == value.spec_wire_name(),
    ;
}

/// Different values of an enumeration never share a wire name.
pub proof fn lemma_wire_names_distinct<T: WireName>(a: T, b: T)
    ensures
        a.spec_wire_name() == b.spec_wire_name() ==> a == b,
{
    T::lemma_wire_name_inverse(a, b.spec_wire_name());
    T::lemma_wire_name_inverse(b, b.spec_wire_name());
}

impl WireName for Role {
    open spec fn spec_identifier(self) -> Seq<char> {
        match self {
            Role::User => "User"@,
            Role::Model => "Model"@,
            Role::Function => "Function"@,
        }
    }

    open spec fn spec_rename(identifier: Seq<char>) -> Seq<char> {
        lower_case(identifier)
    }

    open spec fn spec_wire_name(self) -> Seq<char> {
        match self {
            Role::User => "user"@,
            Role::Model => "model"@,
            Role::Function => "function"@,
        }
    }

    open spec fn spec_from_wire_name(name: Seq<char>) -> Option<Self> {
        if name == "user"@ {
            Some(Role::User)
        } else if name == "model"@ {
            Some(Role::Model)
        } else if name == "function"@ {
            Some(Role::Function)
        } else {
            None
        }
    }

    fn wire_name(&self) -> (name: &'static str) {
        match self {
            Role::User => "user",
            Role::Model => "model",
            Role::Function => "function",
        }
    }

    fn from_wire_name(name: &str) -> (value: Option<Self>) {
        if str_equal(name, "user") {
            Some(Role::User)
        } else if str_equal(name, "model") {
            Some(Role::Model)
        } else if str_equal(name, "function") {
            Some(Role::Function)
        } else {
            None
        }
    }

    proof fn lemma_wire_name_renames_identifier(value: Self) {
        match value {
            Role::User => lemma_role_user_renamed(),
            Role::Model => lemma_role_model_renamed(),
            Role::Function => lemma_role_function_renamed(),
        }
    }

    proof fn lemma_wire_name_inverse(value: Self, name: Seq<char>) {
        reveal_strlit("user");
        reveal_strlit("model");
        reveal_strlit("function");
        assert("user"@.len() == 4);
        assert("model"@.len() == 5);
        assert("function"@.len() == 8);
    }
}

impl WireName for Status {
    open spec fn spec_identifier(self) -> Seq<char> {
        match self {
            Status::InvalidArgument => "InvalidArgument"@,
            Status::FailedPrecondition => "FailedPrecondition"@,
            Status::PermissionDenied => "PermissionDenied"@,
            Status::NotFound => "NotFound"@,
            Status::ResourceExhausted => "ResourceExhausted"@,
            Status::Internal => "Internal"@,
            Status::Unavailable => "Unavailable"@,
            Status::DeadlineExceeded => "DeadlineExceeded"@,
        }
    }

    open spec fn spec_rename(identifier: Seq<char>) -> Seq<char> {
        screaming_snake_case(identifier)
    }

    open spec fn spec_wire_name(self) -> Seq<char> {
        match self {
            Status::InvalidArgument => "INVALID_ARGUMENT"@,
            Status::FailedPrecondition => "FAILED_PRECONDITION"@,
            Status::PermissionDenied => "PERMISSION_DENIED"@,
            Status::NotFound => "NOT_FOUND"@,
            Status::ResourceExhausted => "RESOURCE_EXHAUSTED"@,
            Status::Internal => "INTERNAL"@,
            Status::Unavailable => "UNAVAILABLE"@,
            Status::DeadlineExceeded => "DEADLINE_EXCEEDED"@,
        }
    }

    open spec fn spec_from_wire_name(name: Seq<char>) -> Option<Self> {
        if name == "INVALID_ARGUMENT"@ {
            Some(Status::InvalidArgument)
        } else if name == "FAILED_PRECONDITION"@ {
            Some(Status::FailedPrecondition)
        } else if name == "PERMISSION_DENIED"@ {
            Some(Status::PermissionDenied)
        } else if name == "NOT_FOUND"@ {
            Some(Status::NotFound)
        } else if name == "RESOURCE_EXHAUSTED"@ {
            Some(Status::ResourceExhausted)
        } else if name == "INTERNAL"@ {
            Some(Status::Internal)
        } else if name == "UNAVAILABLE"@ {
            Some(Status::Unavailable)
        } else if name == "DEADLINE_EXCEEDED"@ {
            Some(Status::DeadlineExceeded)
        } else {
            None
        }
    }

    fn wire_name(&self) -> (name: &'static str) {
        match self {
            Status::InvalidArgument => "INVALID_ARGUMENT",
            Status::FailedPrecondition => "FAILED_PRECONDITION",
            Status::PermissionDenied => "PERMISSION_DENIED",
            Status::NotFound => "NOT_FOUND",
            Status::ResourceExhausted => "RESOURCE_EXHAUSTED",
            Status::Internal => "INTERNAL",
            Status::Unavailable => "UNAVAILABLE",
            Status::DeadlineExceeded => "DEADLINE_EXCEEDED",
        }
    }

    fn from_wire_name(name: &str) -> (value: Option<Self>) {
        if str_equal(name, "INVALID_ARGUMENT") {
            Some(Status::InvalidArgument)
        } else if str_equal(name, "FAILED_PRECONDITION") {
            Some(Status::FailedPrecondition)
        } else if str_equal(name, "PERMISSION_DENIED") {
            Some(Status::PermissionDenied)
        } else if str_equal(name, "NOT_FOUND") {
            Some(Status::NotFound)
        } else if str_equal(name, "RESOURCE_EXHAUSTED") {
            Some(Status::ResourceExhausted)
        } else if str_equal(name, "INTERNAL") {
            Some(Status::Internal)
        } else if str_equal(name, "UNAVAILABLE") {
            Some(Status::Unavailable)
        } else if str_equal(name, "DEADLINE_EXCEEDED") {
            Some(Status::DeadlineExceeded)
        } else {
            None
        }
    }

    proof fn lemma_wire_name_renames_identifier(value: Self) {
        match value {
            Status::InvalidArgument => lemma_status_invalid_argument_renamed(),
            Status::FailedPrecondition => lemma_status_failed_precondition_renamed(),
            Status::PermissionDenied => lemma_status_permission_denied_renamed(),
            Status::NotFound => lemma_status_not_found_renamed(),
            Status::ResourceExhausted => lemma_status_resource_exhausted_renamed(),
            Status::Internal => lemma_status_internal_renamed(),
            Status::Unavailable => lemma_status_unavailable_renamed(),
            Status::DeadlineExceeded => lemma_status_deadline_exceeded_renamed(),
        }
    }

    proof fn lemma_wire_name_inverse(value: Self, name: Seq<char>) {
        reveal_strlit("INVALID_ARGUMENT");
        reveal_strlit("FAILED_PRECONDITION");
        reveal_strlit("PERMISSION_DENIED");
        reveal_strlit("NOT_FOUND");
        reveal_strlit("RESOURCE_EXHAUSTED");
        reveal_strlit("INTERNAL");
        reveal_strlit("UNAVAILABLE");
        reveal_strlit("DEADLINE_EXCEEDED");
        assert("INVALID_ARGUMENT"@.len() == 16);
        assert("FAILED_PRECONDITION"@.len() == 19);
        assert("PERMISSION_DENIED"@.len() == 17);
        assert("NOT_FOUND"@.len() == 9);
        assert("RESOURCE_EXHAUSTED"@.len() == 18);
        assert("INTERNAL"@.len() == 8);
        assert("UNAVAILABLE"@.len() == 11);
        assert("DEADLINE_EXCEEDED"@.len() == 17);
        assert("PERMISSION_DENIED"@[0] != "DEADLINE_EXCEEDED"@[0]);
    }
}

impl WireName for FinishReason {
    open spec fn spec_identifier(self) -> Seq<char> {
        match self {
            FinishReason::FinishReasonUnspecified => "FinishReasonUnspecified"@,
            FinishReason::Stop => "Stop"@,
            FinishReason::MaxTokens => "MaxTokens"@,
            FinishReason::Safety => "Safety"@,
            FinishReason::Recitation => "Recitation"@,
            FinishReason::Language => "Language"@,
            FinishReason::Other => "Other"@,
            FinishReason::Blocklist => "Blocklist"@,
            FinishReason::ProhibitedContent => "ProhibitedContent"@,
            FinishReason::Spii => "Spii"@,
            FinishReason::MalformedFunctionCall => "MalformedFunctionCall"@,
            FinishReason::ImageSafety => "ImageSafety"@,
        }
    }

    open spec fn spec_rename(identifier: Seq<char>) -> Seq<char> {
        screaming_snake_case(identifier)
    }

    open spec fn spec_wire_name(self) -> Seq<char> {
        match self {
            FinishReason::FinishReasonUnspecified => "FINISH_REASON_UNSPECIFIED"@,
            FinishReason::Stop => "STOP"@,
            FinishReason::MaxTokens => "MAX_TOKENS"@,
            FinishReason::Safety => "SAFETY"@,
            FinishReason::Recitation => "RECITATION"@,
            FinishReason::Language => "LANGUAGE"@,
            FinishReason::Other => "OTHER"@,
            FinishReason::Blocklist => "BLOCKLIST"@,
            FinishReason::ProhibitedContent => "PROHIBITED_CONTENT"@,
            FinishReason::Spii => "SPII"@,
            FinishReason::MalformedFunctionCall => "MALFORMED_FUNCTION_CALL"@,
            FinishReason::ImageSafety => "IMAGE_SAFETY"@,
        }
    }

    open spec fn spec_from_wire_name(name: Seq<char>) -> Option<Self> {
        if name == "FINISH_REASON_UNSPECIFIED"@ {
            Some(FinishReason::FinishReasonUnspecified)
        } else if name == "STOP"@ {
            Some(FinishReason::Stop)
        } else if name == "MAX_TOKENS"@ {
            Some(FinishReason::MaxTokens)
        } else if name == "SAFETY"@ {
            Some(FinishReason::Safety)
        } else if name == "RECITATION"@ {
            Some(FinishReason::Recitation)
        } else if name == "LANGUAGE"@ {
            Some(FinishReason::Language)
        } else if name == "OTHER"@ {
            Some(FinishReason::Other)
        } else if name == "BLOCKLIST"@ {
            Some(FinishReason::Blocklist)
        } else if name == "PROHIBITED_CONTENT"@ {
            Some(FinishReason::ProhibitedContent)
        } else if name == "SPII"@ {
            Some(FinishReason::Spii)
        } else if name == "MALFORMED_FUNCTION_CALL"@ {
            Some(FinishReason::MalformedFunctionCall)
        } else if name == "IMAGE_SAFETY"@ {
            Some(FinishReason::ImageSafety)
        } else {
            None
        }
    }

    fn wire_name(&self) -> (name: &'static str) {
        match self {
            FinishReason::FinishReasonUnspecified => "FINISH_REASON_UNSPECIFIED",
            FinishReason::Stop => "STOP",
            FinishReason::MaxTokens => "MAX_TOKENS",
            FinishReason::Safety => "SAFETY",
            FinishReason::Recitation => "RECITATION",
            FinishReason::Language => "LANGUAGE",
            FinishReason::Other => "OTHER",
            FinishReason::Blocklist => "BLOCKLIST",
            FinishReason::ProhibitedContent => "PROHIBITED_CONTENT",
            FinishReason::Spii => "SPII",
            FinishReason::MalformedFunctionCall => "MALFORMED_FUNCTION_CALL",
            FinishReason::ImageSafety => "IMAGE_SAFETY",
        }
    }

    fn from_wire_name(name: &str) -> (value: Option<Self>) {
        if str_equal(name, "FINISH_REASON_UNSPECIFIED") {
            Some(FinishReason::FinishReasonUnspecified)
        } else if str_equal(name, "STOP") {
            Some(FinishReason::Stop)
        } else if str_equal(name, "MAX_TOKENS") {
            Some(FinishReason::MaxTokens)
        } else if str_equal(name, "SAFETY") {
            Some(FinishReason::Safety)
        } else if str_equal(name, "RECITATION") {
            Some(FinishReason::Recitation)
        } else if str_equal(name, "LANGUAGE") {
            Some(FinishReason::Language)
        } else if str_equal(name, "OTHER") {
            Some(FinishReason::Other)
        } else if str_equal(name, "BLOCKLIST") {
            Some(FinishReason::Blocklist)
        } else if str_equal(name, "PROHIBITED_CONTENT") {
            Some(FinishReason::ProhibitedContent)
        } else if str_equal(name, "SPII") {
            Some(FinishReason::Spii)
        } else if str_equal(name, "MALFORMED_FUNCTION_CALL") {
            Some(FinishReason::MalformedFunctionCall)
        } else if str_equal(name, "IMAGE_SAFETY") {
            Some(FinishReason::ImageSafety)
        } else {
            None
        }
    }

    proof fn lemma_wire_name_renames_identifier(value: Self) {
        match value {
            FinishReason::FinishReasonUnspecified => lemma_finish_reason_finish_reason_unspecified_renamed(),
            FinishReason::Stop => lemma_finish_reason_stop_renamed(),
            FinishReason::MaxTokens => lemma_finish_reason_max_tokens_renamed(),
            FinishReason::Safety => lemma_finish_reason_safety_renamed(),
            FinishReason::Recitation => lemma_finish_reason_recitation_renamed(),
            FinishReason::Language => lemma_finish_reason_language_renamed(),
            FinishReason::Other => lemma_finish_reason_other_renamed(),
            FinishReason::Blocklist => lemma_finish_reason_blocklist_renamed(),
            FinishReason::ProhibitedContent => lemma_finish_reason_prohibited_content_renamed(),
            FinishReason::Spii => lemma_finish_reason_spii_renamed(),
            FinishReason::MalformedFunctionCall => lemma_finish_reason_malformed_function_call_renamed(),
            FinishReason::ImageSafety => lemma_finish_reason_image_safety_renamed(),
        }
    }

    proof fn lemma_wire_name_inverse(value: Self, name: Seq<char>) {
        reveal_strlit("FINISH_REASON_UNSPECIFIED");
        reveal_strlit("STOP");
        reveal_strlit("MAX_TOKENS");
        reveal_strlit("SAFETY");
        reveal_strlit("RECITATION");
        reveal_strlit("LANGUAGE");
        reveal_strlit("OTHER");
        reveal_strlit("BLOCKLIST");
        reveal_strlit("PROHIBITED_CONTENT");
        reveal_strlit("SPII");
        reveal_strlit("MALFORMED_FUNCTION_CALL");
        reveal_strlit("IMAGE_SAFETY");
        assert("FINISH_REASON_UNSPECIFIED"@.len() == 25);
        assert("STOP"@.len() == 4);
        assert("MAX_TOKENS"@.len() == 10);
        assert("SAFETY"@.len() == 6);
        assert("RECITATION"@.len() == 10);
        assert("LANGUAGE"@.len() == 8);
        assert("OTHER"@.len() == 5);
        assert("BLOCKLIST"@.len() == 9);
        assert("PROHIBITED_CONTENT"@.len() == 18);
        assert("SPII"@.len() == 4);
        assert("MALFORMED_FUNCTION_CALL"@.len() == 23);
        assert("IMAGE_SAFETY"@.len() == 12);
        assert("STOP"@[1] != "SPII"@[1]);
        assert("MAX_TOKENS"@[0] != "RECITATION"@[0]);
    }
}

impl WireName for HarmCategory {
    open spec fn spec_identifier(self) -> Seq<char> {
        match self {
            HarmCategory::HarmCategoryUnspecified => "HarmCategoryUnspecified"@,
            HarmCategory::HarmCategoryDerogatory => "HarmCategoryDerogatory"@,
            HarmCategory::HarmCategoryToxicity => "HarmCategoryToxicity"@,
            HarmCategory::HarmCategoryViolence => "HarmCategoryViolence"@,
            HarmCategory::HarmCategorySexual => "HarmCategorySexual"@,
            HarmCategory::HarmCategoryMedical => "HarmCategoryMedical"@,
            HarmCategory::HarmCategoryDangerous => "HarmCategoryDangerous"@,
            HarmCategory::HarmCategoryHarassment => "HarmCategoryHarassment"@,
            HarmCategory::HarmCategoryHateSpeech => "HarmCategoryHateSpeech"@,
            HarmCategory::HarmCategorySexuallyExplicit => "HarmCategorySexuallyExplicit"@,
            HarmCategory::HarmCategoryDangerousContent => "HarmCategoryDangerousContent"@,
            HarmCategory::HarmCategoryCivicIntegrity => "HarmCategoryCivicIntegrity"@,
        }
    }

    open spec fn spec_rename(identifier: Seq<char>) -> Seq<char> {
        screaming_snake_case(identifier)
    }

    open spec fn spec_wire_name(self) -> Seq<char> {
        match self {
            HarmCategory::HarmCategoryUnspecified => "HARM_CATEGORY_UNSPECIFIED"@,
            HarmCategory::HarmCategoryDerogatory => "HARM_CATEGORY_DEROGATORY"@,
            HarmCategory::HarmCategoryToxicity => "HARM_CATEGORY_TOXICITY"@,
            HarmCategory::HarmCategoryViolence => "HARM_CATEGORY_VIOLENCE"@,
            HarmCategory::HarmCategorySexual => "HARM_CATEGORY_SEXUAL"@,
            HarmCategory::HarmCategoryMedical => "HARM_CATEGORY_MEDICAL"@,
            HarmCategory::HarmCategoryDangerous => "HARM_CATEGORY_DANGEROUS"@,
            HarmCategory::HarmCategoryHarassment => "HARM_CATEGORY_HARASSMENT"@,
            HarmCategory::HarmCategoryHateSpeech => "HARM_CATEGORY_HATE_SPEECH"@,
            HarmCategory::HarmCategorySexuallyExplicit => "HARM_CATEGORY_SEXUALLY_EXPLICIT"@,
            HarmCategory::HarmCategoryDangerousContent => "HARM_CATEGORY_DANGEROUS_CONTENT"@,
            HarmCategory::HarmCategoryCivicIntegrity => "HARM_CATEGORY_CIVIC_INTEGRITY"@,
        }
    }

    open spec fn spec_from_wire_name(name: Seq<char>) -> Option<Self> {
        if name == "HARM_CATEGORY_UNSPECIFIED"@ {
            Some(HarmCategory::HarmCategoryUnspecified)
        } else if name == "HARM_CATEGORY_DEROGATORY"@ {
            Some(HarmCategory::HarmCategoryDerogatory)
        } else if name == "HARM_CATEGORY_TOXICITY"@ {
            Some(HarmCategory::HarmCategoryToxicity)
        } else if name == "HARM_CATEGORY_VIOLENCE"@ {
            Some(HarmCategory::HarmCategoryViolence)
        } else if name == "HARM_CATEGORY_SEXUAL"@ {
            Some(HarmCategory::HarmCategorySexual)
        } else if name == "HARM_CATEGORY_MEDICAL"@ {
            Some(HarmCategory::HarmCategoryMedical)
        } else if name == "HARM_CATEGORY_DANGEROUS"@ {
            Some(HarmCategory::HarmCategoryDangerous)
        } else if name == "HARM_CATEGORY_HARASSMENT"@ {
            Some(HarmCategory::HarmCategoryHarassment)
        } else if name == "HARM_CATEGORY_HATE_SPEECH"@ {
            Some(HarmCategory::HarmCategoryHateSpeech)
        } else if name == "HARM_CATEGORY_SEXUALLY_EXPLICIT"@ {
            Some(HarmCategory::HarmCategorySexuallyExplicit)
        } else if name == "HARM_CATEGORY_DANGEROUS_CONTENT"@ {
            Some(HarmCategory::HarmCategoryDangerousContent)
        } else if name == "HARM_CATEGORY_CIVIC_INTEGRITY"@ {
            Some(HarmCategory::HarmCategoryCivicIntegrity)
        } else {
            None
        }
    }

    fn wire_name(&self) -> (name: &'static str) {
        match self {
            HarmCategory::HarmCategoryUnspecified => "HARM_CATEGORY_UNSPECIFIED",
            HarmCategory::HarmCategoryDerogatory => "HARM_CATEGORY_DEROGATORY",
            HarmCategory::HarmCategoryToxicity => "HARM_CATEGORY_TOXICITY",
            HarmCategory::HarmCategoryViolence => "HARM_CATEGORY_VIOLENCE",
            HarmCategory::HarmCategorySexual => "HARM_CATEGORY_SEXUAL",
            HarmCategory::HarmCategoryMedical => "HARM_CATEGORY_MEDICAL",
            HarmCategory::HarmCategoryDangerous => "HARM_CATEGORY_DANGEROUS",
            HarmCategory::HarmCategoryHarassment => "HARM_CATEGORY_HARASSMENT",
            HarmCategory::HarmCategoryHateSpeech => "HARM_CATEGORY_HATE_SPEECH",
            HarmCategory::HarmCategorySexuallyExplicit => "HARM_CATEGORY_SEXUALLY_EXPLICIT",
            HarmCategory::HarmCategoryDangerousContent => "HARM_CATEGORY_DANGEROUS_CONTENT",
            HarmCategory::HarmCategoryCivicIntegrity => "HARM_CATEGORY_CIVIC_INTEGRITY",
        }
    }

    fn from_wire_name(name: &str) -> (value: Option<Self>) {
        if str_equal(name, "HARM_CATEGORY_UNSPECIFIED") {
            Some(HarmCategory::HarmCategoryUnspecified)
        } else if str_equal(name, "HARM_CATEGORY_DEROGATORY") {
            Some(HarmCategory::HarmCategoryDerogatory)
        } else if str_equal(name, "HARM_CATEGORY_TOXICITY") {
            Some(HarmCategory::HarmCategoryToxicity)
        } else if str_equal(name, "HARM_CATEGORY_VIOLENCE") {
            Some(HarmCategory::HarmCategoryViolence)
        } else if str_equal(name, "HARM_CATEGORY_SEXUAL") {
            Some(HarmCategory::HarmCategorySexual)
        } else if str_equal(name, "HARM_CATEGORY_MEDICAL") {
            Some(HarmCategory::HarmCategoryMedical)
        } else if str_equal(name, "HARM_CATEGORY_DANGEROUS") {
            Some(HarmCategory::HarmCategoryDangerous)
        } else if str_equal(name, "HARM_CATEGORY_HARASSMENT") {
            Some(HarmCategory::HarmCategoryHarassment)
        } else if str_equal(name, "HARM_CATEGORY_HATE_SPEECH") {
            Some(HarmCategory::HarmCategoryHateSpeech)
        } else if str_equal(name, "HARM_CATEGORY_SEXUALLY_EXPLICIT") {
            Some(HarmCategory::HarmCategorySexuallyExplicit)
        } else if str_equal(name, "HARM_CATEGORY_DANGEROUS_CONTENT") {
            Some(HarmCategory::HarmCategoryDangerousContent)
        } else if str_equal(name, "HARM_CATEGORY_CIVIC_INTEGRITY") {
            Some(HarmCategory::HarmCategoryCivicIntegrity)
        } else {
            None
        }
    }

    proof fn lemma_wire_name_renames_identifier(value: Self) {
        match value {
            HarmCategory::HarmCategoryUnspecified => lemma_harm_category_harm_category_unspecified_renamed(),
            HarmCategory::HarmCategoryDerogatory => lemma_harm_category_harm_category_derogatory_renamed(),
            HarmCategory::HarmCategoryToxicity => lemma_harm_category_harm_category_toxicity_renamed(),
            HarmCategory::HarmCategoryViolence => lemma_harm_category_harm_category_violence_renamed(),
            HarmCategory::HarmCategorySexual => lemma_harm_category_harm_category_sexual_renamed(),
            HarmCategory::HarmCategoryMedical => lemma_harm_category_harm_category_medical_renamed(),
            HarmCategory::HarmCategoryDangerous => lemma_harm_category_harm_category_dangerous_renamed(),
            HarmCategory::HarmCategoryHarassment => lemma_harm_category_harm_category_harassment_renamed(),
            HarmCategory::HarmCategoryHateSpeech => lemma_harm_category_harm_category_hate_speech_renamed(),
            HarmCategory::HarmCategorySexuallyExplicit => lemma_harm_category_harm_category_sexually_explicit_renamed(),
            HarmCategory::HarmCategoryDangerousContent => lemma_harm_category_harm_category_dangerous_content_renamed(),
            HarmCategory::HarmCategoryCivicIntegrity => lemma_harm_category_harm_category_civic_integrity_renamed(),
        }
    }

    proof fn lemma_wire_name_inverse(value: Self, name: Seq<char>) {
        reveal_strlit("HARM_CATEGORY_UNSPECIFIED");
        reveal_strlit("HARM_CATEGORY_DEROGATORY");
        reveal_strlit("HARM_CATEGORY_TOXICITY");
        reveal_strlit("HARM_CATEGORY_VIOLENCE");
        reveal_strlit("HARM_CATEGORY_SEXUAL");
        reveal_strlit("HARM_CATEGORY_MEDICAL");
        reveal_strlit("HARM_CATEGORY_DANGEROUS");
        reveal_strlit("HARM_CATEGORY_HARASSMENT");
        reveal_strlit("HARM_CATEGORY_HATE_SPEECH");
        reveal_strlit("HARM_CATEGORY_SEXUALLY_EXPLICIT");
        reveal_strlit("HARM_CATEGORY_DANGEROUS_CONTENT");
        reveal_strlit("HARM_CATEGORY_CIVIC_INTEGRITY");
        assert("HARM_CATEGORY_UNSPECIFIED"@.len() == 25);
        assert("HARM_CATEGORY_DEROGATORY"@.len() == 24);
        assert("HARM_CATEGORY_TOXICITY"@.len() == 22);
        assert("HARM_CATEGORY_VIOLENCE"@.len() == 22);
        assert("HARM_CATEGORY_SEXUAL"@.len() == 20);
        assert("HARM_CATEGORY_MEDICAL"@.len() == 21);
        assert("HARM_CATEGORY_DANGEROUS"@.len() == 23);
        assert("HARM_CATEGORY_HARASSMENT"@.len() == 24);
        assert("HARM_CATEGORY_HATE_SPEECH"@.len() == 25);
        assert("HARM_CATEGORY_SEXUALLY_EXPLICIT"@.len() == 31);
        assert("HARM_CATEGORY_DANGEROUS_CONTENT"@.len() == 31);
        assert("HARM_CATEGORY_CIVIC_INTEGRITY"@.len() == 29);
        assert("HARM_CATEGORY_UNSPECIFIED"@[14] != "HARM_CATEGORY_HATE_SPEECH"@[14]);
        assert("HARM_CATEGORY_DEROGATORY"@[14] != "HARM_CATEGORY_HARASSMENT"@[14]);
        assert("HARM_CATEGORY_TOXICITY"@[14] != "HARM_CATEGORY_VIOLENCE"@[14]);
        assert("HARM_CATEGORY_SEXUALLY_EXPLICIT"@[14] != "HARM_CATEGORY_DANGEROUS_CONTENT"@[14]);
    }
}

impl WireName for HarmBlockThreshold {
    open spec fn spec_identifier(self) -> Seq<char> {
        match self {
            HarmBlockThreshold::HarmBlockThresholdUnspecified => "HarmBlockThresholdUnspecified"@,
            HarmBlockThreshold::BlockLowAndAbove => "BlockLowAndAbove"@,
            HarmBlockThreshold::BlockMedAndAbove => "BlockMedAndAbove"@,
            HarmBlockThreshold::BlockOnlyHigh => "BlockOnlyHigh"@,
            HarmBlockThreshold::BlockNone => "BlockNone"@,
            HarmBlockThreshold::OFF => "OFF"@,
        }
    }

    open spec fn spec_rename(identifier: Seq<char>) -> Seq<char> {
        screaming_snake_case(identifier)
    }

    open spec fn spec_wire_name(self) -> Seq<char> {
        match self {
            HarmBlockThreshold::HarmBlockThresholdUnspecified => "HARM_BLOCK_THRESHOLD_UNSPECIFIED"@,
            HarmBlockThreshold::BlockLowAndAbove => "BLOCK_LOW_AND_ABOVE"@,
            HarmBlockThreshold::BlockMedAndAbove => "BLOCK_MED_AND_ABOVE"@,
            HarmBlockThreshold::BlockOnlyHigh => "BLOCK_ONLY_HIGH"@,
            HarmBlockThreshold::BlockNone => "BLOCK_NONE"@,
            HarmBlockThreshold::OFF => "O_F_F"@,
        }
    }

    open spec fn spec_from_wire_name(name: Seq<char>) -> Option<Self> {
        if name == "HARM_BLOCK_THRESHOLD_UNSPECIFIED"@ {
            Some(HarmBlockThreshold::HarmBlockThresholdUnspecified)
        } else if name == "BLOCK_LOW_AND_ABOVE"@ {
            Some(HarmBlockThreshold::BlockLowAndAbove)
        } else if name == "BLOCK_MED_AND_ABOVE"@ {
            Some(HarmBlockThreshold::BlockMedAndAbove)
        } else if name == "BLOCK_ONLY_HIGH"@ {
            Some(HarmBlockThreshold::BlockOnlyHigh)
        } else if name == "BLOCK_NONE"@ {
            Some(HarmBlockThreshold::BlockNone)
        } else if name == "O_F_F"@ {
            Some(HarmBlockThreshold::OFF)
        } else {
            None
        }
    }

    fn wire_name(&self) -> (name: &'static str) {
        match self {
            HarmBlockThreshold::HarmBlockThresholdUnspecified => "HARM_BLOCK_THRESHOLD_UNSPECIFIED",
            HarmBlockThreshold::BlockLowAndAbove => "BLOCK_LOW_AND_ABOVE",
            HarmBlockThreshold::BlockMedAndAbove => "BLOCK_MED_AND_ABOVE",
            HarmBlockThreshold::BlockOnlyHigh => "BLOCK_ONLY_HIGH",
            HarmBlockThreshold::BlockNone => "BLOCK_NONE",
            HarmBlockThreshold::OFF => "O_F_F",
        }
    }

    fn from_wire_name(name: &str) -> (value: Option<Self>) {
        if str_equal(name, "HARM_BLOCK_THRESHOLD_UNSPECIFIED") {
            Some(HarmBlockThreshold::HarmBlockThresholdUnspecified)
        } else if str_equal(name, "BLOCK_LOW_AND_ABOVE") {
            Some(HarmBlockThreshold::BlockLowAndAbove)
        } else if str_equal(name, "BLOCK_MED_AND_ABOVE") {
            Some(HarmBlockThreshold::BlockMedAndAbove)
        } else if str_equal(name, "BLOCK_ONLY_HIGH") {
            Some(HarmBlockThreshold::BlockOnlyHigh)
        } else if str_equal(name, "BLOCK_NONE") {
            Some(HarmBlockThreshold::BlockNone)
        } else if str_equal(name, "O_F_F") {
            Some(HarmBlockThreshold::OFF)
        } else {
            None
        }
    }

    proof fn lemma_wire_name_renames_identifier(value: Self) {
        match value {
            HarmBlockThreshold::HarmBlockThresholdUnspecified => lemma_harm_block_threshold_harm_block_threshold_unspecified_renamed(),
            HarmBlockThreshold::BlockLowAndAbove => lemma_harm_block_threshold_block_low_and_above_renamed(),
            HarmBlockThreshold::BlockMedAndAbove => lemma_harm_block_threshold_block_med_and_above_renamed(),
            HarmBlockThreshold::BlockOnlyHigh => lemma_harm_block_threshold_block_only_high_renamed(),
            HarmBlockThreshold::BlockNone => lemma_harm_block_threshold_block_none_renamed(),
            HarmBlockThreshold::OFF => lemma_harm_block_threshold_o_f_f_renamed(),
        }
    }

    proof fn lemma_wire_name_inverse(value: Self, name: Seq<char>) {
        reveal_strlit("HARM_BLOCK_THRESHOLD_UNSPECIFIED");
        reveal_strlit("BLOCK_LOW_AND_ABOVE");
        reveal_strlit("BLOCK_MED_AND_ABOVE");
        reveal_strlit("BLOCK_ONLY_HIGH");
        reveal_strlit("BLOCK_NONE");
        reveal_strlit("O_F_F");
        assert("HARM_BLOCK_THRESHOLD_UNSPECIFIED"@.len() == 32);
        assert("BLOCK_LOW_AND_ABOVE"@.len() == 19);
        assert("BLOCK_MED_AND_ABOVE"@.len() == 19);
        assert("BLOCK_ONLY_HIGH"@.len() == 15);
        assert("BLOCK_NONE"@.len() == 10);
        assert("O_F_F"@.len() == 5);
        assert("BLOCK_LOW_AND_ABOVE"@[6] != "BLOCK_MED_AND_ABOVE"@[6]);
    }
}

impl WireName for HarmProbability {
    open spec fn spec_identifier(self) -> Seq<char> {
        match self {
            HarmProbability::HarmProbabilityUnspecified => "HarmProbabilityUnspecified"@,
            HarmProbability::Negligible => "Negligible"@,
            HarmProbability::Low => "Low"@,
            HarmProbability::Medium => "Medium"@,
            HarmProbability::High => "High"@,
        }
    }

    open spec fn spec_rename(identifier: Seq<char>) -> Seq<char> {
        screaming_snake_case(identifier)
    }

    open spec fn spec_wire_name(self) -> Seq<char> {
        match self {
            HarmProbability::HarmProbabilityUnspecified => "HARM_PROBABILITY_UNSPECIFIED"@,
            HarmProbability::Negligible => "NEGLIGIBLE"@,
            HarmProbability::Low => "LOW"@,
            HarmProbability::Medium => "MEDIUM"@,
            HarmProbability::High => "HIGH"@,
        }
    }

    open spec fn spec_from_wire_name(name: Seq<char>) -> Option<Self> {
        if name == "HARM_PROBABILITY_UNSPECIFIED"@ {
            Some(HarmProbability::HarmProbabilityUnspecified)
        } else if name == "NEGLIGIBLE"@ {
            Some(HarmProbability::Negligible)
        } else if name == "LOW"@ {
            Some(HarmProbability::Low)
        } else if name == "MEDIUM"@ {
            Some(HarmProbability::Medium)
        } else if name == "HIGH"@ {
            Some(HarmProbability::High)
        } else {
            None
        }
    }

    fn wire_name(&self) -> (name: &'static str) {
        match self {
            HarmProbability::HarmProbabilityUnspecified => "HARM_PROBABILITY_UNSPECIFIED",
            HarmProbability::Negligible => "NEGLIGIBLE",
            HarmProbability::Low => "LOW",
            HarmProbability::Medium => "MEDIUM",
            HarmProbability::High => "HIGH",
        }
    }

    fn from_wire_name(name: &str) -> (value: Option<Self>) {
        if str_equal(name, "HARM_PROBABILITY_UNSPECIFIED") {
            Some(HarmProbability::HarmProbabilityUnspecified)
        } else if str_equal(name, "NEGLIGIBLE") {
            Some(HarmProbability::Negligible)
        } else if str_equal(name, "LOW") {
            Some(HarmProbability::Low)
        } else if str_equal(name, "MEDIUM") {
            Some(HarmProbability::Medium)
        } else if str_equal(name, "HIGH") {
            Some(HarmProbability::High)
        } else {
            None
        }
    }

    proof fn lemma_wire_name_renames_identifier(value: Self) {
        match value {
            HarmProbability::HarmProbabilityUnspecified => lemma_harm_probability_harm_probability_unspecified_renamed(),
            HarmProbability::Negligible => lemma_harm_probability_negligible_renamed(),
            HarmProbability::Low => lemma_harm_probability_low_renamed(),
            HarmProbability::Medium => lemma_harm_probability_medium_renamed(),
            HarmProbability::High => lemma_harm_probability_high_renamed(),
        }
    }

    proof fn lemma_wire_name_inverse(value: Self, name: Seq<char>) {
        reveal_strlit("HARM_PROBABILITY_UNSPECIFIED");
        reveal_strlit("NEGLIGIBLE");
        reveal_strlit("LOW");
        reveal_strlit("MEDIUM");
        reveal_strlit("HIGH");
        assert("HARM_PROBABILITY_UNSPECIFIED"@.len() == 28);
        assert("NEGLIGIBLE"@.len() == 10);
        assert("LOW"@.len() == 3);
        assert("MEDIUM"@.len() == 6);
        assert("HIGH"@.len() == 4);
    }
}

impl WireName for FunctionCallingMode {
    open spec fn spec_identifier(self) -> Seq<char> {
        match self {
            FunctionCallingMode::ModeUnspecified => "ModeUnspecified"@,
            FunctionCallingMode::Auto => "Auto"@,
            FunctionCallingMode::Any => "Any"@,
            FunctionCallingMode::NoneMode => "None"@,
            FunctionCallingMode::Validated => "Validated"@,
        }
    }

    open spec fn spec_rename(identifier: Seq<char>) -> Seq<char> {
        screaming_snake_case(identifier)
    }

    open spec fn spec_wire_name(self) -> Seq<char> {
        match self {
            FunctionCallingMode::ModeUnspecified => "MODE_UNSPECIFIED"@,
            FunctionCallingMode::Auto => "AUTO"@,
            FunctionCallingMode::Any => "ANY"@,
            FunctionCallingMode::NoneMode => "NONE"@,
            FunctionCallingMode::Validated => "VALIDATED"@,
        }
    }

    open spec fn spec_from_wire_name(name: Seq<char>) -> Option<Self> {
        if name == "MODE_UNSPECIFIED"@ {
            Some(FunctionCallingMode::ModeUnspecified)
        } else if name == "AUTO"@ {
            Some(FunctionCallingMode::Auto)
        } else if name == "ANY"@ {
            Some(FunctionCallingMode::Any)
        } else if name == "NONE"@ {
            Some(FunctionCallingMode::NoneMode)
        } else if name == "VALIDATED"@ {
            Some(FunctionCallingMode::Validated)
        } else {
            None
        }
    }

    fn wire_name(&self) -> (name: &'static str) {
        match self {
            FunctionCallingMode::ModeUnspecified => "MODE_UNSPECIFIED",
            FunctionCallingMode::Auto => "AUTO",
            FunctionCallingMode::Any => "ANY",
            FunctionCallingMode::NoneMode => "NONE",
            FunctionCallingMode::Validated => "VALIDATED",
        }
    }

    fn from_wire_name(name: &str) -> (value: Option<Self>) {
        if str_equal(name, "MODE_UNSPECIFIED") {
            Some(FunctionCallingMode::ModeUnspecified)
        } else if str_equal(name, "AUTO") {
            Some(FunctionCallingMode::Auto)
        } else if str_equal(name, "ANY") {
            Some(FunctionCallingMode::Any)
        } else if str_equal(name, "NONE") {
            Some(FunctionCallingMode::NoneMode)
        } else if str_equal(name, "VALIDATED") {
            Some(FunctionCallingMode::Validated)
        } else {
            None
        }
    }

    proof fn lemma_wire_name_renames_identifier(value: Self) {
        match value {
            FunctionCallingMode::ModeUnspecified => lemma_function_calling_mode_mode_unspecified_renamed(),
            FunctionCallingMode::Auto => lemma_function_calling_mode_auto_renamed(),
            FunctionCallingMode::Any => lemma_function_calling_mode_any_renamed(),
            FunctionCallingMode::NoneMode => lemma_function_calling_mode_none_mode_renamed(),
            FunctionCallingMode::Validated => lemma_function_calling_mode_validated_renamed(),
        }
    }

    proof fn lemma_wire_name_inverse(value: Self, name: Seq<char>) {
        reveal_strlit("MODE_UNSPECIFIED");
        reveal_strlit("AUTO");
        reveal_strlit("ANY");
        reveal_strlit("NONE");
        reveal_strlit("VALIDATED");
        assert("MODE_UNSPECIFIED"@.len() == 16);
        assert("AUTO"@.len() == 4);
        assert("ANY"@.len() == 3);
        assert("NONE"@.len() == 4);
        assert("VALIDATED"@.len() == 9);
        assert("AUTO"@[0] != "NONE"@[0]);
    }
}

impl WireName for ProgrammingLanguage {
    open spec fn spec_identifier(self) -> Seq<char> {
        match self {
            ProgrammingLanguage::LanguageUnspecified => "LanguageUnspecified"@,
            ProgrammingLanguage::Python => "Python"@,
        }
    }

    open spec fn spec_rename(identifier: Seq<char>) -> Seq<char> {
        screaming_snake_case(identifier)
    }

    open spec fn spec_wire_name(self) -> Seq<char> {
        match self {
            ProgrammingLanguage::LanguageUnspecified => "LANGUAGE_UNSPECIFIED"@,
            ProgrammingLanguage::Python => "PYTHON"@,
        }
    }

    open spec fn spec_from_wire_name(name: Seq<char>) -> Option<Self> {
        if name == "LANGUAGE_UNSPECIFIED"@ {
            Some(ProgrammingLanguage::LanguageUnspecified)
        } else if name == "PYTHON"@ {
            Some(ProgrammingLanguage::Python)
        } else {
            None
        }
    }

    fn wire_name(&self) -> (name: &'static str) {
        match self {
            ProgrammingLanguage::LanguageUnspecified => "LANGUAGE_UNSPECIFIED",
            ProgrammingLanguage::Python => "PYTHON",
        }
    }

    fn from_wire_name(name: &str) -> (value: Option<Self>) {
        if str_equal(name, "LANGUAGE_UNSPECIFIED") {
            Some(ProgrammingLanguage::LanguageUnspecified)
        } else if str_equal(name, "PYTHON") {
            Some(ProgrammingLanguage::Python)
        } else {
            None
        }
    }

    proof fn lemma_wire_name_renames_identifier(value: Self) {
        match value {
            ProgrammingLanguage::LanguageUnspecified => lemma_programming_language_language_unspecified_renamed(),
            ProgrammingLanguage::Python => lemma_programming_language_python_renamed(),
        }
    }

    proof fn lemma_wire_name_inverse(value: Self, name: Seq<char>) {
        reveal_strlit("LANGUAGE_UNSPECIFIED");
        reveal_strlit("PYTHON");
        assert("LANGUAGE_UNSPECIFIED"@.len() == 20);
        assert("PYTHON"@.len() == 6);
    }
}

impl WireName for Outcome {
    open spec fn spec_identifier(self) -> Seq<char> {
        match self {
            Outcome::OutcomeUnspecified => "OutcomeUnspecified"@,
            Outcome::OutcomeOk => "OutcomeOk"@,
            Outcome::OutcomeError => "OutcomeError"@,
            Outcome::OutcomeDeadlineExceeded => "OutcomeDeadlineExceeded"@,
        }
    }

    open spec fn spec_rename(identifier: Seq<char>) -> Seq<char> {
        screaming_snake_case(identifier)
    }

    open spec fn spec_wire_name(self) -> Seq<char> {
        match self {
            Outcome::OutcomeUnspecified => "OUTCOME_UNSPECIFIED"@,
            Outcome::OutcomeOk => "OUTCOME_OK"@,
            Outcome::OutcomeError => "OUTCOME_ERROR"@,
            Outcome::OutcomeDeadlineExceeded => "OUTCOME_DEADLINE_EXCEEDED"@,
        }
    }

    open spec fn spec_from_wire_name(name: Seq<char>) -> Option<Self> {
        if name == "OUTCOME_UNSPECIFIED"@ {
            Some(Outcome::OutcomeUnspecified)
        } else if name == "OUTCOME_OK"@ {
            Some(Outcome::OutcomeOk)
        } else if name == "OUTCOME_ERROR"@ {
            Some(Outcome::OutcomeError)
        } else if name == "OUTCOME_DEADLINE_EXCEEDED"@ {
            Some(Outcome::OutcomeDeadlineExceeded)
        } else {
            None
        }
    }

    fn wire_name(&self) -> (name: &'static str) {
        match self {
            Outcome::OutcomeUnspecified => "OUTCOME_UNSPECIFIED",
            Outcome::OutcomeOk => "OUTCOME_OK",
            Outcome::OutcomeError => "OUTCOME_ERROR",
            Outcome::OutcomeDeadlineExceeded => "OUTCOME_DEADLINE_EXCEEDED",
        }
    }

    fn from_wire_name(name: &str) -> (value: Option<Self>) {
        if str_equal(name, "OUTCOME_UNSPECIFIED") {
            Some(Outcome::OutcomeUnspecified)
        } else if str_equal(name, "OUTCOME_OK") {
            Some(Outcome::OutcomeOk)
        } else if str_equal(name, "OUTCOME_ERROR") {
            Some(Outcome::OutcomeError)
        } else if str_equal(name, "OUTCOME_DEADLINE_EXCEEDED") {
            Some(Outcome::OutcomeDeadlineExceeded)
        } else {
            None
        }
    }

    proof fn lemma_wire_name_renames_identifier(value: Self) {
        match value {
            Outcome::OutcomeUnspecified => lemma_outcome_outcome_unspecified_renamed(),
            Outcome::OutcomeOk => lemma_outcome_outcome_ok_renamed(),
            Outcome::OutcomeError => lemma_outcome_outcome_error_renamed(),
            Outcome::OutcomeDeadlineExceeded => lemma_outcome_outcome_deadline_exceeded_renamed(),
        }
    }

    proof fn lemma_wire_name_inverse(value: Self, name: Seq<char>) {
        reveal_strlit("OUTCOME_UNSPECIFIED");
        reveal_strlit("OUTCOME_OK");
        reveal_strlit("OUTCOME_ERROR");
        reveal_strlit("OUTCOME_DEADLINE_EXCEEDED");
        assert("OUTCOME_UNSPECIFIED"@.len() == 19);
        assert("OUTCOME_OK"@.len() == 10);
        assert("OUTCOME_ERROR"@.len() == 13);
        assert("OUTCOME_DEADLINE_EXCEEDED"@.len() == 25);
    }
}

impl WireName for Type {
    open spec fn spec_identifier(self) -> Seq<char> {
        match self {
            Type::Object => "Object"@,
            Type::Array => "Array"@,
            Type::String => "String"@,
            Type::Integer => "Integer"@,
            Type::Number => "Number"@,
            Type::Boolean => "Boolean"@,
        }
    }

    open spec fn spec_rename(identifier: Seq<char>) -> Seq<char> {
        lower_case(identifier)
    }

    open spec fn spec_wire_name(self) -> Seq<char> {
        match self {
            Type::Object => "object"@,
            Type::Array => "array"@,
            Type::String => "string"@,
            Type::Integer => "integer"@,
            Type::Number => "number"@,
            Type::Boolean => "boolean"@,
        }
    }

    open spec fn spec_from_wire_name(name: Seq<char>) -> Option<Self> {
        if name == "object"@ {
            Some(Type::Object)
        } else if name == "array"@ {
            Some(Type::Array)
        } else if name == "string"@ {
            Some(Type::String)
        } else if name == "integer"@ {
            Some(Type::Integer)
        } else if name == "number"@ {
            Some(Type::Number)
        } else if name == "boolean"@ {
            Some(Type::Boolean)
        } else {
            None
        }
    }

    fn wire_name(&self) -> (name: &'static str) {
        match self {
            Type::Object => "object",
            Type::Array => "array",
            Type::String => "string",
            Type::Integer => "integer",
            Type::Number => "number",
            Type::Boolean => "boolean",
        }
    }

    fn from_wire_name(name: &str) -> (value: Option<Self>) {
        if str_equal(name, "object") {
            Some(Type::Object)
        } else if str_equal(name, "array") {
            Some(Type::Array)
        } else if str_equal(name, "string") {
            Some(Type::String)
        } else if str_equal(name, "integer") {
            Some(Type::Integer)
        } else if str_equal(name, "number") {
            Some(Type::Number)
        } else if str_equal(name, "boolean") {
            Some(Type::Boolean)
        } else {
            None
        }
    }

    proof fn lemma_wire_name_renames_identifier(value: Self) {
        match value {
            Type::Object => lemma_type_object_renamed(),
            Type::Array => lemma_type_array_renamed(),
            Type::String => lemma_type_string_renamed(),
            Type::Integer => lemma_type_integer_renamed(),
            Type::Number => lemma_type_number_renamed(),
            Type::Boolean => lemma_type_boolean_renamed(),
        }
    }

    proof fn lemma_wire_name_inverse(value: Self, name: Seq<char>) {
        reveal_strlit("object");
        reveal_strlit("array");
        reveal_strlit("string");
        reveal_strlit("integer");
        reveal_strlit("number");
        reveal_strlit("boolean");
        assert("object"@.len() == 6);
        assert("array"@.len() == 5);
        assert("string"@.len() == 6);
        assert("integer"@.len() == 7);
        assert("number"@.len() == 6);
        assert("boolean"@.len() == 7);
        assert("object"@[0] != "string"@[0]);
        assert("object"@[0] != "number"@[0]);
        assert("string"@[0] != "number"@[0]);
        assert("integer"@[0] != "boolean"@[0]);
    }
}

// The wire name of each value, worked out from its identifier.

proof fn lemma_role_user_renamed()
    ensures
        lower_case("User"@) == "user"@,
{
    reveal_strlit("User");
    reveal_strlit("user");
    assert(lower_case("User"@) =~= "user"@);
}

proof fn lemma_role_model_renamed()
    ensures
        lower_case("Model"@) == "model"@,
{
    reveal_strlit("Model");
    reveal_strlit("model");
    assert(lower_case("Model"@) =~= "model"@);
}

proof fn lemma_role_function_renamed()
    ensures
        lower_case("Function"@) == "function"@,
{
    reveal_strlit("Function");
    reveal_strlit("function");
    assert(lower_case("Function"@) =~= "function"@);
}

proof fn lemma_status_invalid_argument_renamed()
    ensures
        screaming_snake_case("InvalidArgument"@) == "INVALID_ARGUMENT"@,
{
    reveal_with_fuel(screaming_snake_case_from, 16);
    reveal_strlit("InvalidArgument");
    reveal_strlit("INVALID_ARGUMENT");
    assert(screaming_snake_case("InvalidArgument"@) =~= "INVALID_ARGUMENT"@);
}

proof fn lemma_status_failed_precondition_renamed()
    ensures
        screaming_snake_case("FailedPrecondition"@) == "FAILED_PRECONDITION"@,
{
    reveal_with_fuel(screaming_snake_case_from, 19);
    reveal_strlit("FailedPrecondition");
    reveal_strlit("FAILED_PRECONDITION");
    assert(screaming_snake_case("FailedPrecondition"@) =~= "FAILED_PRECONDITION"@);
}

proof fn lemma_status_permission_denied_renamed()
    ensures
        screaming_snake_case("PermissionDenied"@) == "PERMISSION_DENIED"@,
{
    reveal_with_fuel(screaming_snake_case_from, 17);
    reveal_strlit("PermissionDenied");
    reveal_strlit("PERMISSION_DENIED");
    assert(screaming_snake_case("PermissionDenied"@) =~= "PERMISSION_DENIED"@);
}

proof fn lemma_status_not_found_renamed()
    ensures
        screaming_snake_case("NotFound"@) == "NOT_FOUND"@,
{
    reveal_with_fuel(screaming_snake_case_from, 9);
    reveal_strlit("NotFound");
    reveal_strlit("NOT_FOUND");
    assert(screaming_snake_case("NotFound"@) =~= "NOT_FOUND"@);
}

proof fn lemma_status_resource_exhausted_renamed()
    ensures
        screaming_snake_case("ResourceExhausted"@) == "RESOURCE_EXHAUSTED"@,
{
    reveal_with_fuel(screaming_snake_case_from, 18);
    reveal_strlit("ResourceExhausted");
    reveal_strlit("RESOURCE_EXHAUSTED");
    assert(screaming_snake_case("ResourceExhausted"@) =~= "RESOURCE_EXHAUSTED"@);
}

proof fn lemma_status_internal_renamed()
    ensures
        screaming_snake_case("Internal"@) == "INTERNAL"@,
{
    reveal_with_fuel(screaming_snake_case_from, 9);
    reveal_strlit("Internal");
    reveal_strlit("INTERNAL");
    assert(screaming_snake_case("Internal"@) =~= "INTERNAL"@);
}

proof fn lemma_status_unavailable_renamed()
    ensures
        screaming_snake_case("Unavailable"@) == "UNAVAILABLE"@,
{
    reveal_with_fuel(screaming_snake_case_from, 12);
    reveal_strlit("Unavailable");
    reveal_strlit("UNAVAILABLE");
    assert(screaming_snake_case("Unavailable"@) =~= "UNAVAILABLE"@);
}

proof fn lemma_status_deadline_exceeded_renamed()
    ensures
        screaming_snake_case("DeadlineExceeded"@) == "DEADLINE_EXCEEDED"@,
{
    reveal_with_fuel(screaming_snake_case_from, 17);
    reveal_strlit("DeadlineExceeded");
    reveal_strlit("DEADLINE_EXCEEDED");
    assert(screaming_snake_case("DeadlineExceeded"@) =~= "DEADLINE_EXCEEDED"@);
}

proof fn lemma_finish_reason_finish_reason_unspecified_renamed()
    ensures
        screaming_snake_case("FinishReasonUnspecified"@) == "FINISH_REASON_UNSPECIFIED"@,
{
    reveal_with_fuel(screaming_snake_case_from, 24);
    reveal_strlit("FinishReasonUnspecified");
    reveal_strlit("FINISH_REASON_UNSPECIFIED");
    assert(screaming_snake_case("FinishReasonUnspecified"@) =~= "FINISH_REASON_UNSPECIFIED"@);
}

proof fn lemma_finish_reason_stop_renamed()
    ensures
        screaming_snake_case("Stop"@) == "STOP"@,
{
    reveal_with_fuel(screaming_snake_case_from, 5);
    reveal_strlit("Stop");
    reveal_strlit("STOP");
    assert(screaming_snake_case("Stop"@) =~= "STOP"@);
}

proof fn lemma_finish_reason_max_tokens_renamed()
    ensures
        screaming_snake_case("MaxTokens"@) == "MAX_TOKENS"@,
{
    reveal_with_fuel(screaming_snake_case_from, 10);
    reveal_strlit("MaxTokens");
    reveal_strlit("MAX_TOKENS");
    assert(screaming_snake_case("MaxTokens"@) =~= "MAX_TOKENS"@);
}

proof fn lemma_finish_reason_safety_renamed()
    ensures
        screaming_snake_case("Safety"@) == "SAFETY"@,
{
    reveal_with_fuel(screaming_snake_case_from, 7);
    reveal_strlit("Safety");
    reveal_strlit("SAFETY");
    assert(screaming_snake_case("Safety"@) =~= "SAFETY"@);
}

proof fn lemma_finish_reason_recitation_renamed()
    ensures
        screaming_snake_case("Recitation"@) == "RECITATION"@,
{
    reveal_with_fuel(screaming_snake_case_from, 11);
    reveal_strlit("Recitation");
    reveal_strlit("RECITATION");
    assert(screaming_snake_case("Recitation"@) =~= "RECITATION"@);
}

proof fn lemma_finish_reason_language_renamed()
    ensures
        screaming_snake_case("Language"@) == "LANGUAGE"@,
{
    reveal_with_fuel(screaming_snake_case_from, 9);
    reveal_strlit("Language");
    reveal_strlit("LANGUAGE");
    assert(screaming_snake_case("Language"@) =~= "LANGUAGE"@);
}

proof fn lemma_finish_reason_other_renamed()
    ensures
        screaming_snake_case("Other"@) == "OTHER"@,
{
    reveal_with_fuel(screaming_snake_case_from, 6);
    reveal_strlit("Other");
    reveal_strlit("OTHER");
    assert(screaming_snake_case("Other"@) =~= "OTHER"@);
}

proof fn lemma_finish_reason_blocklist_renamed()
    ensures
        screaming_snake_case("Blocklist"@) == "BLOCKLIST"@,
{
    reveal_with_fuel(screaming_snake_case_from, 10);
    reveal_strlit("Blocklist");
    reveal_strlit("BLOCKLIST");
    assert(screaming_snake_case("Blocklist"@) =~= "BLOCKLIST"@);
}

proof fn lemma_finish_reason_prohibited_content_renamed()
    ensures
        screaming_snake_case("ProhibitedContent"@) == "PROHIBITED_CONTENT"@,
{
    reveal_with_fuel(screaming_snake_case_from, 18);
    reveal_strlit("ProhibitedContent");
    reveal_strlit("PROHIBITED_CONTENT");
    assert(screaming_snake_case("ProhibitedContent"@) =~= "PROHIBITED_CONTENT"@);
}

proof fn lemma_finish_reason_spii_renamed()
    ensures
        screaming_snake_case("Spii"@) == "SPII"@,
{
    reveal_with_fuel(screaming_snake_case_from, 5);
    reveal_strlit("Spii");
    reveal_strlit("SPII");
    assert(screaming_snake_case("Spii"@) =~= "SPII"@);
}

proof fn lemma_finish_reason_malformed_function_call_renamed()
    ensures
        screaming_snake_case("MalformedFunctionCall"@) == "MALFORMED_FUNCTION_CALL"@,
{
    reveal_with_fuel(screaming_snake_case_from, 22);
    reveal_strlit("MalformedFunctionCall");
    reveal_strlit("MALFORMED_FUNCTION_CALL");
    assert(screaming_snake_case("MalformedFunctionCall"@) =~= "MALFORMED_FUNCTION_CALL"@);
}

proof fn lemma_finish_reason_image_safety_renamed()
    ensures
        screaming_snake_case("ImageSafety"@) == "IMAGE_SAFETY"@,
{
    reveal_with_fuel(screaming_snake_case_from, 12);
    reveal_strlit("ImageSafety");
    reveal_strlit("IMAGE_SAFETY");
    assert(screaming_snake_case("ImageSafety"@) =~= "IMAGE_SAFETY"@);
}

proof fn lemma_harm_category_harm_category_unspecified_renamed()
    ensures
        screaming_snake_case("HarmCategoryUnspecified"@) == "HARM_CATEGORY_UNSPECIFIED"@,
{
    reveal_with_fuel(screaming_snake_case_from, 24);
    reveal_strlit("HarmCategoryUnspecified");
    reveal_strlit("HARM_CATEGORY_UNSPECIFIED");
    assert(screaming_snake_case("HarmCategoryUnspecified"@) =~= "HARM_CATEGORY_UNSPECIFIED"@);
}

proof fn lemma_harm_category_harm_category_derogatory_renamed()
    ensures
        screaming_snake_case("HarmCategoryDerogatory"@) == "HARM_CATEGORY_DEROGATORY"@,
{
    reveal_with_fuel(screaming_snake_case_from, 23);
    reveal_strlit("HarmCategoryDerogatory");
    reveal_strlit("HARM_CATEGORY_DEROGATORY");
    assert(screaming_snake_case("HarmCategoryDerogatory"@) =~= "HARM_CATEGORY_DEROGATORY"@);
}

proof fn lemma_harm_category_harm_category_toxicity_renamed()
    ensures
        screaming_snake_case("HarmCategoryToxicity"@) == "HARM_CATEGORY_TOXICITY"@,
{
    reveal_with_fuel(screaming_snake_case_from, 21);
    reveal_strlit("HarmCategoryToxicity");
    reveal_strlit("HARM_CATEGORY_TOXICITY");
    assert(screaming_snake_case("HarmCategoryToxicity"@) =~= "HARM_CATEGORY_TOXICITY"@);
}

proof fn lemma_harm_category_harm_category_violence_renamed()
    ensures
        screaming_snake_case("HarmCategoryViolence"@) == "HARM_CATEGORY_VIOLENCE"@,
{
    reveal_with_fuel(screaming_snake_case_from, 21);
    reveal_strlit("HarmCategoryViolence");
    reveal_strlit("HARM_CATEGORY_VIOLENCE");
    assert(screaming_snake_case("HarmCategoryViolence"@) =~= "HARM_CATEGORY_VIOLENCE"@);
}

proof fn lemma_harm_category_harm_category_sexual_renamed()
    ensures
        screaming_snake_case("HarmCategorySexual"@) == "HARM_CATEGORY_SEXUAL"@,
{
    reveal_with_fuel(screaming_snake_case_from, 19);
    reveal_strlit("HarmCategorySexual");
    reveal_strlit("HARM_CATEGORY_SEXUAL");
    assert(screaming_snake_case("HarmCategorySexual"@) =~= "HARM_CATEGORY_SEXUAL"@);
}

proof fn lemma_harm_category_harm_category_medical_renamed()
    ensures
        screaming_snake_case("HarmCategoryMedical"@) == "HARM_CATEGORY_MEDICAL"@,
{
    reveal_with_fuel(screaming_snake_case_from, 20);
    reveal_strlit("HarmCategoryMedical");
    reveal_strlit("HARM_CATEGORY_MEDICAL");
    assert(screaming_snake_case("HarmCategoryMedical"@) =~= "HARM_CATEGORY_MEDICAL"@);
}

proof fn lemma_harm_category_harm_category_dangerous_renamed()
    ensures
        screaming_snake_case("HarmCategoryDangerous"@) == "HARM_CATEGORY_DANGEROUS"@,
{
    reveal_with_fuel(screaming_snake_case_from, 22);
    reveal_strlit("HarmCategoryDangerous");
    reveal_strlit("HARM_CATEGORY_DANGEROUS");
    assert(screaming_snake_case("HarmCategoryDangerous"@) =~= "HARM_CATEGORY_DANGEROUS"@);
}

proof fn lemma_harm_category_harm_category_harassment_renamed()
    ensures
        screaming_snake_case("HarmCategoryHarassment"@) == "HARM_CATEGORY_HARASSMENT"@,
{
    reveal_with_fuel(screaming_snake_case_from, 23);
    reveal_strlit("HarmCategoryHarassment");
    reveal_strlit("HARM_CATEGORY_HARASSMENT");
    assert(screaming_snake_case("HarmCategoryHarassment"@) =~= "HARM_CATEGORY_HARASSMENT"@);
}

proof fn lemma_harm_category_harm_category_hate_speech_renamed()
    ensures
        screaming_snake_case("HarmCategoryHateSpeech"@) == "HARM_CATEGORY_HATE_SPEECH"@,
{
    reveal_with_fuel(screaming_snake_case_from, 23);
    reveal_strlit("HarmCategoryHateSpeech");
    reveal_strlit("HARM_CATEGORY_HATE_SPEECH");
    assert(screaming_snake_case("HarmCategoryHateSpeech"@) =~= "HARM_CATEGORY_HATE_SPEECH"@);
}

proof fn lemma_harm_category_harm_category_sexually_explicit_renamed()
    ensures
        screaming_snake_case("HarmCategorySexuallyExplicit"@) == "HARM_CATEGORY_SEXUALLY_EXPLICIT"@,
{
    reveal_with_fuel(screaming_snake_case_from, 29);
    reveal_strlit("HarmCategorySexuallyExplicit");
    reveal_strlit("HARM_CATEGORY_SEXUALLY_EXPLICIT");
    assert(screaming_snake_case("HarmCategorySexuallyExplicit"@) =~= "HARM_CATEGORY_SEXUALLY_EXPLICIT"@);
}

proof fn lemma_harm_category_harm_category_dangerous_content_renamed()
    ensures
        screaming_snake_case("HarmCategoryDangerousContent"@) == "HARM_CATEGORY_DANGEROUS_CONTENT"@,
{
    reveal_with_fuel(screaming_snake_case_from, 29);
    reveal_strlit("HarmCategoryDangerousContent");
    reveal_strlit("HARM_CATEGORY_DANGEROUS_CONTENT");
    assert(screaming_snake_case("HarmCategoryDangerousContent"@) =~= "HARM_CATEGORY_DANGEROUS_CONTENT"@);
}

proof fn lemma_harm_category_harm_category_civic_integrity_renamed()
    ensures
        screaming_snake_case("HarmCategoryCivicIntegrity"@) == "HARM_CATEGORY_CIVIC_INTEGRITY"@,
{
    reveal_with_fuel(screaming_snake_case_from, 27);
    reveal_strlit("HarmCategoryCivicIntegrity");
    reveal_strlit("HARM_CATEGORY_CIVIC_INTEGRITY");
    assert(screaming_snake_case("HarmCategoryCivicIntegrity"@) =~= "HARM_CATEGORY_CIVIC_INTEGRITY"@);
}

proof fn lemma_harm_block_threshold_harm_block_threshold_unspecified_renamed()
    ensures
        screaming_snake_case("HarmBlockThresholdUnspecified"@) == "HARM_BLOCK_THRESHOLD_UNSPECIFIED"@,
{
    reveal_with_fuel(screaming_snake_case_from, 30);
    reveal_strlit("HarmBlockThresholdUnspecified");
    reveal_strlit("HARM_BLOCK_THRESHOLD_UNSPECIFIED");
    assert(screaming_snake_case("HarmBlockThresholdUnspecified"@) =~= "HARM_BLOCK_THRESHOLD_UNSPECIFIED"@);
}

proof fn lemma_harm_block_threshold_block_low_and_above_renamed()
    ensures
        screaming_snake_case("BlockLowAndAbove"@) == "BLOCK_LOW_AND_ABOVE"@,
{
    reveal_with_fuel(screaming_snake_case_from, 17);
    reveal_strlit("BlockLowAndAbove");
    reveal_strlit("BLOCK_LOW_AND_ABOVE");
    assert(screaming_snake_case("BlockLowAndAbove"@) =~= "BLOCK_LOW_AND_ABOVE"@);
}

proof fn lemma_harm_block_threshold_block_med_and_above_renamed()
    ensures
        screaming_snake_case("BlockMedAndAbove"@) == "BLOCK_MED_AND_ABOVE"@,
{
    reveal_with_fuel(screaming_snake_case_from, 17);
    reveal_strlit("BlockMedAndAbove");
    reveal_strlit("BLOCK_MED_AND_ABOVE");
    assert(screaming_snake_case("BlockMedAndAbove"@) =~= "BLOCK_MED_AND_ABOVE"@);
}

proof fn lemma_harm_block_threshold_block_only_high_renamed()
    ensures
        screaming_snake_case("BlockOnlyHigh"@) == "BLOCK_ONLY_HIGH"@,
{
    reveal_with_fuel(screaming_snake_case_from, 14);
    reveal_strlit("BlockOnlyHigh");
    reveal_strlit("BLOCK_ONLY_HIGH");
    assert(screaming_snake_case("BlockOnlyHigh"@) =~= "BLOCK_ONLY_HIGH"@);
}

proof fn lemma_harm_block_threshold_block_none_renamed()
    ensures
        screaming_snake_case("BlockNone"@) == "BLOCK_NONE"@,
{
    reveal_with_fuel(screaming_snake_case_from, 10);
    reveal_strlit("BlockNone");
    reveal_strlit("BLOCK_NONE");
    assert(screaming_snake_case("BlockNone"@) =~= "BLOCK_NONE"@);
}

proof fn lemma_harm_block_threshold_o_f_f_renamed()
    ensures
        screaming_snake_case("OFF"@) == "O_F_F"@,
{
    reveal_with_fuel(screaming_snake_case_from, 4);
    reveal_strlit("OFF");
    reveal_strlit("O_F_F");
    assert(screaming_snake_case("OFF"@) =~= "O_F_F"@);
}

proof fn lemma_harm_probability_harm_probability_unspecified_renamed()
    ensures
        screaming_snake_case("HarmProbabilityUnspecified"@) == "HARM_PROBABILITY_UNSPECIFIED"@,
{
    reveal_with_fuel(screaming_snake_case_from, 27);
    reveal_strlit("HarmProbabilityUnspecified");
    reveal_strlit("HARM_PROBABILITY_UNSPECIFIED");
    assert(screaming_snake_case("HarmProbabilityUnspecified"@) =~= "HARM_PROBABILITY_UNSPECIFIED"@);
}

proof fn lemma_harm_probability_negligible_renamed()
    ensures
        screaming_snake_case("Negligible"@) == "NEGLIGIBLE"@,
{
    reveal_with_fuel(screaming_snake_case_from, 11);
    reveal_strlit("Negligible");
    reveal_strlit("NEGLIGIBLE");
    assert(screaming_snake_case("Negligible"@) =~= "NEGLIGIBLE"@);
}

proof fn lemma_harm_probability_low_renamed()
    ensures
        screaming_snake_case("Low"@) == "LOW"@,
{
    reveal_with_fuel(screaming_snake_case_from, 4);
    reveal_strlit("Low");
    reveal_strlit("LOW");
    assert(screaming_snake_case("Low"@) =~= "LOW"@);
}

proof fn lemma_harm_probability_medium_renamed()
    ensures
        screaming_snake_case("Medium"@) == "MEDIUM"@,
{
    reveal_with_fuel(screaming_snake_case_from, 7);
    reveal_strlit("Medium");
    reveal_strlit("MEDIUM");
    assert(screaming_snake_case("Medium"@) =~= "MEDIUM"@);
}

proof fn lemma_harm_probability_high_renamed()
    ensures
        screaming_snake_case("High"@) == "HIGH"@,
{
    reveal_with_fuel(screaming_snake_case_from, 5);
    reveal_strlit("High");
    reveal_strlit("HIGH");
    assert(screaming_snake_case("High"@) =~= "HIGH"@);
}

proof fn lemma_function_calling_mode_mode_unspecified_renamed()
    ensures
        screaming_snake_case("ModeUnspecified"@) == "MODE_UNSPECIFIED"@,
{
    reveal_with_fuel(screaming_snake_case_from, 16);
    reveal_strlit("ModeUnspecified");
    reveal_strlit("MODE_UNSPECIFIED");
    assert(screaming_snake_case("ModeUnspecified"@) =~= "MODE_UNSPECIFIED"@);
}

proof fn lemma_function_calling_mode_auto_renamed()
    ensures
        screaming_snake_case("Auto"@) == "AUTO"@,
{
    reveal_with_fuel(screaming_snake_case_from, 5);
    reveal_strlit("Auto");
    reveal_strlit("AUTO");
    assert(screaming_snake_case("Auto"@) =~= "AUTO"@);
}

proof fn lemma_function_calling_mode_any_renamed()
    ensures
        screaming_snake_case("Any"@) == "ANY"@,
{
    reveal_with_fuel(screaming_snake_case_from, 4);
    reveal_strlit("Any");
    reveal_strlit("ANY");
    assert(screaming_snake_case("Any"@) =~= "ANY"@);
}

proof fn lemma_function_calling_mode_none_mode_renamed()
    ensures
        screaming_snake_case("None"@) == "NONE"@,
{
    reveal_with_fuel(screaming_snake_case_from, 5);
    reveal_strlit("None");
    reveal_strlit("NONE");
    assert(screaming_snake_case("None"@) =~= "NONE"@);
}

proof fn lemma_function_calling_mode_validated_renamed()
    ensures
        screaming_snake_case("Validated"@) == "VALIDATED"@,
{
    reveal_with_fuel(screaming_snake_case_from, 10);
    reveal_strlit("Validated");
    reveal_strlit("VALIDATED");
    assert(screaming_snake_case("Validated"@) =~= "VALIDATED"@);
}

proof fn lemma_programming_language_language_unspecified_renamed()
    ensures
        screaming_snake_case("LanguageUnspecified"@) == "LANGUAGE_UNSPECIFIED"@,
{
    reveal_with_fuel(screaming_snake_case_from, 20);
    reveal_strlit("LanguageUnspecified");
    reveal_strlit("LANGUAGE_UNSPECIFIED");
    assert(screaming_snake_case("LanguageUnspecified"@) =~= "LANGUAGE_UNSPECIFIED"@);
}

proof fn lemma_programming_language_python_renamed()
    ensures
        screaming_snake_case("Python"@) == "PYTHON"@,
{
    reveal_with_fuel(screaming_snake_case_from, 7);
    reveal_strlit("Python");
    reveal_strlit("PYTHON");
    assert(screaming_snake_case("Python"@) =~= "PYTHON"@);
}

proof fn lemma_outcome_outcome_unspecified_renamed()
    ensures
        screaming_snake_case("OutcomeUnspecified"@) == "OUTCOME_UNSPECIFIED"@,
{
    reveal_with_fuel(screaming_snake_case_from, 19);
    reveal_strlit("OutcomeUnspecified");
    reveal_strlit("OUTCOME_UNSPECIFIED");
    assert(screaming_snake_case("OutcomeUnspecified"@) =~= "OUTCOME_UNSPECIFIED"@);
}

proof fn lemma_outcome_outcome_ok_renamed()
    ensures
        screaming_snake_case("OutcomeOk"@) == "OUTCOME_OK"@,
{
    reveal_with_fuel(screaming_snake_case_from, 10);
    reveal_strlit("OutcomeOk");
    reveal_strlit("OUTCOME_OK");
    assert(screaming_snake_case("OutcomeOk"@) =~= "OUTCOME_OK"@);
}

proof fn lemma_outcome_outcome_error_renamed()
    ensures
        screaming_snake_case("OutcomeError"@) == "OUTCOME_ERROR"@,
{
    reveal_with_fuel(screaming_snake_case_from, 13);
    reveal_strlit("OutcomeError");
    reveal_strlit("OUTCOME_ERROR");
    assert(screaming_snake_case("OutcomeError"@) =~= "OUTCOME_ERROR"@);
}

proof fn lemma_outcome_outcome_deadline_exceeded_renamed()
    ensures
        screaming_snake_case("OutcomeDeadlineExceeded"@) == "OUTCOME_DEADLINE_EXCEEDED"@,
{
    reveal_with_fuel(screaming_snake_case_from, 24);
    reveal_strlit("OutcomeDeadlineExceeded");
    reveal_strlit("OUTCOME_DEADLINE_EXCEEDED");
    assert(screaming_snake_case("OutcomeDeadlineExceeded"@) =~= "OUTCOME_DEADLINE_EXCEEDED"@);
}

proof fn lemma_type_object_renamed()
    ensures
        lower_case("Object"@) == "object"@,
{
    reveal_strlit("Object");
    reveal_strlit("object");
    assert(lower_case("Object"@) =~= "object"@);
}

proof fn lemma_type_array_renamed()
    ensures
        lower_case("Array"@) == "array"@,
{
    reveal_strlit("Array");
    reveal_strlit("array");
    assert(lower_case("Array"@) =~= "array"@);
}

proof fn lemma_type_string_renamed()
    ensures
        lower_case("String"@) == "string"@,
{
    reveal_strlit("String");
    reveal_strlit("string");
    assert(lower_case("String"@) =~= "string"@);
}

proof fn lemma_type_integer_renamed()
    ensures
        lower_case("Integer"@) == "integer"@,
{
    reveal_strlit("Integer");
    reveal_strlit("integer");
    assert(lower_case("Integer"@) =~= "integer"@);
}

proof fn lemma_type_number_renamed()
    ensures
        lower_case("Number"@) == "number"@,
{
    reveal_strlit("Number");
    reveal_strlit("number");
    assert(lower_case("Number"@) =~= "number"@);
}

proof fn lemma_type_boolean_renamed()
    ensures
        lower_case("Boolean"@) == "boolean"@,
{
    reveal_strlit("Boolean");
    reveal_strlit("boolean");
    assert(lower_case("Boolean"@) =~= "boolean"@);
}

} // verus!
