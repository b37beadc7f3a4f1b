use vstd::prelude::*;
use vstd::string::StringExecFns;

verus! {

/// Why a request was refused.
#[derive(Debug, Clone, Copy, PartialEq, Eq, Structural)]
pub enum WebauthnError {
    /// The input was malformed or a conditional write matched nothing.
    Unknown,
    /// A session is present but lacks a field that the operation reads.
    CorruptSession,
    /// The operation needs a signed-in user and the session has none.
    NoActiveSession,
    UserNotFound,
    UserHasNoCredentials,
    /// The credential verifier refused to start a ceremony.
    VerifierError,
    /// No pending ceremony is stored under the identifier that was presented.
    NoChallengeFound,
    /// The credential verifier rejected the response to a challenge.
    CeremonyVerificationFailed,
    /// The session store handed back a value that could not be read.
    InvalidSessionState,
    /// The document store failed.
    MongoDBError,
    BsonError,
    UuidError,
}

impl WebauthnError {
    /// The HTTP status that answers a request refused for this reason.
    pub open spec fn spec_status_code(self) -> u16 {
        match self {
            WebauthnError::Unknown => 400,
            WebauthnError::CorruptSession => 401,
            WebauthnError::NoActiveSession => 401,
            WebauthnError::UserNotFound => 404,
            WebauthnError::UserHasNoCredentials => 400,
            WebauthnError::VerifierError => 400,
            WebauthnError::NoChallengeFound => 400,
            WebauthnError::CeremonyVerificationFailed => 400,
            WebauthnError::InvalidSessionState => 500,
            WebauthnError::MongoDBError => 500,
            WebauthnError::BsonError => 500,
            WebauthnError::UuidError => 500,
        }
    }

    /// The HTTP status that answers a request refused for this reason.
    pub fn status_code(&self) -> (code: u16)
        ensures
            code == self.spec_status_code(),
    {
        match self {
            WebauthnError::Unknown => 400,
            WebauthnError::CorruptSession => 401,
            WebauthnError::NoActiveSession => 401,
            WebauthnError::UserNotFound => 404,
            WebauthnError::UserHasNoCredentials => 400,
            WebauthnError::VerifierError => 400,
            WebauthnError::NoChallengeFound => 400,
            WebauthnError::CeremonyVerificationFailed => 400,
            WebauthnError::InvalidSessionState => 500,
            WebauthnError::MongoDBError => 500,
            WebauthnError::BsonError => 500,
            WebauthnError::UuidError => 500,
        }
    }
    /// The text that tells a client of the refusal. It names the kind of
    /// failure and carries nothing of what the store or the verifier said.
    pub open spec fn spec_message(self) -> Seq<char> {
        match self {
            WebauthnError::Unknown => "Unknown Error"@,
            WebauthnError::CorruptSession => "Corrupt Session"@,
            WebauthnError::NoActiveSession => "No Active Session"@,
            WebauthnError::UserNotFound => "User Not Found"@,
            WebauthnError::UserHasNoCredentials => "User Has No Credentials"@,
            WebauthnError::VerifierError => "Credential Verifier Error"@,
            WebauthnError::NoChallengeFound => "No Challenge Found"@,
            WebauthnError::CeremonyVerificationFailed => "Ceremony Verification Failed"@,
            WebauthnError::InvalidSessionState => "Deserialising Session failed"@,
            WebauthnError::MongoDBError => "MongoDB error"@,
            WebauthnError::BsonError => "BSON serialization error"@,
            WebauthnError::UuidError => "UUID parsing error"@,
        }
    }

    /// The text that tells a client of the refusal.
    pub fn message(&self) -> (text: String)
        ensures
            text@ == self.spec_message(),
    {
        match self {
            WebauthnError::Unknown => String::from_str("Unknown Error"),
            WebauthnError::CorruptSession => String::from_str("Corrupt Session"),
            WebauthnError::NoActiveSession => String::from_str("No Active Session"),
            WebauthnError::UserNotFound => String::from_str("User Not Found"),
            WebauthnError::UserHasNoCredentials => String::from_str("User Has No Credentials"),
            WebauthnError::VerifierError => String::from_str("Credential Verifier Error"),
            WebauthnError::NoChallengeFound => String::from_str("No Challenge Found"),
            WebauthnError::CeremonyVerificationFailed => String::from_str(
                "Ceremony Verification Failed",
            ),
            WebauthnError::InvalidSessionState => String::from_str("Deserialising Session failed"),
            WebauthnError::MongoDBError => String::from_str("MongoDB error"),
            WebauthnError::BsonError => String::from_str("BSON serialization error"),
            WebauthnError::UuidError => String::from_str("UUID parsing error"),
        }
    }
}

} // verus!
