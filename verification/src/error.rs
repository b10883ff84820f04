use vstd::prelude::*;
use vstd::string::*;

verus! {

/// A failure reported by the SKE receiver that inbound datagrams are handed to.
#[derive(Debug, PartialEq, Eq)]
pub struct NativeSignalError {
    /// What the receiver said went wrong.
    pub message: String,
}

/// Everything that decoding participant data, assembling a configuration or
/// receiving over the IDS channel can fail with.
#[derive(Debug, PartialEq, Eq)]
pub enum FaceTimeIdsQuicError {
    MalformedParticipantData,
    MissingParticipantIdAlias,
    InvalidParticipantIdAlias,
    ParticipantIdAliasOutOfRange,
    EmptySessionId,
    EmptySessionSalt,
    NativeSignal(NativeSignalError),
}

/// The human-readable text of an error.
pub open spec fn error_message(e: FaceTimeIdsQuicError) -> Seq<char> {
    match e {
        FaceTimeIdsQuicError::MalformedParticipantData =>
            "command-207 participant data is not a property-list dictionary"@,
        FaceTimeIdsQuicError::MissingParticipantIdAlias =>
            "command-207 participant data has no participantIDAlias"@,
        FaceTimeIdsQuicError::InvalidParticipantIdAlias =>
            "command-207 participantIDAlias is not a non-negative integer"@,
        FaceTimeIdsQuicError::ParticipantIdAliasOutOfRange =>
            "command-207 participantIDAlias is outside the u64 range"@,
        FaceTimeIdsQuicError::EmptySessionId => "FaceTime IDS QUIC session ID is empty"@,
        FaceTimeIdsQuicError::EmptySessionSalt => "FaceTime IDS QUIC session salt is empty"@,
        FaceTimeIdsQuicError::NativeSignal(inner) => inner.message@,
    }
}

impl FaceTimeIdsQuicError {
    /// The human-readable text of this error; a receiver failure is shown as
    /// the receiver's own text.
    pub fn message(&self) -> (text: String)
        ensures
            text@ == error_message(*self),
    {
        match self {
            FaceTimeIdsQuicError::MalformedParticipantData => String::from_str(
                "command-207 participant data is not a property-list dictionary",
            ),
            FaceTimeIdsQuicError::MissingParticipantIdAlias => String::from_str(
                "command-207 participant data has no participantIDAlias",
            ),
            FaceTimeIdsQuicError::InvalidParticipantIdAlias => String::from_str(
                "command-207 participantIDAlias is not a non-negative integer",
            ),
            FaceTimeIdsQuicError::ParticipantIdAliasOutOfRange => String::from_str(
                "command-207 participantIDAlias is outside the u64 range",
            ),
            FaceTimeIdsQuicError::EmptySessionId => String::from_str(
                "FaceTime IDS QUIC session ID is empty",
            ),
            FaceTimeIdsQuicError::EmptySessionSalt => String::from_str(
                "FaceTime IDS QUIC session salt is empty",
            ),
            FaceTimeIdsQuicError::NativeSignal(inner) => inner.message.clone(),
        }
    }
}

impl From<NativeSignalError> for FaceTimeIdsQuicError {
    fn from(inner: NativeSignalError) -> (e: Self) {
        FaceTimeIdsQuicError::NativeSignal(inner)
    }
}

impl vstd::std_specs::convert::FromSpecImpl<NativeSignalError> for FaceTimeIdsQuicError {
    open spec fn obeys_from_spec() -> bool {
        true
    }

    open spec fn from_spec(inner: NativeSignalError) -> Self {
        FaceTimeIdsQuicError::NativeSignal(inner)
    }
}

} // verus!
