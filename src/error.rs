use vstd::prelude::*;

verus! {

#[verifier::external_type_specification]
#[verifier::external_body]
pub struct ExReqwestError(reqwest::Error);

/// A failure of the manifest decompiler, with its own description.
#[derive(Debug, Clone)]
pub struct DecompileError {
    pub message: String,
}

/// The errors which can occur when a transaction is submitted.
#[derive(Debug)]
pub enum TransactionSubmissionError {
    NoNonceFound,
    MultipleNonceFound,
    DecompileError(DecompileError),
    HttpRequestError(reqwest::Error),
    JsonDeserializationError(String),
}

impl From<DecompileError> for TransactionSubmissionError {
    fn from(error: DecompileError) -> (r: TransactionSubmissionError)
        ensures
            r == TransactionSubmissionError::DecompileError(error),
    {
        TransactionSubmissionError::DecompileError(error)
    }
}

impl vstd::std_specs::convert::FromSpecImpl<DecompileError> for TransactionSubmissionError {
    open spec fn obeys_from_spec() -> bool {
        true
    }

    open spec fn from_spec(v: DecompileError) -> TransactionSubmissionError {
        TransactionSubmissionError::DecompileError(v)
    }
}

impl From<reqwest::Error> for TransactionSubmissionError {
    fn from(error: reqwest::Error) -> (r: TransactionSubmissionError)
        ensures
            r == TransactionSubmissionError::HttpRequestError(error),
    {
        TransactionSubmissionError::HttpRequestError(error)
    }
}

impl vstd::std_specs::convert::FromSpecImpl<reqwest::Error> for TransactionSubmissionError {
    open spec fn obeys_from_spec() -> bool {
        true
    }

    open spec fn from_spec(v: reqwest::Error) -> TransactionSubmissionError {
        TransactionSubmissionError::HttpRequestError(v)
    }
}

} // verus!
