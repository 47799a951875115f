//! The transcription collaborator: the service's credentials and the outcome
//! of its answer. The HTTP exchange itself happens outside the library.
use vstd::prelude::*;
use crate::error::VMTError;

verus! {

/// Client state of the transcription service.
pub struct WhisperService {
    api_key: String,
}

impl WhisperService {
    pub closed spec fn api_key_view(&self) -> Seq<char> {
        self.api_key@
    }

    pub fn new(api_key: &str) -> (r: WhisperService)
        ensures
            r.api_key_view() == api_key@,
    {
        WhisperService { api_key: api_key.to_owned() }
    }

    /// The key sent as the bearer token of each request.
    pub fn api_key(&self) -> (r: &str)
        ensures
            r@ == self.api_key_view(),
    {
        self.api_key.as_str()
    }
}

/// The service's answer as text, given the message of its `error` member
/// (when that is not null) and its `text` member (when that is a string): an
/// error wins; a missing text is a data format error.
pub fn transcription_outcome(error_message: Option<String>, text: Option<String>) -> (r: Result<
    String,
    VMTError,
>)
    ensures
        match error_message {
            Some(m) => r == Err::<String, VMTError>(VMTError::Transcript { message: m }),
            None => match text {
                Some(t) => r == Ok::<String, VMTError>(t),
                None => r matches Err(VMTError::Transcript { message }) && message@
                    == "data format error"@,
            },
        },
{
    match error_message {
        Some(m) => Err(VMTError::Transcript { message: m }),
        None => match text {
            Some(t) => Ok(t),
            None => {
                proof {
                    reveal_strlit("data format error");
                }
                Err(VMTError::Transcript { message: "data format error".to_owned() })
            },
        },
    }
}

} // verus!
