//! The errors of the API calls.
use vstd::prelude::*;

verus! {

/// Why an API call failed. Every failure ends the call.
#[derive(Debug)]
pub enum ApiError {
    /// The server rejected the access token.
    InvalidAccessToken,
    /// The request could not be completed; holds the transport's message.
    Transport(String),
    /// The response did not have the expected shape; holds the decoder's message.
    Decode(String),
}

/// The sentence that describes a rejected token.
pub open spec fn rejected_token_text() -> Seq<char> {
    "The token provided was rejected by the server"@
}

/// What `ApiError::cause` returns.
pub open spec fn cause_of(e: ApiError) -> Option<Seq<char>> {
    match e {
        ApiError::InvalidAccessToken => None,
        ApiError::Transport(c) => Some(c@),
        ApiError::Decode(c) => Some(c@),
    }
}

/// What `ApiError::description` returns.
pub open spec fn description_of(e: ApiError) -> Seq<char> {
    match e {
        ApiError::InvalidAccessToken => rejected_token_text(),
        ApiError::Transport(c) => c@,
        ApiError::Decode(c) => c@,
    }
}

/// What `ApiError::to_string` returns.
pub open spec fn text_of(e: ApiError) -> Seq<char> {
    match e {
        ApiError::InvalidAccessToken => "ApiError::InvalidAccessToken"@,
        ApiError::Transport(c) => "ApiError::Transport("@ + c@ + ")"@,
        ApiError::Decode(c) => "ApiError::Decode("@ + c@ + ")"@,
    }
}

impl ApiError {
    /// The underlying message, for the two kinds that carry one.
    pub fn cause(&self) -> (r: Option<String>)
        ensures
            match r {
                Some(s) => cause_of(*self) == Some(s@),
                None => cause_of(*self) is None,
            },
    {
        match self {
            ApiError::InvalidAccessToken => None,
            ApiError::Transport(c) => Some(c.clone()),
            ApiError::Decode(c) => Some(c.clone()),
        }
    }

    /// A sentence that says what went wrong.
    pub fn description(&self) -> (r: String)
        ensures
            r@ == description_of(*self),
    {
        match self {
            ApiError::InvalidAccessToken => String::from_str(
                "The token provided was rejected by the server",
            ),
            ApiError::Transport(c) => c.clone(),
            ApiError::Decode(c) => c.clone(),
        }
    }

    /// The kind of the error followed by its cause.
    pub fn to_string(&self) -> (r: String)
        ensures
            r@ == text_of(*self),
    {
        match self {
            ApiError::InvalidAccessToken => String::from_str("ApiError::InvalidAccessToken"),
            ApiError::Transport(c) => {
                let mut s = String::from_str("ApiError::Transport(");
                s.append(c.as_str());
                s.append(")");
                s
            },
            ApiError::Decode(c) => {
                let mut s = String::from_str("ApiError::Decode(");
                s.append(c.as_str());
                s.append(")");
                s
            },
        }
    }
}

} // verus!
