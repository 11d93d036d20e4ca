//! The failures a query or a builder can end in.

use vstd::prelude::*;
use crate::api::params::{decimal, decimal_text};
use crate::bindings::json::{json_as_string, json_pointed, json_pointer, json_string};

verus! {

/// Errors which may occur when creating form data.
#[non_exhaustive]
#[derive(Debug)]
pub enum BodyError {
    /// Body data could not be serialized from form parameters.
    UrlEncoded {
        /// The source of the error.
        source: serde_urlencoded::ser::Error,
    },
}

/// Errors which may occur when using API endpoints.
#[non_exhaustive]
#[derive(Debug)]
#[allow(inconsistent_fields)]
pub enum ApiError<E> {
    /// The client encountered an error.
    Client {
        /// The client error.
        source: E,
    },
    /// The URL failed to parse.
    UrlParse {
        /// The source of the error.
        source: url::ParseError,
    },
    /// Body data could not be created.
    Body {
        /// The source of the error.
        source: BodyError,
    },
    /// JSON deserialization failed.
    Json {
        /// The source of the error.
        source: serde_json::Error,
    },
    /// The service answered with a failure status and no JSON.
    ServerError {
        /// The status code of the response.
        status: u16,
        /// The body of the response.
        data: Vec<u8>,
    },
    /// The response is JSON, but not of the type asked for.
    DataType {
        /// The source of the error.
        source: serde_json::Error,
        /// The name of the type that could not be deserialized.
        typename: &'static str,
    },
    /// The service reported an error in words.
    ApiMessage {
        /// The error message.
        msg: String,
    },
    /// The service reported an error as a value that is no string.
    ApiObject {
        /// The value found where the message was expected.
        obj: serde_json::Value,
    },
    /// The service answered with a failure status and JSON that holds no
    /// error message.
    ApiUnrecognized {
        /// The full body of the response.
        obj: serde_json::Value,
    },
}

/// The JSON pointer at which the service puts its error message.
pub open spec fn error_message_pointer() -> Seq<char> {
    "/error_message"@
}

impl<E> ApiError<E> {
    /// What the service's JSON answer `value` to a failed request amounts to:
    /// the message where there is one and it is a string, the thing in its
    /// place where it is not a string, the whole answer where there is none.
    pub open spec fn reported(self, value: serde_json::Value) -> bool {
        match json_pointed(value, error_message_pointer()) {
            Some(found) => match json_string(found) {
                Some(text) => self matches ApiError::ApiMessage { msg } && msg@ == text,
                None => self matches ApiError::ApiObject { obj } && obj == found,
            },
            None => self matches ApiError::ApiUnrecognized { obj } && obj == value,
        }
    }

    /// Whether this is the client's error `source`.
    pub open spec fn is_client_error(self, source: E) -> bool {
        self matches ApiError::Client { source: s } && s == source
    }

    /// Whether this is the error for a failure status with a body that is
    /// no JSON.
    pub open spec fn is_server_error(self, status: u16, body: Seq<u8>) -> bool {
        self matches ApiError::ServerError { status: s, data } && s == status && data@ == body
    }

    /// Whether this is the error for a body that did not decode as the type
    /// called `typename`, for the reason `source`.
    pub open spec fn is_data_type_error(
        self,
        source: serde_json::Error,
        typename: Seq<char>,
    ) -> bool {
        self matches ApiError::DataType { source: s, typename: t } && s == source && t@ == typename
    }

    /// Generate an `ApiError` from a client error.
    pub fn client(source: E) -> (e: Self)
        ensures
            e.is_client_error(source),
    {
        ApiError::Client { source }
    }

    /// The error for a failure status with a body that is no JSON.
    pub fn server_error(status: u16, body: &[u8]) -> (e: Self)
        ensures
            e.is_server_error(status, body@),
    {
        let mut data: Vec<u8> = Vec::new();
        let mut i: usize = 0;
        while i < body.len()
            invariant
                i <= body@.len(),
                data@ == body@.subrange(0, i as int),
            decreases body@.len() - i,
        {
            data.push(body[i]);
            assert(data@ =~= body@.subrange(0, i + 1));
            i += 1;
        }
        assert(data@ =~= body@);
        ApiError::ServerError { status, data }
    }

    /// The error that the service's JSON answer to a failed request stands for.
    pub fn from_pinboard(value: serde_json::Value) -> (e: Self)
        ensures
            e.reported(value),
    {
        match json_pointer(&value, "/error_message") {
            Some(found) => match json_as_string(&found) {
                Some(msg) => ApiError::ApiMessage { msg },
                None => ApiError::ApiObject { obj: found },
            },
            None => ApiError::ApiUnrecognized { obj: value },
        }
    }

    /// The error for a body that does not decode as the type called
    /// `typename`.
    pub fn data_type(source: serde_json::Error, typename: &'static str) -> (e: Self)
        ensures
            e.is_data_type_error(source, typename@),
    {
        ApiError::DataType { source, typename }
    }
}

/// The bound that a builder found exceeded.
#[derive(Debug, Clone, Copy, PartialEq, Eq, Structural)]
pub enum Constraint {
    /// The number of tags handed to an endpoint.
    Tags,
    /// The `count` parameter of an endpoint.
    Count,
}

/// Errors which may occur when building an endpoint.
#[derive(Debug, Clone, Copy, PartialEq, Eq, Structural)]
pub enum BuildError {
    /// A required field was never set.
    MissingRequiredField {
        /// The name of the field.
        field: RequiredField,
    },
    /// A bound of the endpoint was exceeded.
    ConstraintViolation {
        /// The bound.
        constraint: Constraint,
        /// The most the endpoint accepts.
        limit: u64,
        /// What it was given.
        actual: u64,
    },
}

/// The fields that some endpoint cannot do without.
#[derive(Debug, Clone, Copy, PartialEq, Eq, Structural)]
pub enum RequiredField {
    Url,
    Tag,
    Old,
    New,
    Id,
}

impl RequiredField {
    /// The field's name.
    pub open spec fn spec_name(self) -> Seq<char> {
        match self {
            RequiredField::Url => "url"@,
            RequiredField::Tag => "tag"@,
            RequiredField::Old => "old"@,
            RequiredField::New => "new"@,
            RequiredField::Id => "id"@,
        }
    }

    /// The field's name.
    pub fn name(&self) -> (s: &'static str)
        ensures
            s@ == self.spec_name(),
    {
        match self {
            RequiredField::Url => "url",
            RequiredField::Tag => "tag",
            RequiredField::Old => "old",
            RequiredField::New => "new",
            RequiredField::Id => "id",
        }
    }
}

impl BuildError {
    /// The sentence that describes the error.
    pub open spec fn message(self) -> Seq<char> {
        match self {
            BuildError::MissingRequiredField { field } => "`"@ + field.spec_name()
                + "` must be initialized"@,
            BuildError::ConstraintViolation { constraint: Constraint::Tags, limit, actual } =>
                "Endpoint only accepts up to "@ + decimal(limit as nat) + " tags (received "@
                    + decimal(actual as nat) + ")"@,
            BuildError::ConstraintViolation { constraint: Constraint::Count, limit, actual } =>
                "Endpoint only accepts `count` of "@ + decimal(limit as nat) + " or less"@,
        }
    }

    /// The sentence that describes the error.
    pub fn to_string(&self) -> (s: String)
        ensures
            s@ == self.message(),
    {
        match self {
            BuildError::MissingRequiredField { field } => {
                let mut s = String::from_str("`");
                s.append(field.name());
                s.append("` must be initialized");
                s
            },
            BuildError::ConstraintViolation { constraint: Constraint::Tags, limit, actual } => {
                let mut s = String::from_str("Endpoint only accepts up to ");
                s.append(decimal_text(*limit).as_str());
                s.append(" tags (received ");
                s.append(decimal_text(*actual).as_str());
                s.append(")");
                s
            },
            BuildError::ConstraintViolation { constraint: Constraint::Count, limit, actual } => {
                let mut s = String::from_str("Endpoint only accepts `count` of ");
                s.append(decimal_text(*limit).as_str());
                s.append(" or less");
                s
            },
        }
    }
}

/// Holds `actual` against the most an endpoint accepts.
pub fn check_limit(constraint: Constraint, limit: u64, actual: u64) -> (r: Result<(), BuildError>)
    ensures
        actual <= limit ==> r is Ok,
        actual > limit ==> r == Err::<(), BuildError>(
            (BuildError::ConstraintViolation { constraint, limit, actual }),
        ),
{
    if actual > limit {
        Err(BuildError::ConstraintViolation { constraint, limit, actual })
    } else {
        Ok(())
    }
}

} // verus!
