use vstd::prelude::*;
use crate::api::endpoint_prelude::{BuildError, Endpoint, Method, RequiredField};
use crate::api::params::QueryParams;
use crate::api::v1::{Limit, DEFAULT_SECS_BETWEEN_CALLS};

verus! {

/// Create a Note endpoint for retrieving a single note.
///
/// <https://pinboard.in/api/#notes_get>
///
/// # Arguments
/// * `id` - id of the note to retrieve
#[derive(Debug, Clone)]
pub struct Note {
    id: String,
}

/// The builder of a `Note` endpoint.
#[derive(Debug, Clone)]
pub struct NoteBuilder {
    id: Option<String>,
}

impl Note {
    /// The note id.
    pub closed spec fn spec_id(&self) -> Seq<char> {
        self.id@
    }

    /// Create a builder for the endpoint.
    pub fn builder() -> (b: NoteBuilder)
        ensures
            b.spec_id() is None,
    {
        NoteBuilder { id: None }
    }
}

impl NoteBuilder {
    /// The note id, if it was set.
    pub closed spec fn spec_id(&self) -> Option<Seq<char>> {
        match self.id {
            Some(id) => Some(id@),
            None => None,
        }
    }

    /// The note id.
    pub fn id(self, id: &str) -> (b: NoteBuilder)
        ensures
            b.spec_id() == Some(id@),
    {
        NoteBuilder { id: Some(String::from_str(id)) }
    }

    /// Builds the endpoint, or says that `id` was never set.
    pub fn build(self) -> (r: Result<Note, BuildError>)
        ensures
            match self.spec_id() {
                Some(id) => r matches Ok(e) && e.spec_id() == id,
                None => r matches Err(e) && e == (BuildError::MissingRequiredField {
                    field: RequiredField::Id,
                }),
            },
    {
        match self.id {
            Some(id) => Ok(Note { id }),
            None => Err(BuildError::MissingRequiredField { field: RequiredField::Id }),
        }
    }
}

impl Endpoint for Note {
    open spec fn spec_method(&self) -> Method {
        Method::Get
    }

    /// The note's own path: its id between `v1/notes/` and a slash.
    open spec fn spec_endpoint(&self) -> Seq<char> {
        "v1/notes/"@ + self.spec_id() + "/"@
    }

    open spec fn spec_parameters(&self) -> Seq<(Seq<char>, Seq<char>)> {
        Seq::empty()
    }

    fn method(&self) -> (m: Method) {
        Method::Get
    }

    fn endpoint(&self) -> (path: String) {
        let mut path = String::from_str("v1/notes/");
        path.append(self.id.as_str());
        path.append("/");
        path
    }

    fn parameters(&self) -> (params: QueryParams) {
        QueryParams::new()
    }
}

impl Limit for Note {
    open spec fn spec_secs_between_calls() -> nat {
        DEFAULT_SECS_BETWEEN_CALLS as nat
    }

    fn secs_between_calls() -> (secs: usize) {
        DEFAULT_SECS_BETWEEN_CALLS
    }
}

} // verus!
