//! What a dashboard answers to a request.

use vstd::prelude::*;

use crate::json;
use crate::json::Json;

verus! {

#[derive(Debug, PartialEq, Eq)]
pub enum Reply {
    /// Something was added, under this number.
    Created { id: usize },
    /// A run was started.
    Accepted,
    /// What was asked for is done, and there is nothing to say.
    NoContent,
    BadRequest { error: String },
    NotFound { error: String },
    Conflict { error: String },
    InternalServerError { error: String },
}

/// An object that holds an error.
pub open spec fn error_members(error: Seq<char>) -> Map<Seq<char>, Json> {
    json::no_members().insert("error"@, Json::Text(error))
}

impl Reply {
    /// The status code of the answer.
    pub fn status(&self) -> (r: u16)
        ensures
            r == self.code(),
            r == (match *self {
                Reply::Created { .. } => 201u16,
                Reply::Accepted => 202u16,
                Reply::NoContent => 204u16,
                Reply::BadRequest { .. } => 400u16,
                Reply::NotFound { .. } => 404u16,
                Reply::Conflict { .. } => 409u16,
                Reply::InternalServerError { .. } => 500u16,
            }),
    {
        match self {
            Reply::Created { .. } => 201,
            Reply::Accepted => 202,
            Reply::NoContent => 204,
            Reply::BadRequest { .. } => 400,
            Reply::NotFound { .. } => 404,
            Reply::Conflict { .. } => 409,
            Reply::InternalServerError { .. } => 500,
        }
    }

    /// The members of the object that the answer carries.
    pub open spec fn members(self) -> Option<Map<Seq<char>, Json>> {
        match self {
            Reply::Created { id } => Some(
                json::no_members().insert("id"@, Json::Number(id as nat)),
            ),
            Reply::Accepted => Some(
                json::no_members().insert("status"@, Json::Text("started"@)),
            ),
            Reply::NoContent => None,
            Reply::BadRequest { error } => Some(error_members(error@)),
            Reply::NotFound { error } => Some(error_members(error@)),
            Reply::Conflict { error } => Some(error_members(error@)),
            Reply::InternalServerError { error } => Some(error_members(error@)),
        }
    }

    /// The object that the answer carries, if it carries one.
    pub fn body(&self) -> (r: Option<serde_json::Map<String, serde_json::Value>>)
        ensures
            match r {
                Some(object) => self.members() == Some(json::members(object)),
                None => self.members() is None,
            },
    {
        let mut object = json::object();
        match self {
            Reply::Created { id } => {
                json::put_number(&mut object, "id", *id as u64);
            },
            Reply::Accepted => {
                json::put_text(&mut object, "status", "started");
            },
            Reply::NoContent => {
                return None;
            },
            Reply::BadRequest { error } => {
                json::put_text(&mut object, "error", error.as_str());
            },
            Reply::NotFound { error } => {
                json::put_text(&mut object, "error", error.as_str());
            },
            Reply::Conflict { error } => {
                json::put_text(&mut object, "error", error.as_str());
            },
            Reply::InternalServerError { error } => {
                json::put_text(&mut object, "error", error.as_str());
            },
        }
        Some(object)
    }
}

impl Reply {
    /// The status code of the answer.
    pub open spec fn code(self) -> u16 {
        match self {
            Reply::Created { .. } => 201u16,
            Reply::Accepted => 202u16,
            Reply::NoContent => 204u16,
            Reply::BadRequest { .. } => 400u16,
            Reply::NotFound { .. } => 404u16,
            Reply::Conflict { .. } => 409u16,
            Reply::InternalServerError { .. } => 500u16,
        }
    }

    /// Whether the answer refuses what was asked for.
    pub open spec fn refuses(self) -> bool {
        self is BadRequest || self is NotFound || self is Conflict || self is InternalServerError
    }
}

/// An answer that refuses has the code of an error, and any other the code of a success; answers
/// of different sorts have different codes.
pub proof fn law_codes_of_answers(a: Reply, b: Reply)
    ensures
        a.refuses() <==> 400 <= a.code() <= 599,
        !a.refuses() <==> 200 <= a.code() <= 299,
        a is InternalServerError <==> a.code() >= 500,
        a is BadRequest <==> a.code() == 400,
        a is NotFound <==> a.code() == 404,
        a is Conflict <==> a.code() == 409,
        a is Created <==> a.code() == 201,
        a is Accepted <==> a.code() == 202,
        a is NoContent <==> a.code() == 204,
        a.members() is None <==> a is NoContent,
        a.refuses() ==> a.members() is Some && a.members()->0.dom() =~= set!["error"@],
{
}

} // verus!
