//! Who may ingest and who may query: an emitter proves itself by its token,
//! a user by the administrator's credential.

use vstd::prelude::*;
use vstd::string::StrSliceExecFns;
use crate::emitters::Emitter;
use crate::error::{AppError, UNAUTHORIZED};

verus! {

/// An emitter whose token was found in the registry.
#[derive(Debug)]
pub struct AuthenticatedEmitter {
    pub description: String,
}

/// A user who presented the administrator's credential.
#[derive(Clone, Copy, Debug)]
pub struct AuthenticatedUser {}

/// The token that a request presents: the one in the `emitter` header, else
/// the one in the path.
pub open spec fn presented_token(header: Option<String>, path: Option<String>) -> Option<String> {
    match header {
        Some(token) => Some(token),
        None => path,
    }
}

/// The position at or after `from` of the first row that holds `token`.
pub open spec fn find_token(rows: Seq<Emitter>, token: Seq<char>, from: int) -> Option<int>
    decreases rows.len() - from,
{
    if from < 0 || from >= rows.len() {
        None
    } else if rows[from].token@ == token {
        Some(from)
    } else {
        find_token(rows, token, from + 1)
    }
}

/// The position at or after `from` of the first space of `text`, or the
/// length of `text` where there is none.
pub open spec fn first_space(text: Seq<char>, from: int) -> int
    decreases text.len() - from,
{
    if from < 0 || from >= text.len() {
        text.len() as int
    } else if text[from] == ' ' {
        from
    } else {
        first_space(text, from + 1)
    }
}

/// The credential in an `Authorization` header: what stands between the
/// first space and the next one, or the word `invalid` where the header has
/// no space.
pub open spec fn credential_of(header: Seq<char>) -> Seq<char> {
    let start = first_space(header, 0);
    if start >= header.len() {
        "invalid"@
    } else {
        header.subrange(start + 1, first_space(header, start + 1))
    }
}

/// Picks the token that a request presents. A request without one is not
/// authorized.
pub fn emitter_token(header: Option<String>, path: Option<String>) -> (r: Result<String, AppError>)
    ensures
        r == match presented_token(header, path) {
            Some(token) => Ok(token),
            None => Err::<String, AppError>(AppError::Status(UNAUTHORIZED)),
        },
{
    match header {
        Some(token) => Ok(token),
        None => match path {
            Some(token) => Ok(token),
            None => Err(AppError::Status(UNAUTHORIZED)),
        },
    }
}

/// Finds the position of the first space at or after `from`, counted in
/// characters; the length of the text where there is none.
pub fn find_space(text: &str, from: usize) -> (at: usize)
    ensures
        at == first_space(text@, from as int),
        at <= text@.len(),
        from <= text@.len() ==> from <= at,
{
    let len = text.unicode_len();
    if from >= len {
        return len;
    }
    let mut at = from;
    while at < len
        invariant
            from <= at <= len,
            len == text@.len(),
            first_space(text@, from as int) == first_space(text@, at as int),
        decreases len - at,
    {
        if text.get_char(at) == ' ' {
            return at;
        }
        at += 1;
    }
    at
}

/// Reads the credential out of an `Authorization` header.
pub fn credential(header: &str) -> (r: String)
    ensures
        r@ == credential_of(header@),
{
    let len = header.unicode_len();
    let start = find_space(header, 0);
    if start >= len {
        "invalid".to_owned()
    } else {
        let end = find_space(header, start + 1);
        header.substring_char(start + 1, end).to_owned()
    }
}

impl AuthenticatedEmitter {
    /// Authenticates an emitter: the token that the request presents must be
    /// that of a registered emitter, whose description is then known. Of
    /// several rows with one token the first counts.
    pub fn from_request_parts(
        rows: &Vec<Emitter>,
        header: Option<String>,
        path: Option<String>,
    ) -> (r: Result<AuthenticatedEmitter, AppError>)
        ensures
            match r {
                Ok(emitter) => {
                    &&& presented_token(header, path) matches Some(token)
                    &&& find_token(rows@, token@, 0) matches Some(i)
                    &&& emitter.description == rows@[i].description
                },
                Err(e) => {
                    &&& e == AppError::Status(UNAUTHORIZED)
                    &&& presented_token(header, path) matches Some(token) ==> find_token(
                        rows@,
                        token@,
                        0,
                    ) is None
                },
            },
    {
        let token = match emitter_token(header, path) {
            Ok(token) => token,
            Err(e) => {
                return Err(e);
            },
        };
        let mut i: usize = 0;
        while i < rows.len()
            invariant
                i <= rows@.len(),
                presented_token(header, path) == Some(token),
                find_token(rows@, token@, 0) == find_token(rows@, token@, i as int),
            decreases rows@.len() - i,
        {
            if rows[i].token == token {
                assert(find_token(rows@, token@, i as int) == Some(i as int));
                return Ok(AuthenticatedEmitter { description: rows[i].description.clone() });
            }
            i += 1;
        }
        Err(AppError::Status(UNAUTHORIZED))
    }
}

impl AuthenticatedUser {
    /// Authenticates a user: the credential in the `Authorization` header
    /// must be the administrator's. A request without the header is not
    /// authorized.
    pub fn from_request_parts(authorization: &Option<String>, admin_auth: &String) -> (r: Result<
        AuthenticatedUser,
        AppError,
    >)
        ensures
            r is Ok <==> (authorization matches Some(header) && credential_of(header@)
                == admin_auth@),
            r matches Err(e) ==> e == AppError::Status(UNAUTHORIZED),
    {
        match authorization {
            None => Err(AppError::Status(UNAUTHORIZED)),
            Some(header) => {
                if credential(header.as_str()) == *admin_auth {
                    Ok(AuthenticatedUser {  })
                } else {
                    Err(AppError::Status(UNAUTHORIZED))
                }
            },
        }
    }
}

} // verus!
