//! The public API's error surface: each error's HTTP status, its stable
//! numeric code, and the JSON body the response carries.

use vstd::prelude::*;
use crate::textfmt::{dec_str, json_string, u64_to_string, append_json_string};

verus! {

/// One finding of the declaration validator, as the API reports it.
pub struct ValidationError {
    pub field: String,
    pub msg: String,
}

/// Everything the public API can answer with when a request fails.
pub enum ApiErrorResponse {
    BadCsrfToken,
    SessionExpired,
    ValidationFailed(Vec<ValidationError>),
    InternalError,
    NoActiveGuild,
    NotGuildAdmin,
    PluginNotFound,
    NoAccessToPlugin,
    UserPluginLimitReached,
}

/// The HTTP status each error answers with.
pub open spec fn spec_status(e: ApiErrorResponse) -> int {
    match e {
        ApiErrorResponse::SessionExpired => 400,
        ApiErrorResponse::BadCsrfToken => 400,
        ApiErrorResponse::InternalError => 500,
        ApiErrorResponse::ValidationFailed(_) => 400,
        ApiErrorResponse::NoActiveGuild => 400,
        ApiErrorResponse::NotGuildAdmin => 403,
        ApiErrorResponse::NoAccessToPlugin => 403,
        ApiErrorResponse::UserPluginLimitReached => 400,
        ApiErrorResponse::PluginNotFound => 400,
    }
}

/// The stable numeric code of each error.
pub open spec fn spec_code(e: ApiErrorResponse) -> int {
    match e {
        ApiErrorResponse::SessionExpired => 1,
        ApiErrorResponse::BadCsrfToken => 2,
        ApiErrorResponse::InternalError => 3,
        ApiErrorResponse::ValidationFailed(_) => 4,
        ApiErrorResponse::NoActiveGuild => 5,
        ApiErrorResponse::NotGuildAdmin => 6,
        ApiErrorResponse::NoAccessToPlugin => 7,
        ApiErrorResponse::UserPluginLimitReached => 8,
        ApiErrorResponse::PluginNotFound => 9,
    }
}

/// The plain-language message of each error.
pub open spec fn spec_message(e: ApiErrorResponse) -> Seq<char> {
    match e {
        ApiErrorResponse::BadCsrfToken => "csrf token expired"@,
        ApiErrorResponse::SessionExpired => "Session expired"@,
        ApiErrorResponse::ValidationFailed(_) => "validation failed"@,
        ApiErrorResponse::InternalError => "internal server error"@,
        ApiErrorResponse::NoActiveGuild => "no active guild"@,
        ApiErrorResponse::NotGuildAdmin => "not guild admin"@,
        ApiErrorResponse::PluginNotFound => "Plugin does not exist"@,
        ApiErrorResponse::NoAccessToPlugin => "you do not have access to this plugin"@,
        ApiErrorResponse::UserPluginLimitReached => "you have created too many plugins"@,
    }
}

/// One validator finding as a JSON object.
pub open spec fn validation_error_json(field: Seq<char>, msg: Seq<char>) -> Seq<char> {
    "{\"field\":"@ + json_string(field) + ",\"msg\":"@ + json_string(msg) + "}"@
}

/// The comma-separated findings.
pub open spec fn validation_items_json(list: Seq<ValidationError>) -> Seq<char>
    decreases list.len(),
{
    if list.len() == 0 {
        Seq::empty()
    } else if list.len() == 1 {
        validation_error_json(list[0].field@, list[0].msg@)
    } else {
        validation_items_json(list.drop_last()) + seq![','] + validation_error_json(
            list.last().field@,
            list.last().msg@,
        )
    }
}

/// The findings of a failed validation as a JSON array.
pub open spec fn validation_errors_json(list: Seq<ValidationError>) -> Seq<char> {
    "["@ + validation_items_json(list) + "]"@
}

/// What the public body's description field carries: for a failed validation
/// the serialized findings, for every other error its message.
pub open spec fn spec_public_desc(e: ApiErrorResponse) -> Seq<char> {
    match e {
        ApiErrorResponse::ValidationFailed(list) => validation_errors_json(list@),
        _ => spec_message(e),
    }
}

impl ApiErrorResponse {
    /// The plain-language message; what a formatter would print for the
    /// error.
    pub fn message(&self) -> (r: String)
        ensures
            r@ == spec_message(*self),
    {
        match self {
            ApiErrorResponse::BadCsrfToken => String::from_str("csrf token expired"),
            ApiErrorResponse::SessionExpired => String::from_str("Session expired"),
            ApiErrorResponse::ValidationFailed(_) => String::from_str("validation failed"),
            ApiErrorResponse::InternalError => String::from_str("internal server error"),
            ApiErrorResponse::NoActiveGuild => String::from_str("no active guild"),
            ApiErrorResponse::NotGuildAdmin => String::from_str("not guild admin"),
            ApiErrorResponse::PluginNotFound => String::from_str("Plugin does not exist"),
            ApiErrorResponse::NoAccessToPlugin => String::from_str(
                "you do not have access to this plugin",
            ),
            ApiErrorResponse::UserPluginLimitReached => String::from_str(
                "you have created too many plugins",
            ),
        }
    }

    /// The public face of the error: HTTP status, stable code, and the
    /// description the body carries.
    pub fn public_desc(&self) -> (r: (u16, u32, String))
        ensures
            r.0 == spec_status(*self),
            r.1 == spec_code(*self),
            r.2@ == spec_public_desc(*self),
    {
        match self {
            ApiErrorResponse::SessionExpired => (400, 1, self.message()),
            ApiErrorResponse::BadCsrfToken => (400, 2, self.message()),
            ApiErrorResponse::InternalError => (500, 3, self.message()),
            ApiErrorResponse::ValidationFailed(list) => (400, 4, serialize_validation_errors(list)),
            ApiErrorResponse::NoActiveGuild => (400, 5, self.message()),
            ApiErrorResponse::NotGuildAdmin => (403, 6, self.message()),
            ApiErrorResponse::NoAccessToPlugin => (403, 7, self.message()),
            ApiErrorResponse::UserPluginLimitReached => (400, 8, self.message()),
            ApiErrorResponse::PluginNotFound => (400, 9, self.message()),
        }
    }
}

/// Serialize the validator findings as a JSON array of objects.
pub fn serialize_validation_errors(list: &Vec<ValidationError>) -> (r: String)
    ensures
        r@ == validation_errors_json(list@),
{
    let mut out = String::from_str("[");
    let mut i: usize = 0;
    while i < list.len()
        invariant
            i <= list.len(),
            out@ == "["@ + validation_items_json(list@.subrange(0, i as int)),
        decreases list.len() - i,
    {
        if i > 0 {
            out.append(",");
            proof {
                reveal_strlit(",");
            }
        }
        out.append("{\"field\":");
        append_json_string(&mut out, &list[i].field);
        out.append(",\"msg\":");
        append_json_string(&mut out, &list[i].msg);
        out.append("}");
        proof {
            let now = list@.subrange(0, i + 1);
            assert(now.drop_last() =~= list@.subrange(0, i as int));
            assert(now.last() == list@[i as int]);
            if i == 0 {
                assert(now.len() == 1);
                assert(now[0] == list@[0]);
                assert(out@ =~= "["@ + validation_items_json(now));
            } else {
                assert(out@ =~= "["@ + validation_items_json(now));
            }
        }
        i += 1;
    }
    proof {
        assert(list@.subrange(0, list@.len() as int) =~= list@);
    }
    out.append("]");
    proof {
        assert(out@ =~= validation_errors_json(list@));
    }
    out
}

/// The JSON body an error response carries: its stable code and public
/// description.
pub open spec fn error_body_json(e: ApiErrorResponse) -> Seq<char> {
    "{\"code\":"@ + dec_str(spec_code(e)) + ",\"description\":"@ + json_string(
        spec_public_desc(e),
    ) + "}"@
}

/// Build the response body for one error.
pub fn error_response_body(e: &ApiErrorResponse) -> (r: String)
    ensures
        r@ == error_body_json(*e),
{
    let (_, code, desc) = e.public_desc();
    let mut out = String::from_str("{\"code\":");
    let code_text = u64_to_string(code as u64);
    out.append(code_text.as_str());
    out.append(",\"description\":");
    append_json_string(&mut out, &desc);
    out.append("}");
    proof {
        assert(out@ =~= error_body_json(*e));
    }
    out
}

} // verus!
