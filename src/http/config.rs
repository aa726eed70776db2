use vstd::prelude::*;

use crate::error::SeriaError;

verus! {

/// Parameters of the request/response client.
#[derive(Clone, Debug)]
pub struct HttpConfig {
    /// The credential sent with every request.
    pub token: String,
    /// The base address of the API.
    pub api_url: String,
}

/// `s` without the slashes at its end.
pub open spec fn trim_trailing_slashes(s: Seq<char>) -> Seq<char>
    decreases s.len(),
{
    if s.len() > 0 && s.last() == '/' {
        trim_trailing_slashes(s.drop_last())
    } else {
        s
    }
}

/// The URL of `path` under the base address `base`: the base without its trailing
/// slashes, a slash, then the path.
pub open spec fn url_of(base: Seq<char>, path: Seq<char>) -> Seq<char> {
    trim_trailing_slashes(base) + "/"@ + path
}

impl HttpConfig {
    /// The configuration of the public API for the credential `token`; an empty credential
    /// is refused.
    pub fn new(token: &str) -> (r: Result<HttpConfig, SeriaError>)
        ensures
            r is Err <==> token@.len() == 0,
            r matches Err(e) ==> (e matches SeriaError::Other(m) && m@ == "Token cannot be empty"@),
            r matches Ok(c) ==> c.token@ == token@ && c.api_url@ == "https://api.revolt.chat"@,
    {
        if token.is_empty() {
            return Err(SeriaError::Other(String::from_str("Token cannot be empty")));
        }
        Ok(HttpConfig {
            token: String::from_str(token),
            api_url: String::from_str("https://api.revolt.chat"),
        })
    }

    /// The full URL of `path` under this configuration's base address.
    pub fn make_url(&self, path: &str) -> (r: String)
        ensures
            r@ == url_of(self.api_url@, path@),
    {
        let base = self.api_url.as_str();
        let mut end = base.unicode_len();
        assert(base@.subrange(0, end as int) =~= base@);
        while end > 0 && base.get_char(end - 1) == '/'
            invariant
                end <= base@.len(),
                trim_trailing_slashes(base@) == trim_trailing_slashes(base@.subrange(0, end as int)),
            decreases end,
        {
            assert(base@.subrange(0, end as int).drop_last() =~= base@.subrange(0, end - 1));
            end = end - 1;
        }
        let trimmed = base.substring_char(0, end);
        String::from_str(trimmed).concat("/").concat(path)
    }
}

} // verus!
