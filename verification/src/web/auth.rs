//! API keys: what a key must look like, how one is made, and where a request
//! carries it.

use crate::config::types::opt_text;
use crate::text::{char_is_alphanumeric, chars_of, is_alphanumeric, str_equal};
use vstd::prelude::*;

verus! {

/// The header that carries the API key.
pub const API_KEY_HEADER: &'static str = "X-API-Key";

/// The query parameter that carries the API key.
pub const API_KEY_QUERY: &'static str = "api_key";

/// Why a request is not let through.
#[derive(Clone, Copy, Debug, PartialEq, Eq, Structural)]
pub enum AuthError {
    /// It carries no key.
    MissingApiKey,
    /// It carries the wrong key.
    InvalidApiKey,
    /// Keys are not asked for.
    AuthDisabled,
}

/// `data` with its percent escapes decoded, where what comes out is UTF-8.
pub uninterp spec fn percent_decoded(data: Seq<char>) -> Option<Seq<char>>;

/// `decode` of the urlencoding crate: the text with its percent escapes
/// decoded, or nothing where the decoded bytes are no UTF-8. The result
/// depends on the text alone and is called `percent_decoded` here.
#[verifier::external_body]
fn percent_decode(data: &str) -> (r: Option<String>)
    ensures
        opt_text(r) == percent_decoded(data@),
{
    match urlencoding::decode(data) {
        Ok(text) => Some(text.into_owned()),
        Err(_) => None,
    }
}

/// `Rng::gen_range` of the rand crate on the thread's generator, for the
/// range from 0 up to `bound`: some number below `bound`, drawn at random.
/// An empty range makes it panic, so `bound` must not be 0.
#[verifier::external_body]
fn random_below(bound: usize) -> (r: usize)
    requires
        bound > 0,
    ensures
        r < bound,
{
    rand::Rng::gen_range(&mut rand::thread_rng(), 0..bound)
}

/// Whether every character of `key` is alphanumeric.
pub open spec fn all_alphanumeric(key: Seq<char>) -> bool {
    forall|i: int| 0 <= i < key.len() ==> char_is_alphanumeric(#[trigger] key[i])
}

/// Whether `api_key` looks like an API key: at least 16 bytes long, and
/// nothing but letters and digits.
pub fn validate_api_key(api_key: &str) -> (r: bool)
    ensures
        r == (api_key.len() >= 16 && all_alphanumeric(api_key@)),
{
    if api_key.len() < 16 {
        return false;
    }
    let v = chars_of(api_key);
    let mut i: usize = 0;
    while i < v.len()
        invariant
            i <= v.len(),
            v@ == api_key@,
            forall|j: int| 0 <= j < i ==> char_is_alphanumeric(#[trigger] api_key@[j]),
        decreases v.len() - i,
    {
        if !is_alphanumeric(v[i]) {
            return false;
        }
        i += 1;
    }
    true
}

/// Makes an API key: 32 characters, each drawn at random from the ASCII
/// letters and digits.
pub fn generate_api_key() -> (key: String)
    ensures
        key@.len() == 32,
        forall|i: int|
            0 <= i < 32 ==> "ABCDEFGHIJKLMNOPQRSTUVWXYZabcdefghijklmnopqrstuvwxyz0123456789"@.contains(
                #[trigger] key@[i],
            ),
{
    let charset = "ABCDEFGHIJKLMNOPQRSTUVWXYZabcdefghijklmnopqrstuvwxyz0123456789";
    proof {
        reveal_strlit("ABCDEFGHIJKLMNOPQRSTUVWXYZabcdefghijklmnopqrstuvwxyz0123456789");
    }
    let mut key = String::new();
    let mut n: usize = 0;
    while n < 32
        invariant
            n <= 32,
            charset@ == "ABCDEFGHIJKLMNOPQRSTUVWXYZabcdefghijklmnopqrstuvwxyz0123456789"@,
            charset@.len() == 62,
            key@.len() == n,
            forall|i: int| 0 <= i < n ==> charset@.contains(#[trigger] key@[i]),
        decreases 32 - n,
    {
        let at = random_below(62);
        let ghost before = key@;
        key.append(charset.substring_char(at, at + 1));
        proof {
            assert(charset@.subrange(at as int, at + 1) =~= seq![charset@[at as int]]);
            assert(key@ =~= before.push(charset@[at as int]));
            assert(charset@.contains(charset@[at as int]));
            assert forall|i: int| 0 <= i < n + 1 implies charset@.contains(#[trigger] key@[i]) by {
                if i < n {
                    assert(key@[i] == before[i]);
                }
            }
        }
        n += 1;
    }
    key
}

/// Where the piece of a query that begins at `from` ends: at the next `&`,
/// or at the end.
pub open spec fn piece_end(query: Seq<char>, from: int) -> int
    decreases query.len() - from,
{
    if from < 0 || from >= query.len() || query[from] == '&' {
        from
    } else {
        piece_end(query, from + 1)
    }
}

/// The position of the first `=` between `from` and `end`, or `end` where
/// there is none.
pub open spec fn equals_at(query: Seq<char>, from: int, end: int) -> int
    decreases end - from,
{
    if from >= end || query[from] == '=' {
        from
    } else {
        equals_at(query, from + 1, end)
    }
}

/// The value of the first piece `key=value` of the query from `from` on
/// whose key is `key`. Pieces are separated by `&`, and a piece is split at
/// its first `=`.
pub open spec fn query_value(query: Seq<char>, key: Seq<char>, from: int) -> Option<Seq<char>>
    decreases query.len() - from,
    via query_value_decreases
{
    if from < 0 || from > query.len() {
        None
    } else {
        let end = piece_end(query, from);
        let eq = equals_at(query, from, end);
        if eq < end && query.subrange(from, eq) == key {
            Some(query.subrange(eq + 1, end))
        } else if end < query.len() {
            query_value(query, key, end + 1)
        } else {
            None
        }
    }
}

#[via_fn]
proof fn query_value_decreases(query: Seq<char>, key: Seq<char>, from: int) {
    if 0 <= from <= query.len() {
        lemma_piece_end(query, from);
    }
}

/// A piece ends at or after where it begins, inside the query.
pub proof fn lemma_piece_end(query: Seq<char>, from: int)
    requires
        0 <= from <= query.len(),
    ensures
        from <= piece_end(query, from) <= query.len(),
    decreases query.len() - from,
{
    if from < query.len() && query[from] != '&' {
        lemma_piece_end(query, from + 1);
    }
}

/// The API key that a query carries: the value of its first `api_key`
/// piece, with its percent escapes decoded. A query without such a piece, or
/// with one that does not decode, carries none.
pub open spec fn api_key_in_query(query: Seq<char>) -> Option<Seq<char>> {
    match query_value(query, "api_key"@, 0) {
        Some(value) => percent_decoded(value),
        None => None,
    }
}

fn same_run(text: &Vec<char>, from: usize, to: usize, word: &Vec<char>) -> (r: bool)
    requires
        from <= to <= text.len(),
    ensures
        r == (text@.subrange(from as int, to as int) == word@),
{
    if to - from != word.len() {
        return false;
    }
    let mut i: usize = 0;
    while i < word.len()
        invariant
            i <= word.len(),
            from <= to <= text.len(),
            to - from == word.len(),
            forall|j: int| 0 <= j < i ==> text@[from + j] == word@[j],
        decreases word.len() - i,
    {
        if text[from + i] != word[i] {
            assert(text@.subrange(from as int, to as int)[i as int] == text@[from + i]);
            return false;
        }
        i += 1;
    }
    assert(text@.subrange(from as int, to as int) =~= word@);
    true
}

/// Finds the API key that a query carries.
pub fn get_api_key_from_query(query: &str) -> (r: Option<String>)
    ensures
        opt_text(r) == api_key_in_query(query@),
{
    let text = chars_of(query);
    let key = chars_of("api_key");
    let mut from: usize = 0;
    loop
        invariant
            from <= text.len(),
            text@ == query@,
            key@ == "api_key"@,
            query_value(query@, "api_key"@, 0) == query_value(query@, "api_key"@, from as int),
        decreases text.len() - from,
    {
        let mut end: usize = from;
        while end < text.len() && text[end] != '&'
            invariant
                from <= end <= text.len(),
                piece_end(text@, from as int) == piece_end(text@, end as int),
            decreases text.len() - end,
        {
            end += 1;
        }
        let mut eq: usize = from;
        while eq < end && text[eq] != '='
            invariant
                from <= eq <= end <= text.len(),
                equals_at(text@, from as int, end as int) == equals_at(
                    text@,
                    eq as int,
                    end as int,
                ),
            decreases end - eq,
        {
            eq += 1;
        }
        if eq < end && same_run(&text, from, eq, &key) {
            return percent_decode(query.substring_char(eq + 1, end));
        }
        if end < text.len() {
            from = end + 1;
        } else {
            return None;
        }
    }
}

/// Whether a request is let through. It is where keys are not asked for or
/// none is configured. Else the key in the header decides where there is
/// one, then the key in the query; a request without a key is turned away.
pub open spec fn admitted(
    disable_auth: bool,
    expected: Option<Seq<char>>,
    header_key: Option<Seq<char>>,
    query: Seq<char>,
) -> Result<(), AuthError> {
    if disable_auth || expected is None {
        Ok(())
    } else if header_key is Some {
        if header_key->0 == expected->0 {
            Ok(())
        } else {
            Err(AuthError::InvalidApiKey)
        }
    } else if api_key_in_query(query) is Some {
        if api_key_in_query(query)->0 == expected->0 {
            Ok(())
        } else {
            Err(AuthError::InvalidApiKey)
        }
    } else {
        Err(AuthError::MissingApiKey)
    }
}

/// The characters of an optional string slice.
pub open spec fn opt_str_text(o: Option<&str>) -> Option<Seq<char>> {
    match o {
        Some(s) => Some(s@),
        None => None,
    }
}

/// Decides whether a request is let through, from whether keys are asked
/// for, the key that is configured, the key in the request's header and the
/// request's query.
pub fn authenticate(
    disable_auth: bool,
    expected_api_key: Option<&str>,
    header_key: Option<&str>,
    query: &str,
) -> (r: Result<(), AuthError>)
    ensures
        r == admitted(
            disable_auth,
            opt_str_text(expected_api_key),
            opt_str_text(header_key),
            query@,
        ),
{
    if disable_auth {
        return Ok(());
    }
    let expected = match expected_api_key {
        Some(key) => key,
        None => {
            return Ok(());
        },
    };
    match header_key {
        Some(key) => {
            if str_equal(key, expected) {
                return Ok(());
            } else {
                return Err(AuthError::InvalidApiKey);
            }
        },
        None => {},
    }
    match get_api_key_from_query(query) {
        Some(key) => {
            if str_equal(key.as_str(), expected) {
                Ok(())
            } else {
                Err(AuthError::InvalidApiKey)
            }
        },
        None => Err(AuthError::MissingApiKey),
    }
}

impl AuthError {
    /// The HTTP status that answers the error.
    pub fn status_code(&self) -> (code: u16)
        ensures
            code == match self {
                AuthError::MissingApiKey => 401u16,
                AuthError::InvalidApiKey => 401u16,
                AuthError::AuthDisabled => 200u16,
            },
    {
        match self {
            AuthError::MissingApiKey => 401,
            AuthError::InvalidApiKey => 401,
            AuthError::AuthDisabled => 200,
        }
    }

    /// The text that reports the error.
    pub open spec fn message_text(&self) -> Seq<char> {
        match self {
            AuthError::MissingApiKey => "缺少API密钥，请在X-API-Key头部或api_key查询参数中提供"@,
            AuthError::InvalidApiKey => "无效的API密钥"@,
            AuthError::AuthDisabled => "认证已禁用"@,
        }
    }

    /// The text that reports the error.
    pub fn to_string(&self) -> (s: String)
        ensures
            s@ == self.message_text(),
    {
        match self {
            AuthError::MissingApiKey => "缺少API密钥，请在X-API-Key头部或api_key查询参数中提供".to_string(),
            AuthError::InvalidApiKey => "无效的API密钥".to_string(),
            AuthError::AuthDisabled => "认证已禁用".to_string(),
        }
    }
}

} // verus!
