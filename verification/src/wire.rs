//! Reading and writing the wire bodies exchanged with the identity
//! provider, the WebChat token endpoint and the conversation relay.
//!
//! JSON documents arriving from the network are read through a small set of
//! trusted field accessors; everything built from their results is verified
//! against the names given to those accessors.  Outgoing activity bodies
//! are framed here by verified string building.

use vstd::prelude::*;

use crate::directline::ConversationToken;
use crate::error::MyError;

verus! {

// ------------------------------------------------------------------
// Trusted accessors over JSON documents.
// ------------------------------------------------------------------

/// The string value at a top-level key of a JSON document, if the document
/// parses and the key holds a string.
pub uninterp spec fn json_str_field_of(body: Seq<char>, key: Seq<char>) -> Option<Seq<char>>;

/// The integer value at a top-level key of a JSON document, if the document
/// parses and the key holds an integer representable as `i64`.
pub uninterp spec fn json_i64_field_of(body: Seq<char>, key: Seq<char>) -> Option<i64>;

/// The integer value at a top-level key of a JSON document, if the document
/// parses and the key holds an integer representable as `u64`.
pub uninterp spec fn json_u64_field_of(body: Seq<char>, key: Seq<char>) -> Option<u64>;

/// The string a JSON document denotes when the whole document is one bare
/// JSON string.
pub uninterp spec fn json_plain_string_of(body: Seq<char>) -> Option<Seq<char>>;

/// Relies on serde_json::from_str, Value::get and Value::as_str: the string
/// at a top-level key is a function of the document and the key alone.
#[verifier::external_body]
pub(crate) fn json_str_field(body: &str, key: &str) -> (r: Option<String>)
    ensures
        r is Some <==> json_str_field_of(body@, key@) is Some,
        r matches Some(s) ==> json_str_field_of(body@, key@) == Some(s@),
{
    let v: serde_json::Value = match serde_json::from_str(body) {
        Ok(v) => v,
        Err(_) => return None,
    };
    match v.get(key) {
        Some(f) => f.as_str().map(str::to_string),
        None => None,
    }
}

/// Relies on serde_json::from_str, Value::get and Value::as_i64: the
/// integer at a top-level key is a function of the document and the key
/// alone.
#[verifier::external_body]
pub(crate) fn json_i64_field(body: &str, key: &str) -> (r: Option<i64>)
    ensures
        r == json_i64_field_of(body@, key@),
{
    let v: serde_json::Value = match serde_json::from_str(body) {
        Ok(v) => v,
        Err(_) => return None,
    };
    match v.get(key) {
        Some(f) => f.as_i64(),
        None => None,
    }
}

/// Relies on serde_json::from_str, Value::get and Value::as_u64: the
/// integer at a top-level key is a function of the document and the key
/// alone.
#[verifier::external_body]
pub(crate) fn json_u64_field(body: &str, key: &str) -> (r: Option<u64>)
    ensures
        r == json_u64_field_of(body@, key@),
{
    let v: serde_json::Value = match serde_json::from_str(body) {
        Ok(v) => v,
        Err(_) => return None,
    };
    match v.get(key) {
        Some(f) => f.as_u64(),
        None => None,
    }
}

/// Relies on serde_json::from_str::<String>: whether a document is one bare
/// JSON string, and which, is a function of the document alone.
#[verifier::external_body]
pub(crate) fn json_plain_string(body: &str) -> (r: Option<String>)
    ensures
        r is Some <==> json_plain_string_of(body@) is Some,
        r matches Some(s) ==> json_plain_string_of(body@) == Some(s@),
{
    serde_json::from_str::<String>(body).ok()
}

// ------------------------------------------------------------------
// Character scanning, verified.
// ------------------------------------------------------------------

/// The position of the first occurrence of `c` in `s` at or after `i`.
pub open spec fn first_occur(s: Seq<char>, c: char, i: int) -> Option<int>
    decreases s.len() - i,
{
    if i < 0 || i >= s.len() {
        None
    } else if s[i] == c {
        Some(i)
    } else {
        first_occur(s, c, i + 1)
    }
}

/// Where `c` first occurs at `k` and nowhere between, the scan finds `k`.
pub proof fn lemma_first_occur_exact(s: Seq<char>, c: char, from: int, k: int)
    requires
        0 <= from <= k < s.len(),
        s[k] == c,
        forall|j: int| from <= j < k ==> s[j] != c,
    ensures
        first_occur(s, c, from) == Some(k),
    decreases k - from,
{
    if from < k {
        lemma_first_occur_exact(s, c, from + 1, k);
    }
}

/// Where `c` occurs nowhere at or after `from`, the scan finds nothing.
pub proof fn lemma_first_occur_none(s: Seq<char>, c: char, from: int)
    requires
        0 <= from,
        forall|j: int| from <= j < s.len() ==> s[j] != c,
    ensures
        first_occur(s, c, from) is None,
    decreases s.len() - from,
{
    if from < s.len() {
        lemma_first_occur_none(s, c, from + 1);
    }
}

/// Finds the first occurrence of `c` in `s` at or after `from`.
pub fn find_char(s: &str, c: char, from: usize) -> (r: Option<usize>)
    requires
        from <= s@.len(),
    ensures
        r matches Some(k) ==> from <= k < s@.len() && s@[k as int] == c && first_occur(
            s@,
            c,
            from as int,
        ) == Some(k as int),
        r is None ==> first_occur(s@, c, from as int) is None,
{
    let n = s.unicode_len();
    let mut i: usize = from;
    while i < n
        invariant
            from <= i <= n,
            n == s@.len(),
            forall|j: int| from <= j < i ==> s@[j] != c,
        decreases n - i,
    {
        if s.get_char(i) == c {
            proof {
                lemma_first_occur_exact(s@, c, from as int, i as int);
            }
            return Some(i);
        }
        i = i + 1;
    }
    proof {
        lemma_first_occur_none(s@, c, from as int);
    }
    None
}

// ------------------------------------------------------------------
// Decimal parsing, verified.
// ------------------------------------------------------------------

/// Whether `c` is a decimal digit.
pub open spec fn is_dec_digit(c: char) -> bool {
    '0' <= c && c <= '9'
}

/// Whether every character of `s` is a decimal digit.
pub open spec fn all_dec_digits(s: Seq<char>) -> bool {
    forall|i: int| 0 <= i < s.len() ==> is_dec_digit(s[i])
}

/// The number a string of decimal digits denotes.
pub open spec fn dec_digits_value(s: Seq<char>) -> int
    decreases s.len(),
{
    if s.len() == 0 {
        0
    } else {
        dec_digits_value(s.drop_last()) * 10 + (s.last() as int - '0' as int)
    }
}

/// A digit string's value only grows as the string is extended.
proof fn lemma_dec_prefix_le(s: Seq<char>, k: int)
    requires
        0 <= k <= s.len(),
        all_dec_digits(s),
    ensures
        dec_digits_value(s.subrange(0, k)) <= dec_digits_value(s),
    decreases s.len() - k,
{
    if k < s.len() {
        assert(s.subrange(0, k + 1).drop_last() =~= s.subrange(0, k));
        assert(dec_digits_value(s.subrange(0, k)) >= 0) by {
            lemma_dec_value_nonneg(s.subrange(0, k));
        }
        lemma_dec_prefix_le(s, k + 1);
    } else {
        assert(s.subrange(0, k) =~= s);
    }
}

/// A digit string's value is never negative.
proof fn lemma_dec_value_nonneg(s: Seq<char>)
    requires
        all_dec_digits(s),
    ensures
        dec_digits_value(s) >= 0,
    decreases s.len(),
{
    if s.len() > 0 {
        assert(all_dec_digits(s.drop_last()));
        lemma_dec_value_nonneg(s.drop_last());
    }
}

/// Parses a non-empty, all-digit decimal string into a `u64`.  Returns
/// nothing on an empty string, a non-digit character, or a value above
/// `u64::MAX`.
pub fn parse_u64_dec(s: &str) -> (r: Option<u64>)
    ensures
        r is Some <==> (s@.len() > 0 && all_dec_digits(s@) && dec_digits_value(s@) <= u64::MAX),
        r matches Some(v) ==> v == dec_digits_value(s@),
{
    let n = s.unicode_len();
    if n == 0 {
        return None;
    }
    let mut acc: u64 = 0;
    let mut i: usize = 0;
    while i < n
        invariant
            n == s@.len(),
            0 <= i <= n,
            all_dec_digits(s@.subrange(0, i as int)),
            acc == dec_digits_value(s@.subrange(0, i as int)),
        decreases n - i,
    {
        let c = s.get_char(i);
        if c < '0' || c > '9' {
            assert(!is_dec_digit(s@[i as int]));
            return None;
        }
        let d: u64 = (c as u32 as u64) - ('0' as u32 as u64);
        assert(d == s@[i as int] as int - '0' as int);
        if acc > (u64::MAX - d) / 10 {
            proof {
                let pre = s@.subrange(0, i as int + 1);
                assert(pre.drop_last() =~= s@.subrange(0, i as int));
                assert(dec_digits_value(pre) > u64::MAX);
                if all_dec_digits(s@) {
                    lemma_dec_prefix_le(s@, i as int + 1);
                }
            }
            return None;
        }
        assert(acc * 10 + d <= u64::MAX) by {
            assert(acc <= (u64::MAX - d) / 10);
            assert(acc * 10 <= ((u64::MAX - d) / 10) * 10 <= u64::MAX - d) by (nonlinear_arith)
                requires
                    acc <= (u64::MAX - d) / 10,
                    d <= u64::MAX,
            ;
        }
        acc = acc * 10 + d;
        proof {
            let pre = s@.subrange(0, i as int + 1);
            assert(pre.drop_last() =~= s@.subrange(0, i as int));
        }
        i = i + 1;
    }
    proof {
        assert(s@.subrange(0, n as int) =~= s@);
    }
    Some(acc)
}

// ------------------------------------------------------------------
// Verified readers for the wire shapes the core consumes.
// ------------------------------------------------------------------

/// The identity provider's answer to a client-credentials exchange:
/// the application token and its lifetime in seconds.
#[derive(Debug)]
pub struct TokenResponse {
    pub access_token: String,
    pub expires_in: u64,
}

/// Whether a token-exchange response body carries both required fields in
/// well-formed shape: `access_token` a string, `expires_in` a
/// string-encoded decimal number of seconds that fits a `u64`.
pub open spec fn token_response_ok(body: Seq<char>) -> bool {
    &&& json_str_field_of(body, "access_token"@) is Some
    &&& match json_str_field_of(body, "expires_in"@) {
        Some(e) => e.len() > 0 && all_dec_digits(e) && dec_digits_value(e) <= u64::MAX,
        None => false,
    }
}

/// Reads the identity provider's token response.  Succeeds exactly when
/// `access_token` is present as a string and `expires_in` is present as a
/// string-encoded decimal that fits a `u64`; each absence or malformation
/// is its own descriptive error, and no field is invented.
pub fn parse_token_response(body: &str) -> (r: Result<TokenResponse, MyError>)
    ensures
        r is Ok <==> token_response_ok(body@),
        r matches Ok(t) ==> {
            &&& json_str_field_of(body@, "access_token"@) == Some(t.access_token@)
            &&& match json_str_field_of(body@, "expires_in"@) {
                Some(e) => t.expires_in == dec_digits_value(e),
                None => false,
            }
        },
        r matches Err(e) ==> {
            ||| (e is RequestTokenError && (json_str_field_of(body@, "access_token"@) is None
                || json_str_field_of(body@, "expires_in"@) is None))
            ||| (e is ParseIntError && (match json_str_field_of(body@, "expires_in"@) {
                Some(d) => !(d.len() > 0 && all_dec_digits(d) && dec_digits_value(d) <= u64::MAX),
                None => false,
            }))
        },
{
    let access_token = match json_str_field(body, "access_token") {
        Some(t) => t,
        None => {
            return Err(MyError::RequestTokenError("Missing token in app token".to_owned()));
        },
    };
    let expires_str = match json_str_field(body, "expires_in") {
        Some(e) => e,
        None => {
            return Err(
                MyError::RequestTokenError("Missing expires in app token".to_owned()),
            );
        },
    };
    let expires_in = match parse_u64_dec(expires_str.as_str()) {
        Some(v) => v,
        None => {
            return Err(
                MyError::ParseIntError("expires_in is not a decimal number".to_owned()),
            );
        },
    };
    Ok(TokenResponse { access_token, expires_in })
}

/// The endpoints discovered from an identity provider's well-known
/// metadata document.
#[derive(Debug)]
pub struct DiscoveryEndpoints {
    pub issuer: String,
    pub token_endpoint: String,
}

/// Whether a well-known metadata document names both the issuer and the
/// token endpoint.
pub open spec fn discovery_ok(body: Seq<char>) -> bool {
    &&& json_str_field_of(body, "issuer"@) is Some
    &&& json_str_field_of(body, "token_endpoint"@) is Some
}

/// Reads the provider's well-known metadata.  Succeeds exactly when both
/// `issuer` and `token_endpoint` are present as strings; a missing field is
/// a fatal configuration error, not retried.
pub fn discover_endpoints(body: &str) -> (r: Result<DiscoveryEndpoints, MyError>)
    ensures
        r is Ok <==> discovery_ok(body@),
        r matches Ok(d) ==> {
            &&& json_str_field_of(body@, "issuer"@) == Some(d.issuer@)
            &&& json_str_field_of(body@, "token_endpoint"@) == Some(d.token_endpoint@)
        },
        r matches Err(e) ==> e is DiscoveryError,
{
    let issuer = match json_str_field(body, "issuer") {
        Some(s) => s,
        None => {
            return Err(
                MyError::DiscoveryError(
                    "Missing issuer in well-known endpoints".to_owned(),
                ),
            );
        },
    };
    let token_endpoint = match json_str_field(body, "token_endpoint") {
        Some(s) => s,
        None => {
            return Err(
                MyError::DiscoveryError(
                    "Missing token endpoint in well-known endpoints".to_owned(),
                ),
            );
        },
    };
    Ok(DiscoveryEndpoints { issuer, token_endpoint })
}

/// Whether a conversation response body carries all five fields of a
/// conversation grant.
pub open spec fn conversation_response_ok(body: Seq<char>) -> bool {
    &&& json_str_field_of(body, "conversationId"@) is Some
    &&& json_str_field_of(body, "token"@) is Some
    &&& json_i64_field_of(body, "expires_in"@) is Some
    &&& json_str_field_of(body, "streamUrl"@) is Some
    &&& json_str_field_of(body, "referenceGrammarId"@) is Some
}

/// The mathematical session value a well-formed conversation response
/// denotes.
pub open spec fn conversation_response_view(body: Seq<char>) -> crate::directline::ConversationTokenV
    recommends
        conversation_response_ok(body),
{
    crate::directline::ConversationTokenV {
        conversation_id: json_str_field_of(body, "conversationId"@).unwrap(),
        token: json_str_field_of(body, "token"@).unwrap(),
        expires_in: json_i64_field_of(body, "expires_in"@).unwrap() as int,
        stream_url: json_str_field_of(body, "streamUrl"@).unwrap(),
        reference_grammar_id: json_str_field_of(body, "referenceGrammarId"@).unwrap(),
    }
}

/// Reads a conversation grant from a relay response body.  Succeeds
/// exactly when all five fields are present and well-typed; the session it
/// returns denotes precisely the fields of the body.
pub fn parse_conversation_token(body: &str) -> (r: Result<ConversationToken, MyError>)
    ensures
        r is Ok <==> conversation_response_ok(body@),
        r matches Ok(t) ==> t@ == conversation_response_view(body@),
        r matches Err(e) ==> e is MalformedResponse,
{
    let conversation_id = match json_str_field(body, "conversationId") {
        Some(s) => s,
        None => {
            return Err(
                MyError::MalformedResponse(
                    "Missing conversationId in conversation response".to_owned(),
                ),
            );
        },
    };
    let token = match json_str_field(body, "token") {
        Some(s) => s,
        None => {
            return Err(
                MyError::MalformedResponse(
                    "Missing token in conversation response".to_owned(),
                ),
            );
        },
    };
    let expires_in = match json_i64_field(body, "expires_in") {
        Some(v) => v,
        None => {
            return Err(
                MyError::MalformedResponse(
                    "Missing expires_in in conversation response".to_owned(),
                ),
            );
        },
    };
    let stream_url = match json_str_field(body, "streamUrl") {
        Some(s) => s,
        None => {
            return Err(
                MyError::MalformedResponse(
                    "Missing streamUrl in conversation response".to_owned(),
                ),
            );
        },
    };
    let reference_grammar_id = match json_str_field(body, "referenceGrammarId") {
        Some(s) => s,
        None => {
            return Err(
                MyError::MalformedResponse(
                    "Missing referenceGrammarId in conversation response".to_owned(),
                ),
            );
        },
    };
    Ok(ConversationToken { conversation_id, token, expires_in, stream_url, reference_grammar_id })
}

// ------------------------------------------------------------------
// Framing the outgoing activity body, verified.
// ------------------------------------------------------------------

/// Whether a string can stand inside a JSON string literal without
/// escaping.
pub open spec fn plain_chars(s: Seq<char>) -> bool {
    forall|i: int| 0 <= i < s.len() ==> s[i] != '"' && s[i] != '\\'
}

/// Checks that a string needs no escaping inside a JSON string literal.
pub fn is_plain(s: &str) -> (r: bool)
    ensures
        r == plain_chars(s@),
{
    let n = s.unicode_len();
    let mut i: usize = 0;
    while i < n
        invariant
            i <= n,
            n == s@.len(),
            forall|j: int| 0 <= j < i ==> s@[j] != '"' && s@[j] != '\\',
        decreases n - i,
    {
        let c = s.get_char(i);
        if c == '"' || c == '\\' {
            return false;
        }
        i = i + 1;
    }
    true
}

/// Opening of the wire body, through the sender identifier's opening
/// quote.
pub open spec fn activity_prefix() -> Seq<char> {
    "{\"type\":\"message\",\"from\":{\"id\":\""@
}

/// Middle of the wire body between the sender identifier and the
/// conversation identifier.
pub open spec fn activity_mid_conversation() -> Seq<char> {
    "\"},\"conversation\":{\"id\":\""@
}

/// Middle of the wire body between the conversation identifier and the
/// text.
pub open spec fn activity_mid_text() -> Seq<char> {
    "\"},\"text\":\""@
}

/// Closing of the wire body.
pub open spec fn activity_suffix() -> Seq<char> {
    "\"}"@
}

/// The wire body of a message activity: sender, conversation and text in
/// the fixed frame.
pub open spec fn activity_body_spec(
    from_id: Seq<char>,
    conversation_id: Seq<char>,
    text: Seq<char>,
) -> Seq<char> {
    activity_prefix() + from_id + activity_mid_conversation() + conversation_id
        + activity_mid_text() + text + activity_suffix()
}

/// Frames a message activity for `send_activity`.  Succeeds exactly when
/// none of the three values needs escaping, and then produces precisely
/// the fixed frame around them; a value that would break the frame is
/// rejected rather than emitted.
pub fn send_activity_body(from_id: &str, conversation_id: &str, text: &str) -> (r: Result<
    String,
    MyError,
>)
    ensures
        r is Ok <==> plain_chars(from_id@) && plain_chars(conversation_id@) && plain_chars(text@),
        r matches Ok(s) ==> s@ == activity_body_spec(from_id@, conversation_id@, text@),
        r matches Err(e) ==> e is Message,
{
    if !is_plain(from_id) || !is_plain(conversation_id) || !is_plain(text) {
        return Err(MyError::Message("activity value needs JSON escaping".to_owned()));
    }
    let mut s = "{\"type\":\"message\",\"from\":{\"id\":\"".to_owned();
    s.append(from_id);
    s.append("\"},\"conversation\":{\"id\":\"");
    s.append(conversation_id);
    s.append("\"},\"text\":\"");
    s.append(text);
    s.append("\"}");
    Ok(s)
}

/// The conversation identifier a framed wire body carries: the characters
/// between the second structural quote pair's opening and the next quote.
pub open spec fn extract_conversation_id(body: Seq<char>) -> Option<Seq<char>> {
    match first_occur(body, '"', activity_prefix().len() as int) {
        None => None,
        Some(i1) => {
            let start = i1 + activity_mid_conversation().len();
            match first_occur(body, '"', start) {
                None => None,
                Some(i2) => Some(body.subrange(start, i2)),
            }
        },
    }
}

/// Law: framing a message activity and reading the frame back reproduces
/// the conversation identifier exactly, whatever the text says, for every
/// sender and conversation identifier that the frame accepts.
pub proof fn lemma_activity_round_trip(
    from_id: Seq<char>,
    conversation_id: Seq<char>,
    text: Seq<char>,
)
    requires
        plain_chars(from_id),
        plain_chars(conversation_id),
    ensures
        extract_conversation_id(activity_body_spec(from_id, conversation_id, text))
            == Some(conversation_id),
{
    reveal_strlit("{\"type\":\"message\",\"from\":{\"id\":\"");
    reveal_strlit("\"},\"conversation\":{\"id\":\"");
    reveal_strlit("\"},\"text\":\"");
    reveal_strlit("\"}");
    let p = activity_prefix();
    let m1 = activity_mid_conversation();
    let m2 = activity_mid_text();
    let body = activity_body_spec(from_id, conversation_id, text);
    let i1 = p.len() + from_id.len();
    assert forall|j: int| p.len() <= j < i1 implies body[j] != '"' by {
        assert(body[j] == from_id[j - p.len()]);
    }
    assert(body[i1 as int] == m1[0]);
    lemma_first_occur_exact(body, '"', p.len() as int, i1 as int);
    let start = i1 + m1.len();
    let i2 = start + conversation_id.len();
    assert forall|j: int| start <= j < i2 implies body[j] != '"' by {
        assert(body[j] == conversation_id[j - start]);
    }
    assert(body[i2 as int] == m2[0]);
    lemma_first_occur_exact(body, '"', start as int, i2 as int);
    assert(body.subrange(start as int, i2 as int) =~= conversation_id);
}

} // verus!
