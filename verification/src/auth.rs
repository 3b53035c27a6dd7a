//! What logging in decides by itself: which settings it cannot do without,
//! what the redirect from the browser carries, whether that redirect
//! answers the request that was made, and what to tell the browser.
//!
//! Listening for the redirect, talking to the authorization server and
//! keeping the token are left to the caller.

use vstd::prelude::*;
use vstd::string::*;
use crate::error::{ErrorView, TodoError, TodoResult};
use crate::text::{decimal, decimal_string, text_of};

verus! {

/// Whether `char::is_whitespace` holds of a character.
pub uninterp spec fn is_space(c: char) -> bool;

/// What `url::Url::parse` and then `url::Url::query_pairs` make of a text:
/// the decoded pairs of the query in their order, or the message of the
/// error with which the text was refused as a URL.
pub uninterp spec fn url_query(text: Seq<char>) -> Result<Seq<(Seq<char>, Seq<char>)>, Seq<char>>;

/// Calls `char::is_whitespace`. The contract only names the result.
#[verifier::external_body]
fn is_whitespace(c: char) -> (r: bool)
    ensures
        r == is_space(c),
{
    c.is_whitespace()
}

/// The texts of a vector of pairs of strings.
pub open spec fn pairs_view(pairs: Seq<(String, String)>) -> Seq<(Seq<char>, Seq<char>)> {
    pairs.map_values(|p: (String, String)| (p.0@, p.1@))
}

/// The answer of the URL parser as mathematical data.
pub open spec fn answer_view(answer: Result<Vec<(String, String)>, String>) -> Result<
    Seq<(Seq<char>, Seq<char>)>,
    Seq<char>,
> {
    match answer {
        Ok(pairs) => Ok(pairs_view(pairs@)),
        Err(message) => Err(message@),
    }
}

/// Calls `url::Url::parse` on the text and, where that gives a URL,
/// `url::Url::query_pairs` on it. The contract only names the result: the
/// pairs with keys and values as owned strings, or the error as its message.
#[verifier::external_body]
fn query_pairs(text: &str) -> (r: Result<Vec<(String, String)>, String>)
    ensures
        answer_view(r) == url_query(text@),
{
    match url::Url::parse(text) {
        Ok(url) => Ok(url.query_pairs().map(|(k, v)| (k.into_owned(), v.into_owned())).collect()),
        Err(e) => Err(e.to_string()),
    }
}

/// The first position from `from` on that holds no white space, or the end.
pub open spec fn skip_spaces(s: Seq<char>, from: int) -> int
    decreases s.len() - from,
{
    if 0 <= from < s.len() && is_space(s[from]) {
        skip_spaces(s, from + 1)
    } else {
        from
    }
}

/// The first position from `from` on that holds white space, or the end.
pub open spec fn skip_word(s: Seq<char>, from: int) -> int
    decreases s.len() - from,
{
    if 0 <= from < s.len() && !is_space(s[from]) {
        skip_word(s, from + 1)
    } else {
        from
    }
}

/// The second of the words of a text that white space parts, if it has two.
pub open spec fn second_word(s: Seq<char>) -> Option<Seq<char>> {
    let first = skip_spaces(s, 0);
    let gap = skip_word(s, first);
    let second = skip_spaces(s, gap);
    let end = skip_word(s, second);
    if second < s.len() {
        Some(s.subrange(second, end))
    } else {
        None
    }
}

fn after_spaces(s: &str, len: usize, from: usize) -> (r: usize)
    requires
        len == s@.len(),
        from <= len,
    ensures
        r == skip_spaces(s@, from as int),
        from <= r <= len,
{
    let mut at: usize = from;
    while at < len && is_whitespace(s.get_char(at))
        invariant
            len == s@.len(),
            from <= at <= len,
            skip_spaces(s@, from as int) == skip_spaces(s@, at as int),
        decreases len - at,
    {
        at += 1;
    }
    at
}

fn after_word(s: &str, len: usize, from: usize) -> (r: usize)
    requires
        len == s@.len(),
        from <= len,
    ensures
        r == skip_word(s@, from as int),
        from <= r <= len,
{
    let mut at: usize = from;
    while at < len && !is_whitespace(s.get_char(at))
        invariant
            len == s@.len(),
            from <= at <= len,
            skip_word(s@, from as int) == skip_word(s@, at as int),
        decreases len - at,
    {
        at += 1;
    }
    at
}

/// The target of a request line: its second word.
pub fn redirect_target(request_line: &str) -> (r: Option<String>)
    ensures
        text_of(r) == second_word(request_line@),
{
    let len: usize = request_line.unicode_len();
    let first: usize = after_spaces(request_line, len, 0);
    let gap: usize = after_word(request_line, len, first);
    let second: usize = after_spaces(request_line, len, gap);
    let end: usize = after_word(request_line, len, second);
    if second < len {
        Some(request_line.substring_char(second, end).to_owned())
    } else {
        None
    }
}

/// The value of the first pair that has the key, if a pair has it.
pub open spec fn value_of(pairs: Seq<(Seq<char>, Seq<char>)>, key: Seq<char>) -> Option<Seq<char>>
    decreases pairs.len(),
{
    if pairs.len() == 0 {
        None
    } else if pairs[0].0 == key {
        Some(pairs[0].1)
    } else {
        value_of(pairs.drop_first(), key)
    }
}

fn find_value(pairs: &Vec<(String, String)>, key: &str) -> (r: Option<String>)
    ensures
        text_of(r) == value_of(pairs_view(pairs@), key@),
{
    let wanted = key.to_owned();
    let ghost all = pairs_view(pairs@);
    let mut at: usize = 0;
    assert(all.skip(0) =~= all);
    while at < pairs.len()
        invariant
            at <= pairs.len(),
            wanted@ == key@,
            all == pairs_view(pairs@),
            value_of(all, key@) == value_of(all.skip(at as int), key@),
        decreases pairs.len() - at,
    {
        proof {
            assert(all.skip(at as int).drop_first() =~= all.skip(at as int + 1));
        }
        if pairs[at].0 == wanted {
            return Some(pairs[at].1.clone());
        }
        at += 1;
    }
    None
}

/// An error as its view, a pair of strings as their texts.
pub open spec fn authorization_view(r: TodoResult<(String, String)>) -> Result<
    (Seq<char>, Seq<char>),
    ErrorView,
> {
    match r {
        Ok(pair) => Ok((pair.0@, pair.1@)),
        Err(e) => Err(e@),
    }
}

/// The code and the state among the pairs of a redirect: of each the first
/// value under its key; without a code, or else without a state, the error
/// that says which is missing.
pub open spec fn picked(pairs: Seq<(Seq<char>, Seq<char>)>) -> Result<
    (Seq<char>, Seq<char>),
    ErrorView,
> {
    match value_of(pairs, "code"@) {
        None => Err(ErrorView::AuthError("No code in the response"@)),
        Some(code) => match value_of(pairs, "state"@) {
            None => Err(ErrorView::AuthError("No state in the response"@)),
            Some(state) => Ok((code, state)),
        },
    }
}

/// Picks the code and the state out of the pairs of a redirect.
pub fn pick_authorization(pairs: &Vec<(String, String)>) -> (r: TodoResult<(String, String)>)
    ensures
        authorization_view(r) == picked(pairs_view(pairs@)),
{
    match find_value(pairs, "code") {
        None => Err(TodoError::AuthError(String::from_str("No code in the response"))),
        Some(code) => match find_value(pairs, "state") {
            None => Err(TodoError::AuthError(String::from_str("No state in the response"))),
            Some(state) => Ok((code, state)),
        },
    }
}

/// What is read off the answer of the URL parser: its error as an
/// authentication error, or what its pairs hold.
pub open spec fn read_off(
    answer: Result<Seq<(Seq<char>, Seq<char>)>, Seq<char>>,
) -> Result<(Seq<char>, Seq<char>), ErrorView> {
    match answer {
        Err(message) => Err(ErrorView::AuthError(message)),
        Ok(pairs) => picked(pairs),
    }
}

/// The code and the state that a request line carries. The line's second
/// word is its target; behind `http://localhost` it is read as a URL, and
/// the pairs of its query hold the two.
pub open spec fn authorization_of(request_line: Seq<char>) -> Result<
    (Seq<char>, Seq<char>),
    ErrorView,
> {
    match second_word(request_line) {
        None => Err(ErrorView::AuthError("Invalid redirect URL"@)),
        Some(target) => read_off(url_query("http://localhost"@ + target)),
    }
}

/// Reads the code and the state off the first line of the request with
/// which the browser comes back.
pub fn get_authorization_code(request_line: &str) -> (r: TodoResult<(String, String)>)
    ensures
        authorization_view(r) == authorization_of(request_line@),
{
    match redirect_target(request_line) {
        None => Err(TodoError::AuthError(String::from_str("Invalid redirect URL"))),
        Some(target) => {
            let address = String::from_str("http://localhost").concat(target.as_str());
            match query_pairs(address.as_str()) {
                Err(message) => Err(TodoError::AuthError(message)),
                Ok(pairs) => pick_authorization(&pairs),
            }
        },
    }
}

/// Whether the state that came back is the one that was sent out. If it is
/// not, the redirect does not answer this login.
pub fn verify_state(received: &str, sent: &str) -> (r: TodoResult<()>)
    ensures
        received@ == sent@ ==> r is Ok,
        received@ != sent@ ==> (r matches Err(e) && e@ == ErrorView::AuthError(
            "CSRF token mismatch"@,
        )),
{
    let a = received.to_owned();
    let b = sent.to_owned();
    if a == b {
        Ok(())
    } else {
        Err(TodoError::AuthError(String::from_str("CSRF token mismatch")))
    }
}

/// A setting that must be there: its value, or the error that names it.
pub fn required_setting(name: &str, value: Option<String>) -> (r: TodoResult<String>)
    ensures
        match value {
            Some(v) => r matches Ok(got) && got@ == v@,
            None => r matches Err(e) && e@ == ErrorView::ConfigError(name@ + " not set"@),
        },
{
    match value {
        Some(v) => Ok(v),
        None => Err(TodoError::ConfigError(String::from_str(name).concat(" not set"))),
    }
}

/// The answer to the browser that carries a message: a status line, the
/// length of the message in bytes, an empty line, and the message.
pub open spec fn response_text(message: &str) -> Seq<char> {
    "HTTP/1.1 200 OK\r\nContent-Length: "@ + decimal(message.len() as nat) + "\r\n\r\n"@
        + message@
}

/// Writes the answer to the browser that carries a message.
pub fn response_for(message: &str) -> (r: String)
    ensures
        r@ == response_text(message),
{
    let digits = decimal_string(message.len());
    String::from_str("HTTP/1.1 200 OK\r\nContent-Length: ").concat(digits.as_str()).concat(
        "\r\n\r\n",
    ).concat(message)
}

/// The answer that tells the user that the browser window can be closed.
pub fn closing_response() -> (r: String)
    ensures
        r@ == response_text("You can now close this window."),
{
    response_for("You can now close this window.")
}

} // verus!
