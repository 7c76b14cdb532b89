//! OAuth login: provider endpoints, the URL the browser is sent to, and the
//! token carried back in the callback request.

use vstd::prelude::*;
use crate::text::{
    chars_of, concat, has_prefix, lemma_contains_concat, lemma_no_whitespace_concat,
    lemma_no_whitespace_no_newline, lemma_split_on_join, lemma_split_on_single, lemma_ws_tokens_space,
    lemma_ws_tokens_word, matches_at, no_whitespace, opt_view, push_char, split_chars, split_on,
    split_whitespace, string_of_range, views, ws_tokens,
};

verus! {

/// OAuth provider.
pub enum Provider {
    GitHub,
    Google,
}

impl Provider {
    /// The API path that starts this provider's OAuth flow.
    pub open spec fn spec_path(&self) -> Seq<char> {
        match self {
            Provider::GitHub => "/auth/github/start"@,
            Provider::Google => "/auth/google/start"@,
        }
    }

    /// The provider's display name.
    pub open spec fn spec_name(&self) -> Seq<char> {
        match self {
            Provider::GitHub => "GitHub"@,
            Provider::Google => "Google"@,
        }
    }

    /// The API path that starts this provider's OAuth flow.
    pub fn path(&self) -> (r: &str)
        ensures
            r@ == self.spec_path(),
    {
        match self {
            Provider::GitHub => "/auth/github/start",
            Provider::Google => "/auth/google/start",
        }
    }

    /// The provider's display name.
    pub fn name(&self) -> (r: &str)
        ensures
            r@ == self.spec_name(),
    {
        match self {
            Provider::GitHub => "GitHub",
            Provider::Google => "Google",
        }
    }
}

/// Decimal digits of `n`, most significant first, without leading zeros.
pub open spec fn decimal(n: nat) -> Seq<char>
    decreases n,
{
    if n < 10 {
        seq![digit_char(n)]
    } else {
        decimal(n / 10).push(digit_char(n % 10))
    }
}

/// The ASCII digit for `d < 10`.
pub open spec fn digit_char(d: nat) -> char {
    if d == 0 { '0' } else if d == 1 { '1' } else if d == 2 { '2' } else if d == 3 { '3' }
    else if d == 4 { '4' } else if d == 5 { '5' } else if d == 6 { '6' } else if d == 7 { '7' }
    else if d == 8 { '8' } else { '9' }
}

fn digit(d: u64) -> (c: char)
    requires
        d < 10,
    ensures
        c == digit_char(d as nat),
{
    if d == 0 { '0' } else if d == 1 { '1' } else if d == 2 { '2' } else if d == 3 { '3' }
    else if d == 4 { '4' } else if d == 5 { '5' } else if d == 6 { '6' } else if d == 7 { '7' }
    else if d == 8 { '8' } else { '9' }
}

/// `n` written in decimal.
pub fn decimal_string(n: u64) -> (r: String)
    ensures
        r@ == decimal(n as nat),
    decreases n,
{
    if n < 10 {
        let mut r = String::new();
        push_char(&mut r, digit(n));
        r
    } else {
        let mut r = decimal_string(n / 10);
        push_char(&mut r, digit(n % 10));
        r
    }
}

/// `{api_url}{provider path}?cli_port={port}`.
pub open spec fn spec_login_url(api_url: Seq<char>, provider: Provider, port: u16) -> Seq<char> {
    api_url + provider.spec_path() + "?cli_port="@ + decimal(port as nat)
}

/// The address the browser is sent to for `provider`'s OAuth flow, telling
/// the API which local port waits for the callback.
pub fn login_url(api_url: &str, provider: &Provider, port: u16) -> (r: String)
    ensures
        r@ == spec_login_url(api_url@, *provider, port),
{
    let mut r = concat(api_url, provider.path());
    r.append("?cli_port=");
    let digits = decimal_string(port as u64);
    r.append(digits.as_str());
    r
}

/// The first line of `s` (`str::lines().next()`): `None` for an empty
/// string; a `\r` is dropped only where it precedes the line's `\n`.
pub open spec fn first_line(s: Seq<char>) -> Option<Seq<char>> {
    if s.len() == 0 {
        None
    } else {
        let l = split_on(s, '\n')[0];
        if l.len() < s.len() && l.len() > 0 && l.last() == '\r' {
            Some(l.drop_last())
        } else {
            Some(l)
        }
    }
}

/// `token=`.
pub open spec fn token_key() -> Seq<char> {
    seq!['t', 'o', 'k', 'e', 'n', '=']
}

/// The value of the first `token=` parameter in a list of `key=value`
/// parameters.
pub open spec fn token_param(params: Seq<Seq<char>>) -> Option<Seq<char>>
    decreases params.len(),
{
    if params.len() == 0 {
        None
    } else if has_prefix(params[0], token_key()) {
        Some(params[0].skip(6))
    } else {
        token_param(params.drop_first())
    }
}

/// The token in an HTTP request such as `GET /callback?token=xxx HTTP/1.1`:
/// the request target is the second word of the first line, its query is
/// what follows the first `?` (up to any further `?`), and the token is the
/// value of the first `&`-separated parameter that starts with `token=`.
pub open spec fn request_token(request: Seq<char>) -> Option<Seq<char>> {
    match first_line(request) {
        None => None,
        Some(line) => {
            let words = ws_tokens(line);
            if words.len() < 2 {
                None
            } else {
                let parts = split_on(words[1], '?');
                if parts.len() < 2 {
                    None
                } else {
                    token_param(split_on(parts[1], '&'))
                }
            }
        },
    }
}

fn find_token(params: &Vec<Vec<char>>) -> (r: Option<String>)
    ensures
        opt_view(r) == token_param(views(params@)),
{
    let key: Vec<char> = vec!['t', 'o', 'k', 'e', 'n', '='];
    assert(key@ =~= token_key());
    let mut i: usize = 0;
    assert(views(params@).skip(0) =~= views(params@));
    while i < params.len()
        invariant
            i <= params.len(),
            key@ == token_key(),
            token_param(views(params@)) == token_param(views(params@).skip(i as int)),
        decreases params.len() - i,
    {
        let p = &params[i];
        let ghost rest = views(params@).skip(i as int);
        assert(rest[0] == p@);
        assert(rest.drop_first() =~= views(params@).skip(i + 1));
        if matches_at(p, 0, &key) {
            assert(p@.subrange(0, 6) =~= p@.take(6));
            let value = string_of_range(p, 6, p.len());
            assert(value@ =~= p@.skip(6));
            return Some(value);
        } else {
            assert(6 <= p@.len() ==> p@.subrange(0, 6) =~= p@.take(6));
        }
        i += 1;
    }
    None
}

/// Extracts the token from the callback request the API redirects to,
/// e.g. `GET /callback?token=xxx HTTP/1.1`.
pub fn parse_token_from_request(request: &str) -> (r: Option<String>)
    ensures
        opt_view(r) == request_token(request@),
{
    let v = chars_of(request);
    if v.len() == 0 {
        return None;
    }
    let mut lines = split_chars(&v, '\n');
    proof {
        assert(views(lines@)[0] == lines@[0]@);
    }
    let mut line = lines.remove(0);
    if line.len() < v.len() && line.len() > 0 && line[line.len() - 1] == '\r' {
        line.pop();
    }
    let words = split_whitespace(&line);
    if words.len() < 2 {
        return None;
    }
    let parts = split_chars(&words[1], '?');
    assert(views(words@)[1] == words@[1]@);
    if parts.len() < 2 {
        return None;
    }
    let params = split_chars(&parts[1], '&');
    assert(views(parts@)[1] == parts@[1]@);
    find_token(&params)
}


/// The login callback gives back the token the API put in it: for a token
/// without whitespace, `&` or `?`, the request line
/// `GET /callback?token=<token> HTTP/1.1`, alone or followed by `\r\n` and
/// headers, yields exactly that token.
pub proof fn lemma_callback_token(token: Seq<char>, headers: Seq<char>)
    requires
        no_whitespace(token),
        !token.contains('&'),
        !token.contains('?'),
    ensures
        request_token("GET /callback?token="@ + token + " HTTP/1.1"@) == Some(token),
        request_token("GET /callback?token="@ + token + " HTTP/1.1\r\n"@ + headers) == Some(token),
{
    reveal_strlit("GET /callback?token=");
    reveal_strlit(" HTTP/1.1");
    reveal_strlit(" HTTP/1.1\r\n");
    let get = seq!['G', 'E', 'T'];
    let head = seq!['/', 'c', 'a', 'l', 'l', 'b', 'a', 'c', 'k'];
    let key = token_key();
    let http = seq!['H', 'T', 'T', 'P', '/', '1', '.', '1'];
    let query = key + token;
    let target = head + seq!['?'] + query;

    // none of the fixed words holds whitespace, `?`, `&` or a line break
    assert(no_whitespace(get));
    assert(no_whitespace(head));
    assert(no_whitespace(key));
    assert(no_whitespace(http));
    assert(no_whitespace(seq!['?']));
    assert(!head.contains('?'));
    assert(!key.contains('?'));
    assert(!key.contains('&'));
    lemma_no_whitespace_concat(key, token);
    lemma_no_whitespace_concat(head, seq!['?']);
    lemma_no_whitespace_concat(head + seq!['?'], query);
    lemma_contains_concat(key, token, '?');
    lemma_contains_concat(key, token, '&');

    // the request line's words
    let p1 = get.push(' ');
    let p2 = p1 + target;
    let p3 = p2.push(' ');
    let line = p3 + http;
    assert(Seq::<char>::empty() + get =~= get);
    lemma_ws_tokens_word(Seq::<char>::empty(), get);
    lemma_ws_tokens_space(get, ' ');
    lemma_ws_tokens_word(p1, target);
    lemma_ws_tokens_space(p2, ' ');
    lemma_ws_tokens_word(p3, http);
    assert(ws_tokens(line) =~= seq![get, target, http]);

    // the target's query, and its one parameter
    lemma_split_on_join(head, query, '?');
    lemma_split_on_single(head, '?');
    lemma_split_on_single(query, '?');
    assert(split_on(target, '?') =~= seq![head, query]);
    lemma_split_on_single(query, '&');
    assert(query.take(6) =~= key);
    assert(query.skip(6) =~= token);

    // the first line
    lemma_no_whitespace_no_newline(get);
    lemma_no_whitespace_no_newline(target);
    lemma_no_whitespace_no_newline(http);
    lemma_contains_concat(get, seq![' '], '\n');
    lemma_contains_concat(p1, target, '\n');
    lemma_contains_concat(p2, seq![' '], '\n');
    lemma_contains_concat(p3, http, '\n');
    lemma_contains_concat(line, seq!['\r'], '\n');
    assert(get.push(' ') =~= get + seq![' ']);
    assert(p2.push(' ') =~= p2 + seq![' ']);
    assert(line.push('\r') =~= line + seq!['\r']);
    assert(!seq![' '].contains('\n'));
    assert(!seq!['\r'].contains('\n'));

    assert("GET /callback?token="@ + token + " HTTP/1.1"@ =~= line);
    lemma_split_on_single(line, '\n');
    assert(first_line(line) == Some(line));

    let request = "GET /callback?token="@ + token + " HTTP/1.1\r\n"@ + headers;
    assert(request =~= line.push('\r') + seq!['\n'] + headers);
    lemma_split_on_join(line.push('\r'), headers, '\n');
    lemma_split_on_single(line.push('\r'), '\n');
    assert(split_on(request, '\n')[0] == line.push('\r'));
    assert(line.push('\r').drop_last() =~= line);
    assert(first_line(request) == Some(line));
}

/// The token a login accepts from the callback request: the one the request
/// carries (see `parse_token_from_request`), when it is not empty.
pub fn accepted_token(request: &str) -> (r: Option<String>)
    ensures
        match request_token(request@) {
            Some(t) => if t.len() > 0 {
                r matches Some(x) && x@ == t
            } else {
                r is None
            },
            None => r is None,
        },
{
    match parse_token_from_request(request) {
        Some(t) => if t.as_str().is_empty() {
            None
        } else {
            Some(t)
        },
        None => None,
    }
}

} // verus!
