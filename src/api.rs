//! Access tokens and the URLs of the v3 API.
use vstd::prelude::*;

verus! {

/// `i` is a position of `s` at which `p` begins.
pub open spec fn occurs_at(s: Seq<char>, p: Seq<char>, i: int) -> bool {
    0 <= i && i + p.len() <= s.len() && s.subrange(i, i + p.len()) == p
}

/// `p` occurs somewhere in `s`.
pub open spec fn contains(s: Seq<char>, p: Seq<char>) -> bool {
    exists|i: int| occurs_at(s, p, i)
}

/// `p` occurs in `s` at exactly one position.
pub open spec fn occurs_once(s: Seq<char>, p: Seq<char>) -> bool {
    exists|i: int| occurs_at(s, p, i) && forall|j: int| occurs_at(s, p, j) ==> j == i
}

/// Scheme, host and version prefix shared by every request.
pub open spec fn api_base() -> Seq<char> {
    "https://www.strava.com/api/v3/"@
}

/// The query that carries the bearer token.
pub open spec fn token_query() -> Seq<char> {
    "?access_token="@
}

/// The name of the authentication parameter with its `=`.
pub open spec fn auth_key() -> Seq<char> {
    "access_token="@
}

/// The URL of `path`, authenticated by `token` when there is one.
pub open spec fn v3_url(token: Option<Seq<char>>, path: Seq<char>) -> Seq<char> {
    match token {
        Some(t) => api_base() + path + token_query() + t,
        None => api_base() + path,
    }
}

/// An opaque bearer token, supplied by the caller.
pub struct AccessToken {
    token: String,
}

impl View for AccessToken {
    type V = Seq<char>;

    closed spec fn view(&self) -> Seq<char> {
        self.token@
    }
}

impl AccessToken {
    pub fn new(token: String) -> (r: AccessToken)
        ensures
            r@ == token@,
    {
        AccessToken { token }
    }

    pub fn as_str(&self) -> (r: &str)
        ensures
            r@ == self@,
    {
        self.token.as_str()
    }
}

/// The view of an optional token.
pub open spec fn token_view(token: Option<&AccessToken>) -> Option<Seq<char>> {
    match token {
        Some(t) => Some(t@),
        None => None,
    }
}

/// Builds the v3 URL of `path`, with `token` as its `access_token` query.
pub fn v3(token: Option<&AccessToken>, path: String) -> (r: String)
    ensures
        r@ == v3_url(token_view(token), path@),
{
    let mut url = String::from_str("https://www.strava.com/api/v3/");
    url.append(path.as_str());
    match token {
        Some(t) => {
            url.append("?access_token=");
            url.append(t.as_str());
        },
        None => {},
    }
    url
}

/// The decimal digits of `n`, most significant first.
pub open spec fn decimal(n: nat) -> Seq<char>
    decreases n,
{
    let d = (('0' as nat) + n % 10) as char;
    if n < 10 {
        seq![d]
    } else {
        decimal(n / 10).push(d)
    }
}

/// Relies on `u32`'s `ToString` (its `Display`): the decimal digits of the
/// number with no sign and no leading zeros.
#[verifier::external_body]
fn decimal_string(n: u32) -> (r: String)
    ensures
        r@ == decimal(n as nat),
{
    n.to_string()
}

/// The URL of the activity `id`.
pub fn activity_url(token: &AccessToken, id: &str) -> (r: String)
    ensures
        r@ == v3_url(Some(token@), "activities/"@ + id@),
{
    let mut path = String::from_str("activities/");
    path.append(id);
    v3(Some(token), path)
}

/// The URL of the authenticated athlete's activities.
pub fn athlete_activities_url(token: &AccessToken) -> (r: String)
    ensures
        r@ == v3_url(Some(token@), "athlete/activities"@),
{
    v3(Some(token), String::from_str("athlete/activities"))
}

/// The URL of the club `id`.
pub fn club_url(token: &AccessToken, id: &str) -> (r: String)
    ensures
        r@ == v3_url(Some(token@), "clubs/"@ + id@),
{
    let mut path = String::from_str("clubs/");
    path.append(id);
    v3(Some(token), path)
}

/// The URL of the piece of gear `id`.
pub fn gear_url(token: &AccessToken, id: &str) -> (r: String)
    ensures
        r@ == v3_url(Some(token@), "gear/"@ + id@),
{
    let mut path = String::from_str("gear/");
    path.append(id);
    v3(Some(token), path)
}

/// The URL of the segment `id`.
pub fn segment_url(token: &AccessToken, id: u32) -> (r: String)
    ensures
        r@ == v3_url(Some(token@), "segments/"@ + decimal(id as nat)),
{
    let mut path = String::from_str("segments/");
    let digits = decimal_string(id);
    path.append(digits.as_str());
    v3(Some(token), path)
}

/// The URL of the authenticated athlete's starred segments.
pub fn starred_segments_url(token: &AccessToken) -> (r: String)
    ensures
        r@ == v3_url(Some(token@), "segments/starred"@),
{
    v3(Some(token), String::from_str("segments/starred"))
}

/// One page of items, with the URL that it was fetched from. It holds a
/// single page and does not fetch the next one.
pub struct Paginated<T> {
    url: String,
    items: Vec<T>,
}

impl<T> View for Paginated<T> {
    type V = (Seq<char>, Seq<T>);

    closed spec fn view(&self) -> (Seq<char>, Seq<T>) {
        (self.url@, self.items@)
    }
}

impl<T> Paginated<T> {
    /// Keeps `url` and `items` as they are.
    pub fn new(url: String, items: Vec<T>) -> (r: Paginated<T>)
        ensures
            r@ == (url@, items@),
    {
        Paginated { url, items }
    }

    /// The items, in the order they were given.
    pub fn items(&self) -> (r: &Vec<T>)
        ensures
            r@ == self@.1,
    {
        &self.items
    }

    /// The URL the page came from.
    pub fn url(&self) -> (r: &str)
        ensures
            r@ == self@.0,
    {
        self.url.as_str()
    }
}

/// The prefix of every URL holds no `h` but at its start, no `?`, no `=`.
proof fn lemma_base_chars()
    ensures
        api_base().len() == 30,
        api_base()[0] == 'h',
        forall|i: int| 0 < i < 30 ==> api_base()[i] != 'h',
        forall|i: int| 0 <= i < 30 ==> api_base()[i] != '=',
        api_base()[29] == '/',
{
    reveal_strlit("https://www.strava.com/api/v3/");
}

/// The token query is 14 characters long and ends in `=`.
proof fn lemma_query_chars()
    ensures
        token_query().len() == 14,
        token_query()[13] == '=',
{
    reveal_strlit("?access_token=");
}

/// The authentication key is 13 characters long, ends in `=` and holds no `/`.
proof fn lemma_key_chars()
    ensures
        auth_key().len() == 13,
        auth_key()[12] == '=',
        forall|i: int| 0 <= i < 13 ==> auth_key()[i] != '/',
{
    reveal_strlit("access_token=");
}

/// An authenticated URL holds the API prefix exactly once and the token
/// exactly once, given a token that is not empty, holds no `=` and occurs
/// nowhere in the URL before it, and a path and token in which the prefix
/// does not occur.
pub proof fn lemma_token_url_once(token: Seq<char>, path: Seq<char>)
    requires
        token.len() > 0,
        !token.contains('='),
        !contains(api_base() + path + token_query(), token),
        !contains(path + token_query() + token, api_base()),
    ensures
        occurs_once(v3_url(Some(token), path), token),
        occurs_once(v3_url(Some(token), path), api_base()),
{
    lemma_base_chars();
    lemma_query_chars();
    let url = v3_url(Some(token), path);
    let left = api_base() + path + token_query();
    let rest = path + token_query() + token;
    let k = left.len() as int;
    let n = token.len() as int;
    assert(url =~= left + token);
    assert(url =~= api_base() + rest);
    assert(url.subrange(k, k + n) =~= token);
    assert(occurs_at(url, token, k));
    assert forall|j: int| occurs_at(url, token, j) implies j == k by {
        if j + n <= k {
            assert(left.subrange(j, j + n) =~= url.subrange(j, j + n));
            assert(occurs_at(left, token, j));
        } else if j < k {
            assert(url.subrange(j, j + n)[k - 1 - j] == url[k - 1]);
            assert(url[k - 1] == '=');
            assert(token[k - 1 - j] == '=');
        }
    }
    assert(url.subrange(0, 30) =~= api_base());
    assert(occurs_at(url, api_base(), 0));
    assert forall|j: int| occurs_at(url, api_base(), j) implies j == 0 by {
        if j >= 30 {
            assert(rest.subrange(j - 30, j) =~= url.subrange(j, j + 30));
            assert(occurs_at(rest, api_base(), j - 30));
        } else if j > 0 {
            assert(url.subrange(j, j + 30)[0] == url[j]);
            assert(url[j] == api_base()[j]);
        }
    }
}

/// A URL built without a token holds no authentication parameter, given a
/// path that holds none.
pub proof fn lemma_no_token_no_auth(path: Seq<char>)
    requires
        !contains(path, auth_key()),
    ensures
        !contains(v3_url(None, path), auth_key()),
{
    lemma_base_chars();
    lemma_key_chars();
    let url = v3_url(None, path);
    assert(url =~= api_base() + path);
    assert forall|j: int| !occurs_at(url, auth_key(), j) by {
        if occurs_at(url, auth_key(), j) {
            if j >= 30 {
                assert(path.subrange(j - 30, j - 17) =~= url.subrange(j, j + 13));
                assert(occurs_at(path, auth_key(), j - 30));
            } else if j + 12 < 30 {
                assert(url.subrange(j, j + 13)[12] == url[j + 12]);
                assert(url[j + 12] == api_base()[j + 12]);
            } else {
                assert(url.subrange(j, j + 13)[29 - j] == url[29]);
                assert(url[29] == '/');
            }
        }
    }
}

} // verus!
