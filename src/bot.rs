use vstd::prelude::*;

use vstd::string::{StrSliceExecFns, StringExecFns};
use vstd::utf8::encode_utf8;

use crate::client::Client;
use crate::text::{decimal, push_decimal};

verus! {

/// Whether a byte is left as it is by percent-encoding: an ASCII letter or
/// digit, or one of `-`, `.`, `_`, `~`.
pub open spec fn is_unreserved(b: u8) -> bool {
    (48 <= b <= 57) || (65 <= b <= 90) || (97 <= b <= 122) || b == 45 || b == 46 || b == 95
        || b == 126
}

/// The upper-case hex digit for `d`.
pub open spec fn hex_upper(d: u8) -> char
    recommends
        d < 16,
{
    if d < 10 {
        ((48 + d) as u8) as char
    } else {
        ((55 + d) as u8) as char
    }
}

/// The percent-encoding of one byte.
pub open spec fn percent_byte(b: u8) -> Seq<char> {
    if is_unreserved(b) {
        seq![b as char]
    } else {
        seq!['%', hex_upper(b / 16), hex_upper(b % 16)]
    }
}

/// The percent-encoding of a byte string, byte by byte.
pub open spec fn percent_encoded(bytes: Seq<u8>) -> Seq<char>
    decreases bytes.len(),
{
    if bytes.len() == 0 {
        Seq::empty()
    } else {
        percent_encoded(bytes.drop_last()) + percent_byte(bytes.last())
    }
}

/// Relies on urlencoding::encode: it percent-encodes every byte of the UTF-8
/// form except ASCII letters and digits and `-`, `.`, `_`, `~`, with upper-case
/// hex digits.
#[verifier::external_body]
fn url_encode(s: &str) -> (r: String)
    ensures
        r@ == percent_encoded(encode_utf8(s@)),
{
    urlencoding::encode(s).into_owned()
}

/// The abstract state of a [`GetBots`] query: the parameters written so far
/// (each closed by `&`, after a leading `?`), the search terms, and the sort key.
pub struct GetBotsView {
    pub query: Seq<char>,
    pub search: Seq<char>,
    pub sort: Option<Seq<char>>,
}

/// The smaller of two integers.
pub open spec fn min_of(a: int, b: int) -> int {
    if a <= b {
        a
    } else {
        b
    }
}

/// The query with one more parameter.
pub open spec fn with_query(v: GetBotsView, part: Seq<char>) -> GetBotsView {
    GetBotsView { query: v.query + part, ..v }
}

/// The query with one more search term: `key`, an encoded `: `, the value and
/// an encoded space.
pub open spec fn with_search(v: GetBotsView, key: Seq<char>, value: Seq<char>) -> GetBotsView {
    GetBotsView { search: v.search + key + "%3A%20"@ + value + "%20"@, ..v }
}

/// The query string that is sent: the parameters, then the sort key, then the
/// search terms. Without search terms the trailing `&` (or the lone `?`) goes.
pub open spec fn request_query(v: GetBotsView) -> Seq<char> {
    let q = match v.sort {
        Some(s) => v.query + "sort="@ + s + "&"@,
        None => v.query,
    };
    if v.search.len() > 0 {
        q + "search="@ + v.search
    } else if q.len() > 0 {
        q.drop_last()
    } else {
        q
    }
}

/// The address of the bot listing, before its query string.
pub open spec fn bots_endpoint() -> Seq<char> {
    "https://top.gg/api/bots"@
}

/// A query over the listed bots, built step by step and then sent.
pub struct GetBots<'a> {
    client: &'a Client,
    query: String,
    search: String,
    sort: Option<&'static str>,
}

impl<'a> View for GetBots<'a> {
    type V = GetBotsView;

    closed spec fn view(&self) -> GetBotsView {
        GetBotsView {
            query: self.query@,
            search: self.search@,
            sort: match self.sort {
                Some(s) => Some(s@),
                None => None,
            },
        }
    }
}

impl<'a> GetBots<'a> {
    /// A query with no parameter, search term or sort key.
    pub fn new(client: &'a Client) -> (r: GetBots<'a>)
        ensures
            r@ == (GetBotsView { query: seq!['?'], search: Seq::empty(), sort: None }),
            r.client() == client,
    {
        let query = String::from_str("?");
        proof {
            reveal_strlit("?");
            assert("?"@ =~= seq!['?']);
        }
        GetBots { client, query, search: String::new(), sort: None }
    }

    /// The client that will send the query.
    pub closed spec fn client(&self) -> &'a Client {
        self.client
    }

    /// The client that will send the query.
    pub fn get_client(&self) -> (r: &'a Client)
        ensures
            r == self.client(),
    {
        self.client
    }

    /// Sorts the results by bot ID.
    pub fn sort_by_id(self) -> (r: Self)
        ensures
            r@ == (GetBotsView { sort: Some("id"@), ..self@ }),
            r.client() == self.client(),
    {
        GetBots { sort: Some("id"), ..self }
    }

    /// Sorts the results by approval date.
    pub fn sort_by_approval_date(self) -> (r: Self)
        ensures
            r@ == (GetBotsView { sort: Some("date"@), ..self@ }),
            r.client() == self.client(),
    {
        GetBots { sort: Some("date"), ..self }
    }

    /// Sorts the results by monthly votes.
    pub fn sort_by_monthly_votes(self) -> (r: Self)
        ensures
            r@ == (GetBotsView { sort: Some("monthlyPoints"@), ..self@ }),
            r.client() == self.client(),
    {
        GetBots { sort: Some("monthlyPoints"), ..self }
    }

    /// At most this many bots, capped at 500.
    pub fn limit(self, limit: u16) -> (r: Self)
        ensures
            r@ == with_query(
                self@,
                "limit="@ + decimal(min_of(limit as int, 500) as nat) + "&"@,
            ),
            r.client() == self.client(),
    {
        let mut q = self.query;
        q.append("limit=");
        let n: u16 = if limit <= 500 {
            limit
        } else {
            500
        };
        push_decimal(&mut q, n as u64);
        q.append("&");
        proof {
            assert(q@ =~= self.query@ + ("limit="@ + decimal(n as nat) + "&"@));
        }
        GetBots { query: q, ..self }
    }

    /// Skips this many bots, capped at 499.
    pub fn skip(self, skip: u16) -> (r: Self)
        ensures
            r@ == with_query(
                self@,
                "offset="@ + decimal(min_of(skip as int, 499) as nat) + "&"@,
            ),
            r.client() == self.client(),
    {
        let mut q = self.query;
        q.append("offset=");
        let n: u16 = if skip <= 499 {
            skip
        } else {
            499
        };
        push_decimal(&mut q, n as u64);
        q.append("&");
        proof {
            assert(q@ =~= self.query@ + ("offset="@ + decimal(n as nat) + "&"@));
        }
        GetBots { query: q, ..self }
    }

    fn push_search(self, key: &str, value: &str) -> (r: Self)
        ensures
            r@ == with_search(self@, key@, value@),
            r.client() == self.client(),
    {
        let mut s = self.search;
        s.append(key);
        s.append("%3A%20");
        s.append(value);
        s.append("%20");
        proof {
            assert(s@ =~= self.search@ + key@ + "%3A%20"@ + value@ + "%20"@);
        }
        GetBots { search: s, ..self }
    }

    /// Only bots with this username.
    pub fn username(self, username: &str) -> (r: Self)
        ensures
            r@ == with_search(self@, "username"@, percent_encoded(encode_utf8(username@))),
            r.client() == self.client(),
    {
        let value = url_encode(username);
        self.push_search("username", value.as_str())
    }

    /// Only bots with this prefix.
    pub fn prefix(self, prefix: &str) -> (r: Self)
        ensures
            r@ == with_search(self@, "prefix"@, percent_encoded(encode_utf8(prefix@))),
            r.client() == self.client(),
    {
        let value = url_encode(prefix);
        self.push_search("prefix", value.as_str())
    }

    /// Only bots with this vote count.
    pub fn votes(self, votes: usize) -> (r: Self)
        ensures
            r@ == with_search(self@, "points"@, decimal(votes as nat)),
            r.client() == self.client(),
    {
        let mut value = String::new();
        push_decimal(&mut value, votes as u64);
        proof {
            assert(value@ =~= decimal(votes as nat));
        }
        self.push_search("points", value.as_str())
    }

    /// Only bots with this monthly vote count.
    pub fn monthly_votes(self, monthly_votes: usize) -> (r: Self)
        ensures
            r@ == with_search(self@, "monthlyPoints"@, decimal(monthly_votes as nat)),
            r.client() == self.client(),
    {
        let mut value = String::new();
        push_decimal(&mut value, monthly_votes as u64);
        proof {
            assert(value@ =~= decimal(monthly_votes as nat));
        }
        self.push_search("monthlyPoints", value.as_str())
    }

    /// Only bots with this vanity URL.
    pub fn vanity(self, vanity: &str) -> (r: Self)
        ensures
            r@ == with_search(self@, "vanity"@, percent_encoded(encode_utf8(vanity@))),
            r.client() == self.client(),
    {
        let value = url_encode(vanity);
        self.push_search("vanity", value.as_str())
    }

    /// The query string that is sent: the parameters, the sort key, and the
    /// search terms.
    pub fn query_string(&self) -> (r: String)
        ensures
            r@ == request_query(self@),
    {
        let mut q = self.query.clone();
        match self.sort {
            Some(key) => {
                q.append("sort=");
                q.append(key);
                q.append("&");
            },
            None => {},
        }
        if !self.search.as_str().is_empty() {
            q.append("search=");
            q.append(self.search.as_str());
            q
        } else {
            let n = q.as_str().unicode_len();
            if n > 0 {
                q.as_str().substring_char(0, n - 1).to_owned()
            } else {
                q
            }
        }
    }

    /// The full address of the request.
    pub fn url(&self) -> (r: String)
        ensures
            r@ == bots_endpoint() + request_query(self@),
    {
        let q = self.query_string();
        let mut u = String::from_str("https://top.gg/api/bots");
        u.append(q.as_str());
        u
    }
}

} // verus!
