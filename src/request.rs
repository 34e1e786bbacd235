//! The outgoing side of a call: the client's identity, and the HTTP request
//! that one call sends.
use vstd::prelude::*;
use crate::outside::{base64_of, encode_base64, json_string, json_string_of, value_text};
use crate::text::{decimal, push_decimal};

verus! {

/// The identity and credentials of one JSON-RPC peer.
#[derive(Debug, Clone)]
pub struct Client {
    pub host: String,
    pub port: u16,
    pub user: String,
    pub password: String,
    /// The id that every request of this client carries.
    pub id: String,
}

/// One HTTP header line.
#[derive(Debug)]
pub struct Header {
    pub name: String,
    pub value: String,
}

/// One HTTP POST request: where it goes, its headers in order, and its body.
#[derive(Debug)]
pub struct HttpRequest {
    pub url: String,
    pub headers: Vec<Header>,
    pub body: String,
}

/// `user:password`, the text that Basic authentication encodes.
pub open spec fn credentials_of(user: Seq<char>, password: Seq<char>) -> Seq<char> {
    user + seq![':'] + password
}

/// The value of the `Authorization` header for these credentials.
pub open spec fn authorization_of(user: Seq<char>, password: Seq<char>) -> Seq<char> {
    "Basic "@ + base64_of(credentials_of(user, password))
}

/// `host:port`, the value of the `Host` header.
pub open spec fn authority_of(host: Seq<char>, port: u16) -> Seq<char> {
    host + seq![':'] + decimal(port as nat)
}

/// The URL that every call of a client posts to.
pub open spec fn url_of(host: Seq<char>, port: u16) -> Seq<char> {
    "http://"@ + authority_of(host, port) + "/"@
}

/// The texts of a sequence of strings.
pub open spec fn texts(ps: Seq<String>) -> Seq<Seq<char>> {
    ps.map_values(|p: String| p@)
}

/// The texts `ps`, in their order, separated by commas.
pub open spec fn joined(ps: Seq<Seq<char>>) -> Seq<char>
    decreases ps.len(),
{
    if ps.len() == 0 {
        Seq::empty()
    } else if ps.len() == 1 {
        ps[0]
    } else {
        joined(ps.drop_last()) + seq![','] + ps.last()
    }
}

/// What stands in the body before the first parameter.
pub open spec fn envelope_head(id: Seq<char>, method: Seq<char>) -> Seq<char> {
    "{\"jsonrpc\":\"2.0\",\"id\":"@ + json_string_of(id) + ",\"method\":"@ + json_string_of(method)
        + ",\"params\":["@
}

/// The compact JSON-RPC 2.0 request object for one call, with each parameter
/// given by its JSON text.
pub open spec fn envelope_of(id: Seq<char>, method: Seq<char>, params: Seq<Seq<char>>) -> Seq<char> {
    envelope_head(id, method) + joined(params) + "]}"@
}

/// The headers of every call, as (name, value) pairs in the order they are sent.
pub open spec fn headers_of(c: Client) -> Seq<(Seq<char>, Seq<char>)> {
    seq![
        ("Host"@, authority_of(c.host@, c.port)),
        ("Content-Type"@, "application/json"@),
        ("Authorization"@, authorization_of(c.user@, c.password@)),
        ("Connection"@, "close"@),
    ]
}

/// The (name, value) pairs of a list of headers.
pub open spec fn header_pairs(hs: Seq<Header>) -> Seq<(Seq<char>, Seq<char>)> {
    hs.map_values(|h: Header| (h.name@, h.value@))
}


/// Where the text of parameter `i` starts within `joined(ps)`.
pub open spec fn param_offset(ps: Seq<Seq<char>>, i: int) -> int
    decreases i,
{
    if i <= 0 {
        0
    } else {
        param_offset(ps, i - 1) + ps[i - 1].len() + 1
    }
}

proof fn lemma_offset_monotonic(ps: Seq<Seq<char>>, i: int, j: int)
    requires
        0 <= i <= j,
    ensures
        param_offset(ps, i) <= param_offset(ps, j),
    decreases j - i,
{
    if i < j {
        lemma_offset_monotonic(ps, i, j - 1);
    }
}

proof fn lemma_offset_drop_last(ps: Seq<Seq<char>>, i: int)
    requires
        0 <= i < ps.len(),
    ensures
        param_offset(ps.drop_last(), i) == param_offset(ps, i),
    decreases i,
{
    if i > 0 {
        lemma_offset_drop_last(ps, i - 1);
    }
}

proof fn lemma_joined_len(ps: Seq<Seq<char>>)
    requires
        ps.len() >= 1,
    ensures
        joined(ps).len() == param_offset(ps, ps.len() as int) - 1,
    decreases ps.len(),
{
    let n = ps.len() as int;
    assert(param_offset(ps, n) == param_offset(ps, n - 1) + ps[n - 1].len() + 1);
    if n > 1 {
        let front = ps.drop_last();
        lemma_joined_len(front);
        lemma_offset_drop_last(ps, n - 1);
        assert(joined(ps) == joined(front) + seq![','] + ps[n - 1]);
    } else {
        assert(param_offset(ps, 0) == 0);
    }
}

proof fn lemma_joined_holds(ps: Seq<Seq<char>>, i: int)
    requires
        0 <= i < ps.len(),
    ensures
        joined(ps).subrange(param_offset(ps, i), param_offset(ps, i) + ps[i].len()) == ps[i],
    decreases ps.len(),
{
    let n = ps.len() as int;
    if n == 1 {
        assert(joined(ps).subrange(0, ps[0].len() as int) =~= ps[0]);
    } else {
        let front = ps.drop_last();
        lemma_joined_len(front);
        lemma_offset_drop_last(ps, n - 1);
        if i == n - 1 {
            assert(joined(ps).subrange(param_offset(ps, i), param_offset(ps, i) + ps[i].len())
                =~= ps[i]);
        } else {
            lemma_joined_holds(front, i);
            lemma_offset_drop_last(ps, i);
            lemma_offset_monotonic(ps, i + 1, n - 1);
            lemma_offset_monotonic(ps, 0, i);
            assert(joined(ps).subrange(param_offset(ps, i), param_offset(ps, i) + ps[i].len())
                =~= joined(front).subrange(param_offset(ps, i), param_offset(ps, i) + ps[i].len()));
        }
    }
}

/// Parameters keep their order in the request body: the text of each one
/// stands whole at its offset after the envelope's head, and an earlier
/// parameter ends before a later one begins.
pub proof fn lemma_params_in_order(id: Seq<char>, method: Seq<char>, ps: Seq<Seq<char>>, i: int, j: int)
    requires
        0 <= i < j < ps.len(),
    ensures
        ({
            let body = envelope_of(id, method, ps);
            let h = envelope_head(id, method).len() as int;
            &&& body.subrange(h + param_offset(ps, i), h + param_offset(ps, i) + ps[i].len()) == ps[i]
            &&& body.subrange(h + param_offset(ps, j), h + param_offset(ps, j) + ps[j].len()) == ps[j]
            &&& param_offset(ps, i) + ps[i].len() < param_offset(ps, j)
        }),
{
    let body = envelope_of(id, method, ps);
    let head = envelope_head(id, method);
    let h = head.len() as int;
    lemma_joined_holds(ps, i);
    lemma_joined_holds(ps, j);
    lemma_offset_monotonic(ps, i + 1, j);
    lemma_joined_len(ps);
    lemma_offset_monotonic(ps, j + 1, ps.len() as int);
    lemma_offset_monotonic(ps, 0, i);
    assert(body == head + joined(ps) + "]}"@);
    assert(body.subrange(h + param_offset(ps, i), h + param_offset(ps, i) + ps[i].len())
        =~= joined(ps).subrange(param_offset(ps, i), param_offset(ps, i) + ps[i].len()));
    assert(body.subrange(h + param_offset(ps, j), h + param_offset(ps, j) + ps[j].len())
        =~= joined(ps).subrange(param_offset(ps, j), param_offset(ps, j) + ps[j].len()));
}

/// Two clients with the same user and password send the same `Authorization`
/// header: `Basic ` followed by the base64 of `user:password`.
pub proof fn lemma_authorization_recomputed(a: Client, b: Client)
    requires
        a.user@ == b.user@,
        a.password@ == b.password@,
    ensures
        headers_of(a)[2] == headers_of(b)[2],
        headers_of(a)[2].0 == "Authorization"@,
        headers_of(a)[2].1 == "Basic "@ + base64_of(a.user@ + seq![':'] + a.password@),
{
}

/// The header value for Basic authentication from already encoded credentials.
pub fn basic_auth_value(encoded: &str) -> (r: String)
    ensures
        r@ == "Basic "@ + encoded@,
{
    let mut out = String::from_str("Basic ");
    out.append(encoded);
    out
}

/// The JSON-RPC request object for one call, from the request id, the method
/// name and the JSON text of each parameter, kept in the order given.
pub fn envelope_body(id: &str, method: &str, params: &[String]) -> (r: String)
    ensures
        r@ == envelope_of(id@, method@, texts(params@)),
{
    let ghost ps = texts(params@);
    let mut out = String::from_str("{\"jsonrpc\":\"2.0\",\"id\":");
    let quoted_id = json_string(id);
    out.append(quoted_id.as_str());
    out.append(",\"method\":");
    let quoted_method = json_string(method);
    out.append(quoted_method.as_str());
    out.append(",\"params\":[");
    assert(out@ =~= envelope_head(id@, method@));
    let mut i: usize = 0;
    while i < params.len()
        invariant
            i <= params@.len(),
            ps == texts(params@),
            out@ == envelope_head(id@, method@) + joined(ps.take(i as int)),
        decreases params@.len() - i,
    {
        let ghost before = out@;
        if i > 0 {
            out.append(",");
        }
        out.append(params[i].as_str());
        proof {
            let next = ps.take(i + 1);
            assert(next.drop_last() =~= ps.take(i as int));
            assert(next.last() == params@[i as int]@);
            if i == 0 {
                assert(joined(ps.take(0)) =~= Seq::<char>::empty());
                assert(out@ =~= envelope_head(id@, method@) + joined(next));
            } else {
                reveal_strlit(",");
                assert(out@ =~= envelope_head(id@, method@) + joined(next));
            }
        }
        i = i + 1;
    }
    assert(ps.take(params@.len() as int) =~= ps);
    out.append("]}");
    out
}

impl Client {
    /// `user:password`, freshly built.
    pub fn credentials(&self) -> (r: String)
        ensures
            r@ == credentials_of(self.user@, self.password@),
    {
        let mut out = self.user.clone();
        out.append(":");
        out.append(self.password.as_str());
        proof {
            reveal_strlit(":");
        }
        assert(out@ =~= credentials_of(self.user@, self.password@));
        out
    }

    /// The `Authorization` header value, computed anew on every call.
    pub fn authorization(&self) -> (r: String)
        ensures
            r@ == authorization_of(self.user@, self.password@),
    {
        let credentials = self.credentials();
        let encoded = encode_base64(credentials.as_str());
        basic_auth_value(encoded.as_str())
    }

    /// `host:port`.
    pub fn authority(&self) -> (r: String)
        ensures
            r@ == authority_of(self.host@, self.port),
    {
        let mut out = self.host.clone();
        out.append(":");
        push_decimal(&mut out, self.port as u32);
        proof {
            reveal_strlit(":");
        }
        assert(out@ =~= authority_of(self.host@, self.port));
        out
    }

    /// `http://host:port/`, where every call is posted.
    pub fn url(&self) -> (r: String)
        ensures
            r@ == url_of(self.host@, self.port),
    {
        let mut out = String::from_str("http://");
        let authority = self.authority();
        out.append(authority.as_str());
        out.append("/");
        assert(out@ =~= url_of(self.host@, self.port));
        out
    }

    /// The HTTP request that a call of `method` with the JSON values `params`
    /// sends: each value is written as its compact JSON text, in order.
    pub fn request_for_values(&self, method: &str, params: &[ureq::serde_json::Value]) -> (r:
        HttpRequest)
        ensures
            r.url@ == url_of(self.host@, self.port),
            header_pairs(r.headers@) == headers_of(*self),
            exists|ps: Seq<Seq<char>>|
                ps.len() == params@.len() && r.body@ == #[trigger] envelope_of(self.id@, method@, ps),
    {
        let mut written: Vec<String> = Vec::new();
        let mut i: usize = 0;
        while i < params.len()
            invariant
                i <= params@.len(),
                written@.len() == i,
            decreases params@.len() - i,
        {
            written.push(value_text(&params[i]));
            i = i + 1;
        }
        let r = self.build_request(method, written.as_slice());
        assert(texts(written@).len() == params@.len());
        r
    }

    /// The HTTP request that a call of `method` with the parameters `params`
    /// (each the JSON text of one parameter, in order) sends.
    pub fn build_request(&self, method: &str, params: &[String]) -> (r: HttpRequest)
        ensures
            r.url@ == url_of(self.host@, self.port),
            header_pairs(r.headers@) == headers_of(*self),
            r.body@ == envelope_of(self.id@, method@, texts(params@)),
    {
        let url = self.url();
        let mut headers: Vec<Header> = Vec::new();
        headers.push(Header { name: String::from_str("Host"), value: self.authority() });
        headers.push(Header {
            name: String::from_str("Content-Type"),
            value: String::from_str("application/json"),
        });
        headers.push(Header { name: String::from_str("Authorization"), value: self.authorization() });
        headers.push(Header { name: String::from_str("Connection"), value: String::from_str("close") });
        let body = envelope_body(self.id.as_str(), method, params);
        assert(header_pairs(headers@) =~= headers_of(*self));
        HttpRequest { url, headers, body }
    }
}

} // verus!
