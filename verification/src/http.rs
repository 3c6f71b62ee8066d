//! The local HTTP endpoint: reading a request's method, path and body, which
//! route takes it, and the text of the responses.
use vstd::prelude::*;
use crate::number::{nat_digits, int_text, i64_text};
use crate::text::{chars_of, chars_of_string, string_of, concat, find, find_seq, before_first, is_ws, is_whitespace, slice};

verus! {

/// The number of bytes a character takes in UTF-8.
pub open spec fn char_utf8_len(c: char) -> int {
    if (c as u32) < 0x80 {
        1
    } else if (c as u32) < 0x800 {
        2
    } else if (c as u32) < 0x10000 {
        3
    } else {
        4
    }
}

/// The number of bytes a text takes in UTF-8.
pub open spec fn utf8_len(s: Seq<char>) -> int
    decreases s.len(),
{
    if s.len() == 0 {
        0
    } else {
        utf8_len(s.drop_last()) + char_utf8_len(s.last())
    }
}

/// The number of bytes a text takes in UTF-8 (see `utf8_len`).
pub fn byte_len(s: &str) -> (res: usize)
    requires
        utf8_len(s@) <= usize::MAX,
    ensures
        res == utf8_len(s@),
{
    let c = chars_of(s);
    let mut n: usize = 0;
    let mut i: usize = 0;
    assert(c@.subrange(0, 0) =~= Seq::<char>::empty());
    while i < c.len()
        invariant
            i <= c.len(),
            c@ == s@,
            n == utf8_len(c@.subrange(0, i as int)),
            utf8_len(s@) <= usize::MAX,
        decreases c.len() - i,
    {
        assert(c@.subrange(0, i + 1).drop_last() =~= c@.subrange(0, i as int));
        proof {
            lemma_utf8_prefix(c@, i + 1);
        }
        let k: usize = if (c[i] as u32) < 0x80 {
            1
        } else if (c[i] as u32) < 0x800 {
            2
        } else if (c[i] as u32) < 0x10000 {
            3
        } else {
            4
        };
        n = n + k;
        i += 1;
    }
    assert(c@.subrange(0, i as int) =~= c@);
    n
}

proof fn lemma_utf8_prefix(s: Seq<char>, k: int)
    requires
        0 <= k <= s.len(),
    ensures
        utf8_len(s.subrange(0, k)) <= utf8_len(s),
    decreases s.len() - k,
{
    if k < s.len() {
        lemma_utf8_prefix(s, k + 1);
        assert(s.subrange(0, k + 1).drop_last() =~= s.subrange(0, k));
    } else {
        assert(s.subrange(0, k) =~= s);
    }
}

/// The headers every response carries to allow calls from any page.
pub open spec fn cors_headers() -> Seq<char> {
    "Access-Control-Allow-Origin: *\r\nAccess-Control-Allow-Methods: GET, POST, PUT, DELETE, PATCH, OPTIONS\r\nAccess-Control-Allow-Headers: Content-Type, Authorization\r\n"@
}

/// A response with a status, a content type and a body.
pub open spec fn response_spec(status: u16, content_type: Seq<char>, body: Seq<char>) -> Seq<char> {
    "HTTP/1.1 "@ + nat_digits(status as nat) + " OK\r\nContent-Type: "@ + content_type + "\r\nContent-Length: "@
        + nat_digits(utf8_len(body) as nat) + "\r\n"@ + cors_headers() + "\r\n"@ + body
}

fn response(status: u16, content_type: &str, body: &str) -> (res: String)
    requires
        utf8_len(body@) <= usize::MAX,
        utf8_len(body@) <= i64::MAX,
    ensures
        res@ == response_spec(status, content_type@, body@),
{
    let n = byte_len(body);
    let mut out = concat(&chars_of("HTTP/1.1 "), &i64_text(status as i64));
    out = concat(&out, &chars_of(" OK\r\nContent-Type: "));
    out = concat(&out, &chars_of(content_type));
    out = concat(&out, &chars_of("\r\nContent-Length: "));
    out = concat(&out, &i64_text(n as i64));
    out = concat(&out, &chars_of("\r\n"));
    out = concat(
        &out,
        &chars_of(
            "Access-Control-Allow-Origin: *\r\nAccess-Control-Allow-Methods: GET, POST, PUT, DELETE, PATCH, OPTIONS\r\nAccess-Control-Allow-Headers: Content-Type, Authorization\r\n",
        ),
    );
    out = concat(&out, &chars_of("\r\n"));
    out = concat(&out, &chars_of(body));
    string_of(&out)
}

/// The text of a JSON response.
pub fn respond_json(status: u16, body: &str) -> (res: String)
    requires
        utf8_len(body@) <= usize::MAX,
        utf8_len(body@) <= i64::MAX,
    ensures
        res@ == response_spec(status, "application/json"@, body@),
{
    response(status, "application/json", body)
}

/// The text of a plain-text response.
pub fn respond_text(status: u16, msg: &str) -> (res: String)
    requires
        utf8_len(msg@) <= usize::MAX,
        utf8_len(msg@) <= i64::MAX,
    ensures
        res@ == response_spec(status, "text/plain"@, msg@),
{
    response(status, "text/plain", msg)
}

/// The answer to a CORS preflight request.
pub open spec fn preflight_spec() -> Seq<char> {
    "HTTP/1.1 200 OK\r\nAccess-Control-Allow-Origin: *\r\nAccess-Control-Allow-Methods: GET, POST, PUT, DELETE, PATCH, OPTIONS\r\nAccess-Control-Allow-Headers: Content-Type, Authorization\r\nAccess-Control-Max-Age: 86400\r\nContent-Length: 0\r\n\r\n"@
}

/// The text of the answer to a CORS preflight request.
pub fn respond_cors_preflight() -> (res: &'static str)
    ensures
        res@ == preflight_spec(),
{
    "HTTP/1.1 200 OK\r\nAccess-Control-Allow-Origin: *\r\nAccess-Control-Allow-Methods: GET, POST, PUT, DELETE, PATCH, OPTIONS\r\nAccess-Control-Allow-Headers: Content-Type, Authorization\r\nAccess-Control-Max-Age: 86400\r\nContent-Length: 0\r\n\r\n"
}

/// The first index at or after `i` whose character is (`ws`) or is not (`!ws`)
/// white space; the length when there is none.
pub open spec fn next_where(s: Seq<char>, i: int, ws: bool) -> int
    decreases s.len() - i,
{
    if i < 0 || i >= s.len() {
        if i < 0 { 0 } else { s.len() as int }
    } else if is_ws(s[i]) == ws {
        i
    } else {
        next_where(s, i + 1, ws)
    }
}

/// The first line of a request, without its line break.
pub open spec fn first_line(s: Seq<char>) -> Seq<char> {
    let l = before_first(s, seq!['\n']);
    if l.len() > 0 && l.last() == '\r' {
        l.drop_last()
    } else {
        l
    }
}

/// A request's method, path and body: the first two words of the first line
/// (`None` when there are fewer), and the text after the first blank line up to
/// the next one (empty when there is none).
pub open spec fn request_spec(s: Seq<char>) -> Option<(Seq<char>, Seq<char>, Seq<char>)> {
    let l = first_line(s);
    let a = next_where(l, 0, false);
    let b = next_where(l, a, true);
    let c = next_where(l, b, false);
    let d = next_where(l, c, true);
    if a >= l.len() || c >= l.len() {
        None
    } else {
        let sep = "\r\n\r\n"@;
        let body = match find_seq(s, sep) {
            Some(i) => before_first(s.subrange(i + 4, s.len() as int), sep),
            None => Seq::empty(),
        };
        Some((l.subrange(a, b), l.subrange(c, d), body))
    }
}

fn next_where_exec(s: &Vec<char>, i: usize, ws: bool) -> (res: usize)
    requires
        i <= s.len(),
    ensures
        res == next_where(s@, i as int, ws),
        i <= res <= s.len(),
{
    let mut k = i;
    while k < s.len() && is_whitespace(s[k]) != ws
        invariant
            i <= k <= s.len(),
            next_where(s@, i as int, ws) == next_where(s@, k as int, ws),
        decreases s.len() - k,
    {
        k += 1;
    }
    k
}

fn before(s: &Vec<char>, pat: &Vec<char>) -> (res: Vec<char>)
    ensures
        res@ == before_first(s@, pat@),
{
    proof {
        crate::text::lemma_find_seq(s@, pat@);
    }
    match find(s, pat) {
        Some(i) => slice(s, 0, i),
        None => s.clone(),
    }
}

/// A request's method, path and body (see `request_spec`).
pub fn parse_request(request: &str) -> (res: Option<(String, String, String)>)
    ensures
        match res {
            Some((m, p, b)) => request_spec(request@) == Some((m@, p@, b@)),
            None => request_spec(request@) is None,
        },
{
    let s = chars_of(request);
    let mut nl: Vec<char> = Vec::new();
    nl.push('\n');
    assert(nl@ =~= seq!['\n']);
    let mut l = before(&s, &nl);
    if l.len() > 0 && l[l.len() - 1] == '\r' {
        l.pop();
    }
    let a = next_where_exec(&l, 0, false);
    let b = next_where_exec(&l, a, true);
    let c = next_where_exec(&l, b, false);
    let d = next_where_exec(&l, c, true);
    if a >= l.len() || c >= l.len() {
        return None;
    }
    let sep = chars_of("\r\n\r\n");
    proof {
        reveal_strlit("\r\n\r\n");
        crate::text::lemma_find_seq(s@, sep@);
    }
    let body = match find(&s, &sep) {
        Some(i) => {
            assert(crate::text::matches_at(s@, sep@, i as int));
            assert(sep@.len() == 4);
            assert(i + sep@.len() <= s@.len());
            assert(i + 4 <= s.len());
            before(&slice(&s, i + 4, s.len()), &sep)
        },
        None => Vec::new(),
    };
    Some((string_of(&slice(&l, a, b)), string_of(&slice(&l, c, d)), string_of(&body)))
}

/// Where a request goes.
#[derive(Clone, Copy, Debug, PartialEq, Eq, Structural)]
pub enum Route {
    Preflight,
    StockItem,
    StockRiven,
    WishList,
    Unhandled,
}

/// The route of a request: OPTIONS to the preflight answer; a POST to
/// /stock_item, /stock_riven or /wish_list to that endpoint.
pub open spec fn route_spec(method: Seq<char>, path: Seq<char>) -> Route {
    if method == "OPTIONS"@ {
        Route::Preflight
    } else if method == "POST"@ && path == "/stock_item"@ {
        Route::StockItem
    } else if method == "POST"@ && path == "/stock_riven"@ {
        Route::StockRiven
    } else if method == "POST"@ && path == "/wish_list"@ {
        Route::WishList
    } else {
        Route::Unhandled
    }
}

/// The route of a request (see `route_spec`).
pub fn route_request(method: &str, path: &str) -> (res: Route)
    ensures
        res == route_spec(method@, path@),
{
    let m = chars_of(method);
    let p = chars_of(path);
    if crate::enums::seq_eq(&m, "OPTIONS") {
        Route::Preflight
    } else if crate::enums::seq_eq(&m, "POST") && crate::enums::seq_eq(&p, "/stock_item") {
        Route::StockItem
    } else if crate::enums::seq_eq(&m, "POST") && crate::enums::seq_eq(&p, "/stock_riven") {
        Route::StockRiven
    } else if crate::enums::seq_eq(&m, "POST") && crate::enums::seq_eq(&p, "/wish_list") {
        Route::WishList
    } else {
        Route::Unhandled
    }
}

/// The endpoint that adds rivens to the stock.
#[derive(Debug)]
pub struct StockRivenRoute {}

impl StockRivenRoute {
    /// The endpoint.
    pub fn new() -> (res: StockRivenRoute) {
        StockRivenRoute {}
    }

    /// Whether it takes a request: a POST to /stock_riven.
    pub fn accepts(&self, method: &str, path: &str) -> (res: bool)
        ensures
            res == (method@ == "POST"@ && path@ == "/stock_riven"@),
    {
        crate::enums::seq_eq(&chars_of(method), "POST") && crate::enums::seq_eq(&chars_of(path), "/stock_riven")
    }
}

/// The endpoint that adds items to the wish list.
#[derive(Debug)]
pub struct WishListRoute {}

impl WishListRoute {
    /// The endpoint.
    pub fn new() -> (res: WishListRoute) {
        WishListRoute {}
    }

    /// Whether it takes a request: a POST to /wish_list.
    pub fn accepts(&self, method: &str, path: &str) -> (res: bool)
        ensures
            res == (method@ == "POST"@ && path@ == "/wish_list"@),
    {
        crate::enums::seq_eq(&chars_of(method), "POST") && crate::enums::seq_eq(&chars_of(path), "/wish_list")
    }
}

/// The endpoints of the stock client service, under the scope /stock.
#[derive(Clone, Copy, Debug, PartialEq, Eq, Structural)]
pub enum StockEndpoint {
    AddRiven,
    AddItem,
}

/// The stock endpoint of a request: a POST to /stock/add_riven or
/// /stock/add_item; anything else is not served.
pub open spec fn stock_endpoint_spec(method: Seq<char>, path: Seq<char>) -> Option<StockEndpoint> {
    if method == "POST"@ && path == "/stock/add_riven"@ {
        Some(StockEndpoint::AddRiven)
    } else if method == "POST"@ && path == "/stock/add_item"@ {
        Some(StockEndpoint::AddItem)
    } else {
        None
    }
}

/// The client-side service that takes stock entries from other tools.
#[derive(Clone, Debug)]
pub struct HttpClient {}

impl HttpClient {
    /// The service.
    pub fn new() -> (res: HttpClient) {
        HttpClient {}
    }

    /// The endpoint a request reaches (see `stock_endpoint_spec`).
    pub fn endpoint(&self, method: &str, path: &str) -> (res: Option<StockEndpoint>)
        ensures
            res == stock_endpoint_spec(method@, path@),
    {
        let m = chars_of(method);
        let p = chars_of(path);
        if crate::enums::seq_eq(&m, "POST") && crate::enums::seq_eq(&p, "/stock/add_riven") {
            Some(StockEndpoint::AddRiven)
        } else if crate::enums::seq_eq(&m, "POST") && crate::enums::seq_eq(&p, "/stock/add_item") {
            Some(StockEndpoint::AddItem)
        } else {
            None
        }
    }
}

/// The address the endpoint serves on, and whether it runs.
#[derive(Debug)]
pub struct HttpServer {
    pub host: String,
    pub running: bool,
}

/// An address: host, ":" and port.
pub open spec fn address_spec(host: Seq<char>, port: u16) -> Seq<char> {
    host + seq![':'] + nat_digits(port as nat)
}

fn address(host: &str, port: u16) -> (res: String)
    ensures
        res@ == address_spec(host@, port),
{
    let mut colon: Vec<char> = Vec::new();
    colon.push(':');
    assert(colon@ =~= seq![':']);
    let a = concat(&chars_of(host), &colon);
    string_of(&concat(&a, &i64_text(port as i64)))
}

impl HttpServer {
    /// A stopped server on the given address.
    pub fn new(host: &str, port: u16) -> (res: HttpServer)
        ensures
            res.host@ == address_spec(host@, port),
            !res.running,
    {
        HttpServer { host: address(host, port), running: false }
    }

    /// Moves the server to a new address: "CHANGED" when it differs, else
    /// "NO_CHANGE".
    pub fn set_host(&mut self, new_host: &str, port: u16) -> (res: String)
        ensures
            final(self).host@ == address_spec(new_host@, port),
            final(self).running == old(self).running,
            res@ == if old(self).host@ != address_spec(new_host@, port) {
                "CHANGED"@
            } else {
                "NO_CHANGE"@
            },
    {
        let a = address(new_host, port);
        if !crate::trade::same_string(&self.host, &a) {
            self.host = a;
            "CHANGED".to_owned()
        } else {
            "NO_CHANGE".to_owned()
        }
    }

    /// Whether the server runs.
    pub fn is_running(&self) -> (res: bool)
        ensures
            res == self.running,
    {
        self.running
    }

    /// Marks the server as running; `false` when it already was.
    pub fn start(&mut self) -> (started: bool)
        ensures
            started == !old(self).running,
            final(self).running,
            final(self).host@ == old(self).host@,
    {
        if self.running {
            return false;
        }
        self.running = true;
        true
    }

    /// Marks the server as stopped; `false` when it was not running.
    pub fn stop(&mut self) -> (stopped: bool)
        ensures
            stopped == old(self).running,
            !final(self).running,
            final(self).host@ == old(self).host@,
    {
        if !self.running {
            return false;
        }
        self.running = false;
        true
    }
}

} // verus!
