//! The web server's logic: which page a request asks for, and the bytes of
//! the response that serves it.
use vstd::prelude::*;
use vstd::string::*;

verus! {

/// What a request asks for.
#[derive(Debug, Clone, Copy, PartialEq, Eq, Structural)]
pub enum Route {
    /// `GET / HTTP/1.1`: the hello page.
    Home,
    /// `GET /sleep HTTP/1.1`: the hello page, served after a pause.
    Sleep,
    /// Anything else.
    NotFound,
}

/// The request line of a request for the hello page.
pub open spec fn home_request() -> Seq<u8> {
    "GET / HTTP/1.1\r\n".spec_bytes()
}

/// The request line of a request for the hello page after a pause.
pub open spec fn sleep_request() -> Seq<u8> {
    "GET /sleep HTTP/1.1\r\n".spec_bytes()
}

/// `bytes` begins with `prefix`.
pub open spec fn has_prefix(bytes: Seq<u8>, prefix: Seq<u8>) -> bool {
    prefix.len() <= bytes.len() && bytes.subrange(0, prefix.len() as int) == prefix
}

/// The route of a request that begins with `request`.
pub open spec fn route_of(request: Seq<u8>) -> Route {
    if has_prefix(request, home_request()) {
        Route::Home
    } else if has_prefix(request, sleep_request()) {
        Route::Sleep
    } else {
        Route::NotFound
    }
}

/// Whether `bytes` begins with `prefix`.
pub fn starts_with(bytes: &[u8], prefix: &[u8]) -> (b: bool)
    ensures
        b == has_prefix(bytes@, prefix@),
{
    if prefix.len() > bytes.len() {
        return false;
    }
    let mut i: usize = 0;
    while i < prefix.len()
        invariant
            prefix@.len() <= bytes@.len(),
            i <= prefix@.len(),
            forall|j: int| 0 <= j < i ==> bytes@[j] == prefix@[j],
        decreases prefix@.len() - i,
    {
        if bytes[i] != prefix[i] {
            assert(bytes@.subrange(0, prefix@.len() as int)[i as int] != prefix@[i as int]);
            return false;
        }
        i = i + 1;
    }
    assert(bytes@.subrange(0, prefix@.len() as int) =~= prefix@);
    true
}

/// Routes a request by the request line that it begins with.
pub fn route(request: &[u8]) -> (r: Route)
    ensures
        r == route_of(request@),
{
    if starts_with(request, "GET / HTTP/1.1\r\n".as_bytes()) {
        Route::Home
    } else if starts_with(request, "GET /sleep HTTP/1.1\r\n".as_bytes()) {
        Route::Sleep
    } else {
        Route::NotFound
    }
}

/// The status line that answers `route`.
pub open spec fn status_line_of(route: Route) -> Seq<char> {
    match route {
        Route::NotFound => "HTTP/1.1 404 NOT FOUND"@,
        _ => "HTTP/1.1 200 OK"@,
    }
}

/// The name of the page that answers `route`.
pub open spec fn page_of(route: Route) -> Seq<char> {
    match route {
        Route::NotFound => "404.html"@,
        _ => "hello.html"@,
    }
}

pub fn status_line(route: Route) -> (line: &'static str)
    ensures
        line@ == status_line_of(route),
{
    match route {
        Route::NotFound => "HTTP/1.1 404 NOT FOUND",
        _ => "HTTP/1.1 200 OK",
    }
}

pub fn page(route: Route) -> (name: &'static str)
    ensures
        name@ == page_of(route),
{
    match route {
        Route::NotFound => "404.html",
        _ => "hello.html",
    }
}

/// The decimal digit `d`, for `d < 10`.
pub open spec fn digit(d: nat) -> char {
    seq!['0', '1', '2', '3', '4', '5', '6', '7', '8', '9'][d as int]
}

/// The decimal numeral of `n`, without leading zeros.
pub open spec fn decimal(n: nat) -> Seq<char>
    decreases n,
{
    if n < 10 {
        seq![digit(n)]
    } else {
        decimal(n / 10).push(digit(n % 10))
    }
}

/// The number that the numeral `ds` denotes, read in base ten.
pub open spec fn numeral_value(ds: Seq<char>) -> int
    decreases ds.len(),
{
    if ds.len() == 0 {
        0
    } else {
        numeral_value(ds.drop_last()) * 10 + (ds.last() as int - '0' as int)
    }
}

proof fn lemma_digit(d: nat)
    requires
        d < 10,
    ensures
        digit(d) as int - '0' as int == d,
        '0' <= digit(d) <= '9',
{
    let ds = seq!['0', '1', '2', '3', '4', '5', '6', '7', '8', '9'];
    if d == 0 { assert(ds[0] == '0'); }
    else if d == 1 { assert(ds[1] == '1'); }
    else if d == 2 { assert(ds[2] == '2'); }
    else if d == 3 { assert(ds[3] == '3'); }
    else if d == 4 { assert(ds[4] == '4'); }
    else if d == 5 { assert(ds[5] == '5'); }
    else if d == 6 { assert(ds[6] == '6'); }
    else if d == 7 { assert(ds[7] == '7'); }
    else if d == 8 { assert(ds[8] == '8'); }
    else { assert(ds[9] == '9'); }
}

/// The numeral of `n` denotes `n`, consists of digits only, and starts with
/// a zero only when it is the numeral of zero.
pub proof fn lemma_decimal_value(n: nat)
    ensures
        numeral_value(decimal(n)) == n,
        decimal(n).len() >= 1,
        forall|i: int| 0 <= i < decimal(n).len() ==> '0' <= #[trigger] decimal(n)[i] <= '9',
        decimal(n)[0] == '0' ==> n == 0,
    decreases n,
{
    if n < 10 {
        lemma_digit(n);
        assert(decimal(n).drop_last() =~= Seq::<char>::empty());
        assert(numeral_value(Seq::<char>::empty()) == 0);
        assert(decimal(n).last() == digit(n));
    } else {
        lemma_decimal_value(n / 10);
        lemma_digit(n % 10);
        assert(decimal(n).drop_last() =~= decimal(n / 10));
        assert(decimal(n).last() == digit(n % 10));
        assert(n == (n / 10) * 10 + n % 10);
        assert forall|i: int| 0 <= i < decimal(n).len() implies '0' <= #[trigger] decimal(n)[i] <= '9' by {
            if i < decimal(n / 10).len() {
                assert(decimal(n)[i] == decimal(n / 10)[i]);
            }
        }
        assert(decimal(n)[0] == decimal(n / 10)[0]);
    }
}

/// Appends the decimal numeral of `n` to `s`.
pub fn push_decimal(s: &mut String, n: usize)
    ensures
        final(s)@ == old(s)@ + decimal(n as nat),
    decreases n,
{
    if n >= 10 {
        push_decimal(s, n / 10);
    }
    let digits = "0123456789";
    proof {
        reveal_strlit("0123456789");
    }
    assert(digits@ =~= seq!['0', '1', '2', '3', '4', '5', '6', '7', '8', '9']);
    let d: usize = n % 10;
    let one = digits.substring_char(d, d + 1);
    assert(one@ =~= seq![digit(d as nat)]);
    s.append(one);
    assert(final(s)@ =~= old(s)@ + decimal(n as nat));
}

/// The response text for `status_line` and the page `contents`:
/// `status_line`, a `Content-Length` header with the byte length of
/// `contents`, a blank line and `contents`.
pub open spec fn response_of(status_line: Seq<char>, contents: &str) -> Seq<char> {
    status_line + "\r\n"@ + "Content-Length: "@ + decimal(contents.len() as nat)
        + "\r\n\r\n"@ + contents@
}

/// Builds the response for `status_line` and the page `contents`.
pub fn response(status_line: &str, contents: &str) -> (r: String)
    ensures
        r@ == response_of(status_line@, contents),
{
    let mut r = String::from_str(status_line);
    assert(r@ == status_line@);
    r.append("\r\n");
    r.append("Content-Length: ");
    let n: usize = contents.len();
    push_decimal(&mut r, n);
    r.append("\r\n\r\n");
    r.append(contents);
    assert(r@ =~= response_of(status_line@, contents));
    r
}

/// The request lines are ASCII: their bytes are their characters.
proof fn lemma_request_lines()
    ensures
        home_request().len() == 16,
        sleep_request().len() == 21,
        home_request()[5] == 32u8,
        sleep_request()[5] == 115u8,
{
    broadcast use is_ascii_spec_bytes;
    reveal_strlit("GET / HTTP/1.1\r\n");
    reveal_strlit("GET /sleep HTTP/1.1\r\n");
    assert(is_ascii("GET / HTTP/1.1\r\n"));
    assert(is_ascii("GET /sleep HTTP/1.1\r\n"));
}

/// Routing looks only at how a request begins: a request that begins with
/// the home request line is routed home, and one that begins with the sleep
/// request line is routed to sleep, whatever follows; a request that begins
/// with neither is not found.
pub proof fn lemma_route_by_prefix(suffix: Seq<u8>, request: Seq<u8>)
    ensures
        route_of(home_request() + suffix) == Route::Home,
        route_of(sleep_request() + suffix) == Route::Sleep,
        route_of(request) == Route::NotFound <==> (
            !(request.len() >= 16 && request.subrange(0, 16) == home_request())
            && !(request.len() >= 21 && request.subrange(0, 21) == sleep_request())),
{
    lemma_request_lines();
    let h = home_request() + suffix;
    assert(h.subrange(0, 16) =~= home_request());
    let t = sleep_request() + suffix;
    assert(t.subrange(0, 21) =~= sleep_request());
    assert(t.subrange(0, 16)[5] == 115u8);
    assert(t.subrange(0, 16) != home_request());
}

/// The response is the status line, a `Content-Length` header whose value,
/// read as a base-ten numeral of digits, is the byte length of the page, a
/// blank line, and the page itself.
pub proof fn lemma_response_content_length(status_line: Seq<char>, contents: &str)
    ensures
        exists|ds: Seq<char>|
            #![trigger numeral_value(ds)]
            {
                &&& response_of(status_line, contents) == status_line + "\r\n"@ + "Content-Length: "@ + ds
                    + "\r\n\r\n"@ + contents@
                &&& ds.len() >= 1
                &&& (ds.len() > 1 ==> ds[0] != '0')
                &&& forall|i: int| 0 <= i < ds.len() ==> '0' <= #[trigger] ds[i] <= '9'
                &&& numeral_value(ds) == contents.len()
            },
{
    let ds = decimal(contents.len() as nat);
    lemma_decimal_value(contents.len() as nat);
    assert(numeral_value(ds) == contents.len());
    if ds[0] == '0' {
        assert(decimal(0).len() == 1);
    }
}

} // verus!
