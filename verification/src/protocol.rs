//! The wire protocol: request-line routing, status lines, content names,
//! and assembly of the one response shape the server emits:
//! `<status-line>\r\nContent-Length: <n>\r\n\r\n<body>`.

use vstd::prelude::*;
use crate::bytes::extend_from;
use crate::bytes::is_prefix_of;
use crate::bytes::starts_with_bytes;

verus! {

/// Which of the fixed routes a request line selects.
#[derive(Clone, Copy, Debug, PartialEq, Eq, Structural)]
pub enum Route {
    /// The root page: a request line beginning `GET / HTTP/1.1`.
    Home,
    /// The root page after a fixed delay: a line beginning `GET /sleep HTTP/1.1`.
    Sleep,
    /// Anything else.
    NotFound,
}

/// How long the slow route stalls its worker, in seconds.
pub const SLEEP_DELAY_SECS: u64 = 5;

/// The bytes of `GET / HTTP/1.1`.
pub open spec fn home_prefix() -> Seq<u8> {
    seq![71u8, 69u8, 84u8, 32u8, 47u8, 32u8, 72u8, 84u8, 84u8, 80u8, 47u8, 49u8, 46u8, 49u8]
}

/// The bytes of `GET /sleep HTTP/1.1`.
pub open spec fn sleep_prefix() -> Seq<u8> {
    seq![71u8, 69u8, 84u8, 32u8, 47u8, 115u8, 108u8, 101u8, 101u8, 112u8, 32u8, 72u8, 84u8,
        84u8, 80u8, 47u8, 49u8, 46u8, 49u8]
}

/// The bytes of `HTTP/1.1 200 OK`.
pub open spec fn ok_status() -> Seq<u8> {
    seq![72u8, 84u8, 84u8, 80u8, 47u8, 49u8, 46u8, 49u8, 32u8, 50u8, 48u8, 48u8, 32u8, 79u8,
        75u8]
}

/// The bytes of `HTTP/1.1 404 NOT FOUND`.
pub open spec fn not_found_status() -> Seq<u8> {
    seq![72u8, 84u8, 84u8, 80u8, 47u8, 49u8, 46u8, 49u8, 32u8, 52u8, 48u8, 52u8, 32u8, 78u8,
        79u8, 84u8, 32u8, 70u8, 79u8, 85u8, 78u8, 68u8]
}

/// The bytes of `hello.html`, the backing content of the success routes.
pub open spec fn home_page_name() -> Seq<u8> {
    seq![104u8, 101u8, 108u8, 108u8, 111u8, 46u8, 104u8, 116u8, 109u8, 108u8]
}

/// The bytes of `404.html`, the backing content of the not-found route.
pub open spec fn not_found_page_name() -> Seq<u8> {
    seq![52u8, 48u8, 52u8, 46u8, 104u8, 116u8, 109u8, 108u8]
}

/// The bytes of `Content-Length: `.
pub open spec fn content_length_label() -> Seq<u8> {
    seq![67u8, 111u8, 110u8, 116u8, 101u8, 110u8, 116u8, 45u8, 76u8, 101u8, 110u8, 103u8,
        116u8, 104u8, 58u8, 32u8]
}

/// The bytes of `\r\n`.
pub open spec fn crlf() -> Seq<u8> {
    seq![13u8, 10u8]
}

/// The bytes of `\r\n\r\n`, which end a request's header section.
pub open spec fn header_terminator() -> Seq<u8> {
    seq![13u8, 10u8, 13u8, 10u8]
}

fn home_prefix_bytes() -> (v: Vec<u8>)
    ensures
        v@ == home_prefix(),
{
    let mut v: Vec<u8> = Vec::new();
    v.push(71);
    v.push(69);
    v.push(84);
    v.push(32);
    v.push(47);
    v.push(32);
    v.push(72);
    v.push(84);
    v.push(84);
    v.push(80);
    v.push(47);
    v.push(49);
    v.push(46);
    v.push(49);
    proof {
        assert(v@ =~= home_prefix());
    }
    v
}

fn sleep_prefix_bytes() -> (v: Vec<u8>)
    ensures
        v@ == sleep_prefix(),
{
    let mut v: Vec<u8> = Vec::new();
    v.push(71);
    v.push(69);
    v.push(84);
    v.push(32);
    v.push(47);
    v.push(115);
    v.push(108);
    v.push(101);
    v.push(101);
    v.push(112);
    v.push(32);
    v.push(72);
    v.push(84);
    v.push(84);
    v.push(80);
    v.push(47);
    v.push(49);
    v.push(46);
    v.push(49);
    proof {
        assert(v@ =~= sleep_prefix());
    }
    v
}

/// The route a request selects: the first matching prefix wins, in the
/// order root, then sleep; everything else falls through to not-found.
pub open spec fn route_spec(request: Seq<u8>) -> Route {
    if is_prefix_of(home_prefix(), request) {
        Route::Home
    } else if is_prefix_of(sleep_prefix(), request) {
        Route::Sleep
    } else {
        Route::NotFound
    }
}

/// Decides the route for a raw request buffer by exact byte-prefix match.
/// Arbitrary bytes are tolerated: an unrecognized or malformed line is
/// never an error, it routes to not-found.
pub fn route_of(request: &Vec<u8>) -> (r: Route)
    ensures
        r == route_spec(request@),
{
    let home = home_prefix_bytes();
    if starts_with_bytes(request, &home) {
        return Route::Home;
    }
    let sleep = sleep_prefix_bytes();
    if starts_with_bytes(request, &sleep) {
        return Route::Sleep;
    }
    Route::NotFound
}

/// The status line each route is answered with.
pub open spec fn status_spec(r: Route) -> Seq<u8> {
    match r {
        Route::NotFound => not_found_status(),
        _ => ok_status(),
    }
}

/// The name of the backing content each route is answered with. The sleep
/// route serves the same page as the root route.
pub open spec fn content_name_spec(r: Route) -> Seq<u8> {
    match r {
        Route::NotFound => not_found_page_name(),
        _ => home_page_name(),
    }
}

/// How long a handler must stall before answering: only the sleep route
/// delays, and by exactly the fixed duration.
pub open spec fn delay_secs_spec(r: Route) -> u64 {
    if r is Sleep {
        SLEEP_DELAY_SECS
    } else {
        0
    }
}

pub fn status_line_of(route: Route) -> (v: Vec<u8>)
    ensures
        v@ == status_spec(route),
{
    let mut v: Vec<u8> = Vec::new();
    v.push(72);
    v.push(84);
    v.push(84);
    v.push(80);
    v.push(47);
    v.push(49);
    v.push(46);
    v.push(49);
    v.push(32);
    match route {
        Route::NotFound => {
            v.push(52);
            v.push(48);
            v.push(52);
            v.push(32);
            v.push(78);
            v.push(79);
            v.push(84);
            v.push(32);
            v.push(70);
            v.push(79);
            v.push(85);
            v.push(78);
            v.push(68);
            proof {
                assert(v@ =~= not_found_status());
            }
        },
        _ => {
            v.push(50);
            v.push(48);
            v.push(48);
            v.push(32);
            v.push(79);
            v.push(75);
            proof {
                assert(v@ =~= ok_status());
            }
        },
    }
    v
}

pub fn content_name_of(route: Route) -> (v: Vec<u8>)
    ensures
        v@ == content_name_spec(route),
{
    let mut v: Vec<u8> = Vec::new();
    match route {
        Route::NotFound => {
            v.push(52);
            v.push(48);
            v.push(52);
            v.push(46);
            v.push(104);
            v.push(116);
            v.push(109);
            v.push(108);
            proof {
                assert(v@ =~= not_found_page_name());
            }
        },
        _ => {
            v.push(104);
            v.push(101);
            v.push(108);
            v.push(108);
            v.push(111);
            v.push(46);
            v.push(104);
            v.push(116);
            v.push(109);
            v.push(108);
            proof {
                assert(v@ =~= home_page_name());
            }
        },
    }
    v
}

pub fn delay_secs_of(route: Route) -> (d: u64)
    ensures
        d == delay_secs_spec(route),
{
    match route {
        Route::Sleep => SLEEP_DELAY_SECS,
        _ => 0,
    }
}

/// Everything a handler must do for one request: how long to stall, which
/// status line to send, and which backing content to load for the body.
pub struct ResponsePlan {
    pub delay_secs: u64,
    pub status: Vec<u8>,
    pub content_name: Vec<u8>,
}

/// The complete dispatch decision for one raw request buffer.
pub fn plan_for(request: &Vec<u8>) -> (p: ResponsePlan)
    ensures
        p.delay_secs == delay_secs_spec(route_spec(request@)),
        p.status@ == status_spec(route_spec(request@)),
        p.content_name@ == content_name_spec(route_spec(request@)),
{
    let route = route_of(request);
    ResponsePlan {
        delay_secs: delay_secs_of(route),
        status: status_line_of(route),
        content_name: content_name_of(route),
    }
}

/// The decimal digits of `n`, most significant first, with no sign and no
/// leading zero (a single `0` for zero).
pub open spec fn dec_rep(n: nat) -> Seq<u8>
    decreases n,
{
    if n < 10 {
        seq![(48 + n) as u8]
    } else {
        dec_rep(n / 10).push((48 + n % 10) as u8)
    }
}

/// The number a sequence of decimal digit bytes denotes.
pub open spec fn dec_val(digits: Seq<u8>) -> int
    decreases digits.len(),
{
    if digits.len() == 0 {
        0
    } else {
        dec_val(digits.drop_last()) * 10 + (digits.last() - 48)
    }
}

/// The digits written for `n` denote exactly `n`.
pub proof fn lemma_dec_rep_value(n: nat)
    ensures
        dec_val(dec_rep(n)) == n,
    decreases n,
{
    if n < 10 {
        assert(dec_rep(n).drop_last() =~= Seq::<u8>::empty());
        assert((48 + n) as u8 == 48 + n);
        assert(dec_rep(n).last() == 48 + n);
        assert(dec_val(Seq::<u8>::empty()) == 0);
    } else {
        lemma_dec_rep_value(n / 10);
        assert(dec_rep(n).drop_last() =~= dec_rep(n / 10));
        assert(n % 10 < 10);
        assert((48 + n % 10) as u8 == 48 + n % 10);
        assert(dec_rep(n).last() == 48 + n % 10);
        assert(dec_val(dec_rep(n)) == dec_val(dec_rep(n / 10)) * 10 + (48 + n % 10) - 48);
        vstd::arithmetic::div_mod::lemma_fundamental_div_mod(n as int, 10);
    }
}

pub fn usize_to_decimal(n: usize) -> (r: Vec<u8>)
    ensures
        r@ == dec_rep(n as nat),
    decreases n,
{
    if n < 10 {
        let mut v: Vec<u8> = Vec::new();
        v.push(48 + n as u8);
        proof {
            assert(v@ =~= dec_rep(n as nat));
        }
        v
    } else {
        let mut v = usize_to_decimal(n / 10);
        v.push(48 + (n % 10) as u8);
        v
    }
}

/// The one response shape the server emits:
/// `<status-line>\r\nContent-Length: <n>\r\n\r\n<body>`, where `<n>` is the
/// exact byte count of the body.
pub open spec fn response_spec(status: Seq<u8>, body: Seq<u8>) -> Seq<u8> {
    status + crlf() + content_length_label() + dec_rep(body.len()) + header_terminator() + body
}

/// Assembles the full response for a status line and a body.
pub fn build_response(status: &Vec<u8>, body: &Vec<u8>) -> (r: Vec<u8>)
    ensures
        r@ == response_spec(status@, body@),
{
    let mut r: Vec<u8> = Vec::new();
    extend_from(&mut r, status);
    r.push(13);
    r.push(10);
    r.push(67);
    r.push(111);
    r.push(110);
    r.push(116);
    r.push(101);
    r.push(110);
    r.push(116);
    r.push(45);
    r.push(76);
    r.push(101);
    r.push(110);
    r.push(103);
    r.push(116);
    r.push(104);
    r.push(58);
    r.push(32);
    let digits = usize_to_decimal(body.len());
    extend_from(&mut r, &digits);
    r.push(13);
    r.push(10);
    r.push(13);
    r.push(10);
    extend_from(&mut r, body);
    proof {
        assert(r@ =~= response_spec(status@, body@));
    }
    r
}

/// Law: the response framing round-trips the body exactly. The emitted
/// digits denote the body's exact byte count, the header ends with the
/// terminator, and the bytes after the terminator are the body, whole and
/// unpadded, whatever its size.
pub proof fn lemma_response_round_trip(status: Seq<u8>, body: Seq<u8>)
    ensures
        ({
            let r = response_spec(status, body);
            let header_len = status.len() + crlf().len() + content_length_label().len()
                + dec_rep(body.len()).len() + header_terminator().len();
            &&& r.len() == header_len + body.len()
            &&& r.subrange(header_len as int, r.len() as int) == body
            &&& r.subrange(header_len - 4, header_len as int) == header_terminator()
            &&& dec_val(dec_rep(body.len())) == body.len()
        }),
{
    let r = response_spec(status, body);
    let header_len = status.len() + crlf().len() + content_length_label().len() + dec_rep(
        body.len(),
    ).len() + header_terminator().len();
    lemma_dec_rep_value(body.len());
    assert(r.subrange(header_len as int, r.len() as int) =~= body);
    assert(r.subrange(header_len - 4, header_len as int) =~= header_terminator());
}

/// Law: a request whose bytes begin with `GET / HTTP/1.1` is served the
/// success status line and the success page, after no delay.
pub proof fn lemma_home_request(request: Seq<u8>)
    requires
        is_prefix_of(home_prefix(), request),
    ensures
        route_spec(request) == Route::Home,
        status_spec(route_spec(request)) == ok_status(),
        content_name_spec(route_spec(request)) == home_page_name(),
        delay_secs_spec(route_spec(request)) == 0,
{
}

/// Law: a request whose bytes begin with `GET /sleep HTTP/1.1` is served
/// only after the fixed delay, and with the same status line and the same
/// page as the root route.
pub proof fn lemma_sleep_request(request: Seq<u8>)
    requires
        is_prefix_of(sleep_prefix(), request),
    ensures
        route_spec(request) == Route::Sleep,
        status_spec(route_spec(request)) == ok_status(),
        content_name_spec(route_spec(request)) == home_page_name(),
        delay_secs_spec(route_spec(request)) == SLEEP_DELAY_SECS,
{
    assert(request.subrange(0, sleep_prefix().len() as int)[5] == request[5]);
    assert(request[5] == 115);
    if is_prefix_of(home_prefix(), request) {
        assert(request.subrange(0, home_prefix().len() as int)[5] == request[5]);
        assert(false);
    }
}

/// Law: a request matching neither recognized prefix is served the
/// not-found status line and the not-found page, after no delay.
pub proof fn lemma_unmatched_request(request: Seq<u8>)
    requires
        !is_prefix_of(home_prefix(), request),
        !is_prefix_of(sleep_prefix(), request),
    ensures
        route_spec(request) == Route::NotFound,
        status_spec(route_spec(request)) == not_found_status(),
        content_name_spec(route_spec(request)) == not_found_page_name(),
        delay_secs_spec(route_spec(request)) == 0,
{
}

} // verus!
