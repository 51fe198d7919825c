//! Control-channel clients of desktop players and Chromium shells: what each
//! needs to reach its player, and the messages exchanged with it.
//!
//! | player | channel | client |
//! | --- | --- | --- |
//! | mpv | JSON lines over a named pipe | [`MpvClient`] |
//! | VLC | HTTP `status.xml` | [`VlcHttpClient`] |
//! | Chromium shells | DevTools port (HTTP + WebSocket) | [`CdpClient`] |

use vstd::prelude::*;
use crate::input::{all_digits, dec_value, digit_value, digits_part, is_digit};
use crate::ipc::IpcError;
use crate::text::{
    chars_of, dec_text, decimal_text, find_chars, find_from, owned, push_char, rate_text,
    rate_to_text, string_of, sub_chars, trim, trimmed,
};
use vstd::utf8::encode_utf8;

verus! {

/// mpv's JSON IPC over a named pipe (`--input-ipc-server`).
#[derive(Debug, Clone)]
pub struct MpvClient {
    /// Pipe path, such as `\\.\pipe\mpvsocket`.
    pub pipe: String,
}

/// VLC's HTTP interface on the loopback (`http://127.0.0.1:{port}`); the user
/// name is always empty, the password is the user's.
#[derive(Debug, Clone)]
pub struct VlcHttpClient {
    pub port: u16,
    pub password: String,
}

/// DevTools debugging port of a Chromium shell (`http://127.0.0.1:{port}`),
/// opened by restarting the client with `--remote-debugging-port`.
#[derive(Debug, Clone)]
pub struct CdpClient {
    pub port: u16,
}

impl MpvClient {
    pub fn new(pipe: &str) -> (r: Self)
        ensures
            r.pipe@ == pipe@,
    {
        MpvClient { pipe: owned(pipe) }
    }
}

impl VlcHttpClient {
    pub fn new(port: u16, password: &str) -> (r: Self)
        ensures
            r.port == port,
            r.password@ == password@,
    {
        VlcHttpClient { port, password: owned(password) }
    }
}

impl CdpClient {
    pub fn new(port: u16) -> (r: Self)
        ensures
            r.port == port,
    {
        CdpClient { port }
    }
}

/// Base64 alphabet (RFC 4648): value → character.
pub open spec fn b64_char(v: int) -> char {
    if v < 26 {
        (65 + v) as char
    } else if v < 52 {
        (97 + v - 26) as char
    } else if v < 62 {
        (48 + v - 52) as char
    } else if v == 62 {
        '+'
    } else {
        '/'
    }
}

/// Base64 of one group of one to three bytes (padded with `=`).
pub open spec fn b64_group(g: Seq<u8>) -> Seq<char> {
    let b0 = g[0] as int;
    let b1 = if g.len() > 1 {
        g[1] as int
    } else {
        0
    };
    let b2 = if g.len() > 2 {
        g[2] as int
    } else {
        0
    };
    let n = b0 * 65536 + b1 * 256 + b2;
    seq![
        b64_char(n / 262144),
        b64_char((n / 4096) % 64),
        if g.len() > 1 {
            b64_char((n / 64) % 64)
        } else {
            '='
        },
        if g.len() > 2 {
            b64_char(n % 64)
        } else {
            '='
        },
    ]
}

/// Standard base64 (RFC 4648, with padding) of a byte sequence.
pub open spec fn base64_spec(s: Seq<u8>) -> Seq<char>
    decreases s.len(),
{
    if s.len() == 0 {
        Seq::empty()
    } else if s.len() <= 3 {
        b64_group(s)
    } else {
        b64_group(s.subrange(0, 3)) + base64_spec(s.subrange(3, s.len() as int))
    }
}

fn b64_char_of(v: u32) -> (c: char)
    requires
        v < 64,
    ensures
        c == b64_char(v as int),
{
    if v < 26 {
        ((65 + v) as u8) as char
    } else if v < 52 {
        ((97 + v - 26) as u8) as char
    } else if v < 62 {
        ((48 + v - 52) as u8) as char
    } else if v == 62 {
        '+'
    } else {
        '/'
    }
}

/// Standard base64 with padding (RFC 4648), for the `Authorization: Basic`
/// header.
pub fn base64(input: &[u8]) -> (r: String)
    ensures
        r@ == base64_spec(input@),
{
    let len = input.len();
    let mut out = String::new();
    let mut i: usize = 0;
    assert(input@.subrange(0, len as int) =~= input@);
    while i < len
        invariant
            len == input@.len(),
            i <= len,
            out@ + base64_spec(input@.subrange(i as int, len as int)) == base64_spec(input@),
        decreases len - i,
    {
        let k: usize = if len - i >= 3 {
            3
        } else {
            len - i
        };
        let ghost sub = input@.subrange(i as int, len as int);
        let ghost g = input@.subrange(i as int, i + k);
        assert(sub.subrange(0, k as int) =~= g);
        assert(sub.subrange(k as int, sub.len() as int) =~= input@.subrange(i + k, len as int));
        if len - i <= 3 {
            assert(sub =~= g);
            assert(input@.subrange(i + k, len as int) =~= Seq::<u8>::empty());
        }
        assert(base64_spec(sub) == b64_group(g) + base64_spec(input@.subrange(i + k, len as int)));
        let b0 = input[i] as u32;
        let b1: u32 = if k > 1 {
            input[i + 1] as u32
        } else {
            0
        };
        let b2: u32 = if k > 2 {
            input[i + 2] as u32
        } else {
            0
        };
        let n: u32 = b0 * 65536 + b1 * 256 + b2;
        let ghost before = out@;
        push_char(&mut out, b64_char_of(n / 262144));
        push_char(&mut out, b64_char_of((n / 4096) % 64));
        if k > 1 {
            push_char(&mut out, b64_char_of((n / 64) % 64));
        } else {
            push_char(&mut out, '=');
        }
        if k > 2 {
            push_char(&mut out, b64_char_of(n % 64));
        } else {
            push_char(&mut out, '=');
        }
        assert(out@ =~= before + b64_group(g));
        i = i + k;
    }
    assert(input@.subrange(len as int, len as int) =~= Seq::<u8>::empty());
    out
}

/// Base64 output is four characters per started group of three bytes.
pub proof fn law_base64_length(s: Seq<u8>)
    ensures
        base64_spec(s).len() == 4 * ((s.len() + 2) / 3),
    decreases s.len(),
{
    if s.len() > 3 {
        law_base64_length(s.subrange(3, s.len() as int));
    }
}

/// Outcome of one HTTP GET on the loopback, as the transport reports it.
#[derive(Debug)]
pub enum HttpOutcome {
    /// 2xx with this body.
    Body(String),
    /// 2xx, but reading the body failed (with the reason).
    Unreadable(String),
    /// A non-2xx status.
    Status(u16),
    /// Connection refused, timed out or otherwise failed below HTTP.
    Transport,
}

/// `<tag>` and `</tag>`.
pub open spec fn open_tag(tag: Seq<char>) -> Seq<char> {
    "<"@ + tag + ">"@
}

pub open spec fn close_tag(tag: Seq<char>) -> Seq<char> {
    "</"@ + tag + ">"@
}

/// Text between the first `<tag>` and the first `</tag>` after it.
pub open spec fn tag_text_spec(xml: Seq<char>, tag: Seq<char>) -> Option<Seq<char>> {
    match find_from(xml, open_tag(tag), 0) {
        None => None,
        Some(i) => {
            let start = i + open_tag(tag).len();
            match find_from(xml, close_tag(tag), start) {
                None => None,
                Some(j) => Some(xml.subrange(start, j)),
            }
        },
    }
}

/// Text of the first `<tag>…</tag>` element (VLC's `status.xml` is flat and
/// stable, so plain string search does).
pub fn extract_tag_text(xml: &str, tag: &str) -> (r: Option<String>)
    ensures
        r matches Some(t) ==> tag_text_spec(xml@, tag@) == Some(t@),
        r is None ==> tag_text_spec(xml@, tag@) is None,
{
    let x = chars_of(xml);
    let mut open = owned("<");
    open.append(tag);
    open.append(">");
    let mut close = owned("</");
    close.append(tag);
    close.append(">");
    let open_c = chars_of(open.as_str());
    let close_c = chars_of(close.as_str());
    let xl = x.len();
    let i = match find_chars(&x, &open_c, 0) {
        Some(i) => i,
        None => {
            return None;
        },
    };
    let start = i + open_c.len();
    let j = match find_chars(&x, &close_c, start) {
        Some(j) => j,
        None => {
            return None;
        },
    };
    Some(string_of(&sub_chars(&x, start, j)))
}

/// The digit at `k` of a fraction (0 past its end).
pub open spec fn digit_at(f: Seq<char>, k: int) -> int {
    if k < f.len() {
        digit_value(f[k])
    } else {
        0
    }
}

/// A decimal fraction in thousandths, rounded half up.
pub open spec fn frac_milli(f: Seq<char>) -> int {
    digit_at(f, 0) * 100 + digit_at(f, 1) * 10 + digit_at(f, 2) + if digit_at(f, 3) >= 5 {
        1int
    } else {
        0int
    }
}

/// A decimal number (optional `+`, digits, optional `.` and digits, at least
/// one digit) in thousandths, rounded half up; `None` for anything else.
pub open spec fn decimal_milli(t: Seq<char>) -> Option<int> {
    let d = digits_part(t);
    match find_from(d, seq!['.'], 0) {
        None => if d.len() > 0 && all_digits(d) {
            Some(dec_value(d) * 1000)
        } else {
            None
        },
        Some(p) => {
            let ip = d.subrange(0, p);
            let fp = d.subrange(p + 1, d.len() as int);
            if ip.len() + fp.len() > 0 && all_digits(ip) && all_digits(fp) {
                Some(dec_value(ip) * 1000 + frac_milli(fp))
            } else {
                None
            }
        },
    }
}

/// A rate read from a player (`<rate>` text, already trimmed): thousandths,
/// saturated at `u32::MAX`.
pub open spec fn rate_reading(t: Seq<char>) -> Option<u32> {
    match decimal_milli(t) {
        Some(v) => Some(if v > u32::MAX {
            u32::MAX
        } else {
            v as u32
        }),
        None => None,
    }
}

proof fn lemma_dec_value_step(s: Seq<char>, k: int)
    requires
        0 <= k < s.len(),
    ensures
        dec_value(s.subrange(0, k + 1)) == dec_value(s.subrange(0, k)) * 10 + digit_value(s[k]),
{
    assert(s.subrange(0, k + 1).drop_last() =~= s.subrange(0, k));
}

proof fn lemma_dec_nonneg_pub(s: Seq<char>)
    requires
        all_digits(s),
    ensures
        dec_value(s) >= 0,
    decreases s.len(),
{
    if s.len() > 0 {
        assert(all_digits(s.drop_last()));
        lemma_dec_nonneg_pub(s.drop_last());
    }
}

/// Value of a digit run, capped at 5_000_000 (every rate above that
/// saturates anyway).
fn capped_value(s: &Vec<char>, from: usize, to: usize) -> (r: Option<u64>)
    requires
        from <= to <= s@.len(),
    ensures
        r matches Some(v) ==> all_digits(s@.subrange(from as int, to as int)) && v == (if dec_value(
            s@.subrange(from as int, to as int),
        ) > 5_000_000 {
            5_000_000
        } else {
            dec_value(s@.subrange(from as int, to as int))
        }),
        r is None ==> !all_digits(s@.subrange(from as int, to as int)),
{
    let ghost d = s@.subrange(from as int, to as int);
    let mut v: u64 = 0;
    let mut i = from;
    while i < to
        invariant
            from <= i <= to <= s@.len(),
            d == s@.subrange(from as int, to as int),
            all_digits(d.subrange(0, i - from)),
            v == (if dec_value(d.subrange(0, i - from)) > 5_000_000 {
                5_000_000
            } else {
                dec_value(d.subrange(0, i - from))
            }),
        decreases to - i,
    {
        let c = s[i];
        if !('0' <= c && c <= '9') {
            assert(d[i - from] == c);
            assert(!is_digit(d[i - from]));
            return None;
        }
        proof {
            lemma_dec_value_step(d, i - from);
            lemma_dec_nonneg_pub(d.subrange(0, i - from));
            assert(d.subrange(0, i - from + 1).drop_last() =~= d.subrange(0, i - from));
            assert forall|k: int| 0 <= k < i - from + 1 implies is_digit(
                #[trigger] d.subrange(0, i - from + 1)[k],
            ) by {
                if k < i - from {
                    assert(d.subrange(0, i - from + 1)[k] == d.subrange(0, i - from)[k]);
                }
            }
        }
        let next = v * 10 + (c as u64 - '0' as u64);
        v = if next > 5_000_000 {
            5_000_000
        } else {
            next
        };
        i = i + 1;
    }
    assert(d.subrange(0, to - from) =~= d);
    Some(v)
}

fn digit_or_zero(s: &Vec<char>, k: usize) -> (r: u32)
    requires
        forall|j: int| 0 <= j < s@.len() ==> is_digit(#[trigger] s@[j]),
    ensures
        r == digit_at(s@, k as int),
        r <= 9,
{
    if k < s.len() {
        assert(is_digit(s@[k as int]));
        (s[k] as u32) - ('0' as u32)
    } else {
        0
    }
}

/// A decimal rate text in thousandths (see [`rate_reading`]).
pub fn parse_rate_reading(t: &Vec<char>) -> (r: Option<u32>)
    ensures
        r == rate_reading(t@),
{
    let start: usize = if t.len() > 0 && t[0] == '+' {
        1
    } else {
        0
    };
    let d = sub_chars(t, start, t.len());
    assert(d@ == digits_part(t@)) by {
        if t@.len() > 0 && t@[0] == '+' {
            assert(t@.drop_first() =~= t@.subrange(1, t@.len() as int));
        } else {
            assert(t@ =~= t@.subrange(0, t@.len() as int));
        }
    }
    let mut dot_pat: Vec<char> = Vec::new();
    dot_pat.push('.');
    assert(dot_pat@ =~= seq!['.']);
    match find_chars(&d, &dot_pat, 0) {
        None => {
            if d.len() == 0 {
                return None;
            }
            match capped_value(&d, 0, d.len()) {
                None => {
                    assert(d@.subrange(0, d@.len() as int) =~= d@);
                    None
                },
                Some(v) => {
                    assert(d@.subrange(0, d@.len() as int) =~= d@);
                    let milli: u64 = v * 1000;
                    if milli > u32::MAX as u64 {
                        Some(u32::MAX)
                    } else {
                        Some(milli as u32)
                    }
                },
            }
        },
        Some(p) => {
            let ghost ip = d@.subrange(0, p as int);
            let ghost fp = d@.subrange(p + 1, d@.len() as int);
            if p == 0 && p + 1 == d.len() {
                return None;
            }
            let iv = match capped_value(&d, 0, p) {
                Some(v) => v,
                None => {
                    return None;
                },
            };
            let f = sub_chars(&d, p + 1, d.len());
            match capped_value(&d, p + 1, d.len()) {
                Some(_) => {},
                None => {
                    return None;
                },
            }
            assert(f@ == fp);
            let fm: u32 = digit_or_zero(&f, 0) * 100 + digit_or_zero(&f, 1) * 10 + digit_or_zero(&f, 2)
                + if digit_or_zero(&f, 3) >= 5 {
                1
            } else {
                0
            };
            let milli: u64 = iv * 1000 + fm as u64;
            proof {
                lemma_dec_nonneg_pub(ip);
            }
            if milli > u32::MAX as u64 {
                Some(u32::MAX)
            } else {
                Some(milli as u32)
            }
        },
    }
}

proof fn lemma_dec_text(n: nat)
    ensures
        dec_text(n).len() > 0,
        all_digits(dec_text(n)),
        dec_value(dec_text(n)) == n,
    decreases n,
{
    let k = (n % 10) as int;
    assert(digit_value(crate::text::digit_char(k)) == k);
    if n >= 10 {
        lemma_dec_text(n / 10);
        let s = dec_text(n / 10);
        let d = crate::text::digit_char((n % 10) as int);
        assert(s.push(d).drop_last() =~= s);
        assert(s.push(d).last() == d);
        assert(dec_value(s.push(d)) == dec_value(s) * 10 + digit_value(d));
        assert(dec_text(n) == s.push(d));
        assert((n / 10) * 10 + n % 10 == n) by (nonlinear_arith);
        assert forall|i: int| 0 <= i < s.push(d).len() implies is_digit(#[trigger] s.push(d)[i]) by {
            if i < s.len() {
                assert(s.push(d)[i] == s[i]);
            }
        }
        assert(dec_value(s) == n / 10);
        assert(digit_value(d) == n % 10);
    } else {
        assert(dec_text(n).drop_last() =~= Seq::<char>::empty());
        assert(dec_value(Seq::<char>::empty()) == 0);
        assert(n % 10 == n);
    }
}

proof fn lemma_no_dot(s: Seq<char>, from: int)
    requires
        all_digits(s),
        0 <= from,
    ensures
        find_from(s, seq!['.'], from) is None,
    decreases s.len() + 1 - from,
{
    if from + 1 <= s.len() {
        assert(s.subrange(from, from + 1)[0] == s[from]);
        assert(is_digit(s[from]));
        lemma_no_dot(s, from + 1);
    }
}

proof fn lemma_dot_at(a: Seq<char>, b: Seq<char>, from: int)
    requires
        all_digits(a),
        0 <= from <= a.len(),
    ensures
        find_from(a + seq!['.'] + b, seq!['.'], from) == Some(a.len() as int),
    decreases a.len() - from,
{
    let s = a + seq!['.'] + b;
    if from < a.len() {
        assert(s.subrange(from, from + 1)[0] == s[from]);
        assert(s[from] == a[from]);
        assert(is_digit(a[from]));
        lemma_dot_at(a, b, from + 1);
    } else {
        assert(s.subrange(from, from + 1) =~= seq!['.']);
    }
}

/// What a rate is written as in a query (`rate_query`) reads back as the same
/// rate: VLC's `val=` and its `<rate>` use one notation.
pub proof fn law_rate_text_reads_back(r: u32)
    ensures
        decimal_milli(rate_text(r as nat)) == Some(r as int),
        rate_reading(rate_text(r as nat)) == Some(r),
{
    let q = (r / 1000) as nat;
    let f = (r % 1000) as int;
    lemma_dec_text(q);
    let a = dec_text(q);
    let t = rate_text(r as nat);
    reveal_strlit(".");
    assert("."@ =~= seq!['.']);
    assert(is_digit(a[0]));
    if f == 0 {
        assert(t == a);
        assert(digits_part(t) == t);
        lemma_no_dot(a, 0);
    } else {
        let b = crate::text::frac_text(f);
        assert(t == a + seq!['.'] + b);
        assert(t[0] == a[0]);
        assert(digits_part(t) == t);
        lemma_dot_at(a, b, 0);
        assert(t.subrange(0, a.len() as int) =~= a);
        assert(t.subrange(a.len() as int + 1, t.len() as int) =~= b);
        assert(all_digits(b));
        assert(frac_milli(b) == f);
    }
}

/// The text of the "value is not a number" reason (`f64`'s parse error).
pub open spec fn float_error_text(t: Seq<char>) -> Seq<char> {
    if t.len() == 0 {
        "cannot parse float from empty string"@
    } else {
        "invalid float literal"@
    }
}

/// What [`extract_rate`] gives.
pub open spec fn extract_rate_spec(xml: Seq<char>) -> Result<u32, Seq<char>> {
    match tag_text_spec(xml, "rate"@) {
        None => Err("status.xml 中没有 <rate> 标签"@),
        Some(t) => match rate_reading(trimmed(t)) {
            Some(v) => Ok(v),
            None => Err("<rate> 的值不是数字："@ + float_error_text(trimmed(t))),
        },
    }
}

/// The rate of VLC's `status.xml` (`<rate>` in thousandths); `Protocol` when
/// the tag is missing or not a number.
pub fn extract_rate(xml: &str) -> (r: Result<u32, IpcError>)
    ensures
        match extract_rate_spec(xml@) {
            Ok(v) => r matches Ok(x) && x == v,
            Err(m) => r matches Err(IpcError::Protocol(e)) && e@ == m,
        },
{
    let text = match extract_tag_text(xml, "rate") {
        Some(t) => t,
        None => {
            return Err(IpcError::Protocol(owned("status.xml 中没有 <rate> 标签")));
        },
    };
    let tc = chars_of(trim(text.as_str()).as_str());
    match parse_rate_reading(&tc) {
        Some(v) => Ok(v),
        None => {
            let mut e = owned("<rate> 的值不是数字：");
            if tc.len() == 0 {
                e.append("cannot parse float from empty string");
            } else {
                e.append("invalid float literal");
            }
            Err(IpcError::Protocol(e))
        },
    }
}

/// The query that sets an exact rate (`command=rate&val=2.5`).
pub fn rate_query(rate: u32) -> (r: String)
    ensures
        r@ == "command=rate&val="@ + rate_text(rate as nat),
{
    let mut q = owned("command=rate&val=");
    let t = rate_to_text(rate);
    q.append(t.as_str());
    q
}

/// The query that toggles play / pause.
pub const PAUSE_QUERY: &'static str = "command=pl_pause";

impl VlcHttpClient {
    /// `http://127.0.0.1:{port}/requests/status.xml`, with `?query` when
    /// given.
    pub fn status_url(&self, query: Option<&str>) -> (r: String)
        ensures
            r@ == "http://127.0.0.1:"@ + dec_text(self.port as nat) + "/requests/status.xml"@ + match query {
                Some(q) => "?"@ + q@,
                None => Seq::empty(),
            },
    {
        let mut u = owned("http://127.0.0.1:");
        let p = decimal_text(self.port as u64);
        u.append(p.as_str());
        u.append("/requests/status.xml");
        match query {
            Some(q) => {
                u.append("?");
                u.append(q);
            },
            None => {},
        }
        u
    }

    /// `Authorization` header value: Basic with an empty user name and the
    /// password (`Basic base64(":" + password)`).
    pub fn auth_header(&self) -> (r: String)
        ensures
            r@ == "Basic "@ + base64_spec(encode_utf8(":"@ + self.password@)),
    {
        let mut cred = owned(":");
        cred.append(self.password.as_str());
        let b = base64(cred.as_str().as_bytes());
        let mut h = owned("Basic ");
        h.append(b.as_str());
        h
    }

    /// Sorts a request's outcome: 401 is a wrong password, other statuses and
    /// unreadable bodies are protocol errors, transport failures mean VLC's
    /// interface is not there.
    pub fn classify(outcome: HttpOutcome) -> (r: Result<String, IpcError>)
        ensures
            match outcome {
                HttpOutcome::Body(b) => r matches Ok(x) && x@ == b@,
                HttpOutcome::Unreadable(e) => r matches Err(IpcError::Protocol(m)) && m@ == "读取 VLC 响应失败："@ + e@,
                HttpOutcome::Status(code) => if code == 401 {
                    r matches Err(IpcError::AuthFailed)
                } else {
                    r matches Err(IpcError::Protocol(m)) && m@ == "VLC 返回 HTTP "@ + dec_text(code as nat)
                },
                HttpOutcome::Transport => r matches Err(IpcError::Unavailable),
            },
    {
        match outcome {
            HttpOutcome::Body(b) => Ok(b),
            HttpOutcome::Unreadable(e) => {
                let mut m = owned("读取 VLC 响应失败：");
                m.append(e.as_str());
                Err(IpcError::Protocol(m))
            },
            HttpOutcome::Status(code) => {
                if code == 401 {
                    Err(IpcError::AuthFailed)
                } else {
                    let mut m = owned("VLC 返回 HTTP ");
                    let c = decimal_text(code as u64);
                    m.append(c.as_str());
                    Err(IpcError::Protocol(m))
                }
            },
            HttpOutcome::Transport => Err(IpcError::Unavailable),
        }
    }

    /// Whether VLC's interface is reachable, from a `status.xml` request:
    /// only transport failures count; a wrong password still means it
    /// listens.
    pub fn is_available(status: &Result<String, IpcError>) -> (r: bool)
        ensures
            r == !(status matches Err(IpcError::Unavailable)),
    {
        match status {
            Err(IpcError::Unavailable) => false,
            _ => true,
        }
    }
}

/// `host:port` of a `ws://host:port/devtools/page/…` debugger URL.
pub open spec fn ws_addr_spec(u: Seq<char>) -> Option<Seq<char>> {
    if u.len() >= 5 && u.subrange(0, 5) == "ws://"@ {
        let rest = u.subrange(5, u.len() as int);
        Some(
            match find_from(rest, seq!['/'], 0) {
                Some(i) => rest.subrange(0, i),
                None => rest,
            },
        )
    } else {
        None
    }
}

/// `host:port` of a WebSocket debugger URL; `None` unless it starts with
/// `ws://`.
pub fn ws_addr(ws_url: &str) -> (r: Option<String>)
    ensures
        r matches Some(a) ==> ws_addr_spec(ws_url@) == Some(a@),
        r is None ==> ws_addr_spec(ws_url@) is None,
{
    let u = chars_of(ws_url);
    let mut prefix: Vec<char> = Vec::new();
    prefix.push('w');
    prefix.push('s');
    prefix.push(':');
    prefix.push('/');
    prefix.push('/');
    proof {
        reveal_strlit("ws://");
    }
    assert(prefix@ =~= "ws://"@);
    if u.len() < 5 {
        return None;
    }
    let head = sub_chars(&u, 0, 5);
    if !crate::text::chars_eq(&head, &prefix) {
        return None;
    }
    let rest = sub_chars(&u, 5, u.len());
    let mut slash: Vec<char> = Vec::new();
    slash.push('/');
    assert(slash@ =~= seq!['/']);
    let end = match find_chars(&rest, &slash, 0) {
        Some(i) => i,
        None => rest.len(),
    };
    Some(string_of(&sub_chars(&rest, 0, end)))
}

/// A debugging target as `/json/list` lists it (only what is used).
#[derive(Debug, Clone)]
pub struct RawTarget {
    /// `page`, `iframe`, `webview`, `service_worker`, …
    pub kind: String,
    pub url: String,
    pub ws_url: Option<String>,
}

/// Targets scripts can run in: pages, frames and web views with a debugger
/// URL.
pub open spec fn injectable(t: RawTarget) -> bool {
    (t.kind@ == "page"@ || t.kind@ == "iframe"@ || t.kind@ == "webview"@) && t.ws_url is Some
}

/// A player page (its URL mentions `player`).
pub open spec fn is_player_page(t: RawTarget) -> bool {
    find_from(t.url@, "player"@, 0) is Some
}

pub open spec fn ws_of(t: RawTarget) -> Seq<char> {
    t.ws_url->0@
}

/// Debugger URLs to inject into, player pages first, each group in list
/// order.
pub open spec fn target_order(raw: Seq<RawTarget>) -> Seq<Seq<char>> {
    let c = raw.filter(|t: RawTarget| injectable(t));
    c.filter(|t: RawTarget| is_player_page(t)).map_values(|t: RawTarget| ws_of(t)) + c.filter(
        |t: RawTarget| !is_player_page(t),
    ).map_values(|t: RawTarget| ws_of(t))
}

fn is_player_url(url: &String) -> (r: bool)
    ensures
        r == (find_from(url@, "player"@, 0) is Some),
{
    let u = chars_of(url.as_str());
    let pat = chars_of("player");
    find_chars(&u, &pat, 0).is_some()
}

/// Orders the injectable targets of `/json/list` (see [`target_order`]): the
/// player of some clients lives in its own `player.html` window.
pub fn order_targets(raw: &Vec<RawTarget>) -> (r: Vec<String>)
    ensures
        r@.map_values(|s: String| s@) == target_order(raw@),
{
    let ghost inj = |t: RawTarget| injectable(t);
    let ghost pl = |t: RawTarget| is_player_page(t);
    let ghost npl = |t: RawTarget| !is_player_page(t);
    let ghost wsf = |t: RawTarget| ws_of(t);
    let mut players: Vec<String> = Vec::new();
    let mut others: Vec<String> = Vec::new();
    let mut i: usize = 0;
    while i < raw.len()
        invariant
            i <= raw.len(),
            inj == (|t: RawTarget| injectable(t)),
            pl == (|t: RawTarget| is_player_page(t)),
            npl == (|t: RawTarget| !is_player_page(t)),
            wsf == (|t: RawTarget| ws_of(t)),
            players@.map_values(|s: String| s@) == raw@.subrange(0, i as int).filter(inj).filter(pl).map_values(wsf),
            others@.map_values(|s: String| s@) == raw@.subrange(0, i as int).filter(inj).filter(npl).map_values(wsf),
        decreases raw.len() - i,
    {
        let t = &raw[i];
        let ghost prefix = raw@.subrange(0, i as int);
        assert(raw@.subrange(0, i + 1).drop_last() =~= prefix);
        assert(raw@.subrange(0, i + 1).last() == raw@[i as int]);
        reveal_with_fuel(Seq::filter, 1);
        let kind = t.kind.as_str();
        let ok_kind = str_eq_local(kind, "page") || str_eq_local(kind, "iframe") || str_eq_local(kind, "webview");
        let ghost pp = players@.map_values(|s: String| s@);
        let ghost op = others@.map_values(|s: String| s@);
        if ok_kind {
            match &t.ws_url {
                Some(ws) => {
                    assert(injectable(raw@[i as int]));
                    assert(raw@.subrange(0, i + 1).filter(inj) == prefix.filter(inj).push(raw@[i as int]));
                    if is_player_url(&t.url) {
                        assert(pl(raw@[i as int]));
                        assert(!npl(raw@[i as int]));
                        let ghost c = prefix.filter(inj);
                        assert(c.push(raw@[i as int]).drop_last() =~= c);
                        players.push(ws.clone());
                        assert(players@.map_values(|s: String| s@) =~= pp.push(ws@));
                        assert(prefix.filter(inj).push(raw@[i as int]).filter(pl) == prefix.filter(inj).filter(pl).push(raw@[i as int]));
                        assert(prefix.filter(inj).push(raw@[i as int]).filter(npl) == prefix.filter(inj).filter(npl));
                    } else {
                        assert(!pl(raw@[i as int]));
                        assert(npl(raw@[i as int]));
                        let ghost c = prefix.filter(inj);
                        assert(c.push(raw@[i as int]).drop_last() =~= c);
                        others.push(ws.clone());
                        assert(others@.map_values(|s: String| s@) =~= op.push(ws@));
                        assert(prefix.filter(inj).push(raw@[i as int]).filter(pl) == prefix.filter(inj).filter(pl));
                        assert(prefix.filter(inj).push(raw@[i as int]).filter(npl) == prefix.filter(inj).filter(npl).push(raw@[i as int]));
                    }
                },
                None => {
                    assert(!injectable(raw@[i as int]));
                    assert(raw@.subrange(0, i + 1).filter(inj) == prefix.filter(inj));
                },
            }
        } else {
            assert(!injectable(raw@[i as int]));
            assert(raw@.subrange(0, i + 1).filter(inj) == prefix.filter(inj));
        }
        i = i + 1;
    }
    assert(raw@.subrange(0, raw.len() as int) =~= raw@);
    let ghost pv = players@.map_values(|s: String| s@);
    let ghost ov = others@.map_values(|s: String| s@);
    let mut k: usize = 0;
    let n = others.len();
    while k < n
        invariant
            n == others@.len(),
            ov == others@.map_values(|s: String| s@),
            k <= n,
            players@.map_values(|s: String| s@) == pv + ov.subrange(0, k as int),
        decreases n - k,
    {
        let ghost before = players@.map_values(|s: String| s@);
        players.push(others[k].clone());
        assert(players@.map_values(|s: String| s@) =~= before.push(ov[k as int]));
        assert(ov.subrange(0, k + 1) =~= ov.subrange(0, k as int).push(ov[k as int]));
        k = k + 1;
    }
    assert(ov.subrange(0, n as int) =~= ov);
    players
}

fn str_eq_local(a: &str, b: &str) -> (r: bool)
    ensures
        r == (a@ == b@),
{
    crate::text::str_eq(a, b)
}

impl CdpClient {
    /// `http://127.0.0.1:{port}{path}`.
    pub fn url(&self, path: &str) -> (r: String)
        ensures
            r@ == "http://127.0.0.1:"@ + dec_text(self.port as nat) + path@,
    {
        let mut u = owned("http://127.0.0.1:");
        let p = decimal_text(self.port as u64);
        u.append(p.as_str());
        u.append(path);
        u
    }

    /// Sorts a debugging-port request's outcome like VLC's, without the
    /// password case: transport failures mean the port is closed (the client
    /// is not taken over).
    pub fn classify(outcome: HttpOutcome) -> (r: Result<String, IpcError>)
        ensures
            match outcome {
                HttpOutcome::Body(b) => r matches Ok(x) && x@ == b@,
                HttpOutcome::Unreadable(e) => r matches Err(IpcError::Protocol(m)) && m@ == "读取 CDP 应答失败："@ + e@,
                HttpOutcome::Status(code) => r matches Err(IpcError::Protocol(m)) && m@ == "CDP 调试口返回 HTTP "@
                    + dec_text(code as nat),
                HttpOutcome::Transport => r matches Err(IpcError::Unavailable),
            },
    {
        match outcome {
            HttpOutcome::Body(b) => Ok(b),
            HttpOutcome::Unreadable(e) => {
                let mut m = owned("读取 CDP 应答失败：");
                m.append(e.as_str());
                Err(IpcError::Protocol(m))
            },
            HttpOutcome::Status(code) => {
                let mut m = owned("CDP 调试口返回 HTTP ");
                let c = decimal_text(code as u64);
                m.append(c.as_str());
                Err(IpcError::Protocol(m))
            },
            HttpOutcome::Transport => Err(IpcError::Unavailable),
        }
    }

    /// Whether the debugging port is online (the client is taken over), from
    /// the outcome of `/json/version`: only a transport failure means it is
    /// not; an HTTP error status or an unreadable reply still shows the port
    /// listening.
    pub fn is_available(version: &Result<String, IpcError>) -> (r: bool)
        ensures
            r == !(*version matches Err(IpcError::Unavailable)),
    {
        match version {
            Err(IpcError::Unavailable) => false,
            _ => true,
        }
    }
}

/// Opening of every page script (an IIFE): collects the media elements of the
/// page and of reachable same-origin frames; `null` without any; `active` is
/// the first playing one (else the first).
pub const MEDIA_PRELUDE: &'static str = "(() => { const collect = (doc, out) => { for (const m of doc.querySelectorAll('video,audio')) out.push(m); for (const f of doc.querySelectorAll('iframe')) { try { if (f.contentDocument) collect(f.contentDocument, out); } catch (e) {} } return out; }; const media = collect(document, []); if (!media.length) return null; const active = media.find((m) => !m.paused) || media[0];";

/// Guard against rate resets (idempotent IIFE): proxies `playbackRate` in
/// every reachable realm so a site's own writes cannot reset the target rate
/// (writes right after a user gesture are adopted as the new target),
/// re-applies the target on `ratechange` and `loadstart`, and keeps it in
/// `localStorage` so a new document of the same page resumes it.
pub const GUARD_SOURCE: &'static str = r#"(() => {
  if (window.__omniGuard) return;
  const LS = '__omnispeed_client_rate__';
  const state = { target: null, max: 16, gestureAt: -Infinity };
  try { const saved = parseFloat(localStorage.getItem(LS)); if (Number.isFinite(saved)) state.target = saved; } catch (e) {}
  const clamp = (r) => Math.min(Math.max(r, 0.25), state.max);
  const gesture = () => Date.now() - state.gestureAt <= 500;
  const persist = () => { try { localStorage.setItem(LS, String(state.target)); } catch (e) {} };
  const realms = [];
  let internal = false;
  const rawWrite = (realm, el, rate) => { internal = true; try { realm.set.call(el, clamp(rate)); } catch (e) {} finally { internal = false; } };
  const installIn = (win) => { try {
    if (win.__omniGuardRealm) return;
    const proto = win.HTMLMediaElement.prototype;
    const desc = win.Object.getOwnPropertyDescriptor(proto, 'playbackRate');
    if (!desc || !desc.get || !desc.set || !desc.configurable) return;
    const realm = { win, get: desc.get, set: desc.set };
    win.__omniGuardRealm = realm;
    realms.push(realm);
    win.Object.defineProperty(proto, 'playbackRate', {
      configurable: true, enumerable: desc.enumerable,
      get() { return realm.get.call(this); },
      set(v) {
        if (internal) { try { realm.set.call(this, v); } catch (e) {} return; }
        if (gesture()) { state.target = clamp(Number(v)); persist(); try { realm.set.call(this, state.target); } catch (e) {} return; }
        if (state.target !== null) { try { if (realm.get.call(this) !== clamp(state.target)) realm.set.call(this, clamp(state.target)); } catch (e) {} return; }
        try { realm.set.call(this, clamp(Number(v))); } catch (e) {}
      }
    });
    const mark = () => { state.gestureAt = Date.now(); };
    win.addEventListener('pointerdown', mark, true);
    win.addEventListener('keydown', mark, true);
    win.addEventListener('ratechange', (e) => {
      const el = e.target;
      if (state.target === null || gesture() || !el || typeof el.playbackRate !== 'number') return;
      let actual; try { actual = realm.get.call(el); } catch (err) { return; }
      if (actual !== clamp(state.target)) rawWrite(realm, el, state.target);
    }, true);
    win.addEventListener('loadstart', (e) => {
      const el = e.target;
      if (state.target === null || !el || typeof el.playbackRate !== 'number') return;
      rawWrite(realm, el, state.target);
    }, true);
  } catch (e) {} };
  const scan = () => { installIn(window); try { for (const f of document.querySelectorAll('iframe')) { try { if (f.contentWindow && f.contentDocument) installIn(f.contentWindow); } catch (e) {} } } catch (e) {} };
  scan();
  window.__omniGuard = {
    set(rate) {
      scan();
      state.target = clamp(rate); persist();
      for (const realm of realms) { try { for (const m of realm.win.document.querySelectorAll('video,audio')) rawWrite(realm, m, state.target); } catch (e) {} }
      return state.target;
    },
    state
  };
})()"#;

/// A page script's value, as far as the channel reads it (numbers are rates
/// in thousandths).
#[derive(Debug, Clone, PartialEq)]
pub enum EvalValue {
    Null,
    Bool(bool),
    Number(u32),
    Other,
}

/// A DevTools reply frame, as far as matching it goes.
#[derive(Debug, PartialEq)]
pub struct CdpMessage {
    /// `id`, when it is an integer (events have none).
    pub id: Option<i64>,
    /// `error`, as JSON text, when present.
    pub error: Option<String>,
    /// `result.exceptionDetails`, as JSON text, when present.
    pub exception: Option<String>,
    /// `result.result.value`.
    pub value: EvalValue,
}

/// What reading one WebSocket frame gave.
#[derive(Debug)]
pub enum CdpFrame {
    /// A text frame, parsed, or why it is not JSON.
    Text(Result<CdpMessage, String>),
    /// The target closed the connection.
    Close,
    /// Any other frame (ping, pong, binary).
    Other,
    /// Reading failed, with the reason.
    ReadFailed(String),
}

/// What one frame decides while waiting for the reply to a call.
#[derive(Debug)]
pub enum CdpStep {
    /// Not the reply (an event or another frame): read on.
    Skip,
    /// The reply, or the failure that ends the call.
    Done(Result<CdpMessage, IpcError>),
}

/// The reply to call `id` a frame gives: other frames and events are
/// skipped; reading failures, a close, invalid JSON and an `error` field end
/// the call with `Protocol`.
pub open spec fn cdp_step_spec(frame: CdpFrame, id: i64) -> Result<Option<CdpMessage>, Seq<char>> {
    match frame {
        CdpFrame::ReadFailed(e) => Err("CDP 读取失败："@ + e@),
        CdpFrame::Close => Err("CDP 连接被目标关闭"@),
        CdpFrame::Other => Ok(None),
        CdpFrame::Text(Err(e)) => Err("CDP 应答不是 JSON："@ + e@),
        CdpFrame::Text(Ok(m)) => if m.id != Some(id) {
            Ok(None)
        } else {
            match m.error {
                Some(err) => Err("CDP 调用失败："@ + err@),
                None => Ok(Some(m)),
            }
        },
    }
}

/// One frame of a DevTools call (see [`cdp_step_spec`]).
pub fn cdp_reply_step(frame: CdpFrame, id: i64) -> (r: CdpStep)
    ensures
        match cdp_step_spec(frame, id) {
            Ok(None) => r is Skip,
            Ok(Some(m)) => r matches CdpStep::Done(Ok(x)) && x == m,
            Err(m) => r matches CdpStep::Done(Err(IpcError::Protocol(e))) && e@ == m,
        },
{
    match frame {
        CdpFrame::ReadFailed(e) => {
            let mut m = owned("CDP 读取失败：");
            m.append(e.as_str());
            CdpStep::Done(Err(IpcError::Protocol(m)))
        },
        CdpFrame::Close => CdpStep::Done(Err(IpcError::Protocol(owned("CDP 连接被目标关闭")))),
        CdpFrame::Other => CdpStep::Skip,
        CdpFrame::Text(Err(e)) => {
            let mut m = owned("CDP 应答不是 JSON：");
            m.append(e.as_str());
            CdpStep::Done(Err(IpcError::Protocol(m)))
        },
        CdpFrame::Text(Ok(msg)) => {
            let matches = match msg.id {
                Some(x) => x == id,
                None => false,
            };
            if !matches {
                return CdpStep::Skip;
            }
            match &msg.error {
                Some(err) => {
                    let mut m = owned("CDP 调用失败：");
                    m.append(err.as_str());
                    CdpStep::Done(Err(IpcError::Protocol(m)))
                },
                None => CdpStep::Done(Ok(msg)),
            }
        },
    }
}

/// The value of a `Runtime.evaluate` reply: a script exception is a
/// `Protocol` error quoting it.
pub fn eval_result(m: CdpMessage) -> (r: Result<EvalValue, IpcError>)
    ensures
        match m.exception {
            Some(ex) => r matches Err(IpcError::Protocol(e)) && e@ == "页面脚本异常:"@ + ex@,
            None => r == Ok::<EvalValue, IpcError>(m.value),
        },
{
    match m.exception {
        Some(ex) => {
            let mut e = owned("页面脚本异常:");
            e.append(ex.as_str());
            Err(IpcError::Protocol(e))
        },
        None => Ok(m.value),
    }
}

/// Script that sets a rate in every media element of a page (through the
/// guard when it installs) and returns the active element's real rate.
pub open spec fn set_rate_script(rate: u32) -> Seq<char> {
    GUARD_SOURCE@ + "; "@ + MEDIA_PRELUDE@
        + " if (window.__omniGuard) { try { window.__omniGuard.set("@ + rate_text(rate as nat)
        + "); } catch (e) {} } let applied = null; for (const m of media) { try { m.playbackRate = "@
        + rate_text(rate as nat)
        + "; applied = m.playbackRate; } catch (e) {} } return active.playbackRate ?? applied; })()"@
}

/// Script returning the active element's rate.
pub open spec fn get_rate_script() -> Seq<char> {
    MEDIA_PRELUDE@ + " return active.playbackRate; })()"@
}

/// Script toggling play / pause of the active element; returns `true`.
pub open spec fn play_pause_script() -> Seq<char> {
    MEDIA_PRELUDE@
        + " if (active.paused) { const p = active.play(); if (p && p.catch) p.catch(() => {}); } else { active.pause(); } return true; })()"@
}

/// The set-rate script (see [`set_rate_script`]).
pub fn set_rate_expression(rate: u32) -> (r: String)
    ensures
        r@ == set_rate_script(rate),
{
    let t = rate_to_text(rate);
    let mut e = owned(GUARD_SOURCE);
    e.append("; ");
    e.append(MEDIA_PRELUDE);
    e.append(" if (window.__omniGuard) { try { window.__omniGuard.set(");
    e.append(t.as_str());
    e.append("); } catch (e) {} } let applied = null; for (const m of media) { try { m.playbackRate = ");
    e.append(t.as_str());
    e.append("; applied = m.playbackRate; } catch (e) {} } return active.playbackRate ?? applied; })()");
    e
}

/// The read-rate script (see [`get_rate_script`]).
pub fn get_rate_expression() -> (r: String)
    ensures
        r@ == get_rate_script(),
{
    let mut e = owned(MEDIA_PRELUDE);
    e.append(" return active.playbackRate; })()");
    e
}

/// The play / pause script (see [`play_pause_script`]).
pub fn play_pause_expression() -> (r: String)
    ensures
        r@ == play_pause_script(),
{
    let mut e = owned(MEDIA_PRELUDE);
    e.append(
        " if (active.paused) { const p = active.play(); if (p && p.catch) p.catch(() => {}); } else { active.pause(); } return true; })()",
    );
    e
}

/// No page has media: the client is open but nothing plays.
pub open spec fn no_media_error() -> Seq<char> {
    "客户端页面里没有媒体元素"@
}

/// Outcome of setting a rate, from the page results in order: pages without
/// media (`null`) and failed pages are skipped; with no page left it is an
/// error; otherwise the first number read back (if any).
pub open spec fn set_rate_result(vs: Seq<Result<EvalValue, IpcError>>) -> Option<Option<u32>>
    decreases vs.len(),
{
    if vs.len() == 0 {
        None
    } else {
        let rest = set_rate_result(vs.drop_last());
        match vs.last() {
            Ok(EvalValue::Null) | Err(_) => rest,
            Ok(v) => Some(
                match rest {
                    Some(Some(x)) => Some(x),
                    _ => match v {
                        EvalValue::Number(x) => Some(x),
                        _ => None,
                    },
                },
            ),
        }
    }
}

/// The first number among page results.
pub open spec fn first_number(vs: Seq<Result<EvalValue, IpcError>>) -> Option<u32>
    decreases vs.len(),
{
    if vs.len() == 0 {
        None
    } else {
        match first_number(vs.drop_last()) {
            Some(x) => Some(x),
            None => match vs.last() {
                Ok(EvalValue::Number(x)) => Some(x),
                _ => None,
            },
        }
    }
}

/// Whether some page result is `true`.
pub open spec fn toggled(vs: Seq<Result<EvalValue, IpcError>>) -> bool {
    exists|i: int| 0 <= i < vs.len() && vs[i] == Ok::<EvalValue, IpcError>(EvalValue::Bool(true))
}

/// The results `eval` gave for the first pages, in order, each run with
/// `script`.
pub open spec fn observed<F: Fn(&String, &String) -> Result<EvalValue, IpcError>>(
    eval: F,
    targets: Seq<String>,
    script: String,
    vs: Seq<Result<EvalValue, IpcError>>,
) -> bool {
    vs.len() <= targets.len() && forall|i: int|
        0 <= i < vs.len() ==> call_ensures(eval, (&targets[i], &script), #[trigger] vs[i])
}

impl CdpClient {
    /// Sets a rate in every page (`eval` runs a script in one page; here the
    /// script of [`set_rate_script`] for `rate`): a failing
    /// page does not hold the others back. See [`set_rate_result`].
    pub fn set_rate<F: Fn(&String, &String) -> Result<EvalValue, IpcError>>(
        targets: &Vec<String>,
        rate: u32,
        eval: &F,
    ) -> (r: Result<Option<u32>, IpcError>)
        requires
            forall|t: &String, x: &String| call_requires(*eval, (t, x)),
        ensures
            exists|script: String, vs: Seq<Result<EvalValue, IpcError>>|
                #![trigger observed(*eval, targets@, script, vs)]
                script@ == set_rate_script(rate) && observed(*eval, targets@, script, vs) && vs.len()
                    == targets@.len() && match set_rate_result(vs) {
                    Some(x) => r == Ok::<Option<u32>, IpcError>(x),
                    None => r matches Err(IpcError::Protocol(m)) && m@ == no_media_error(),
                },
    {
        let script = set_rate_expression(rate);
        let ghost mut vs: Seq<Result<EvalValue, IpcError>> = Seq::empty();
        let mut any = false;
        let mut read_back: Option<u32> = None;
        let mut i: usize = 0;
        while i < targets.len()
            invariant
                i <= targets.len(),
                forall|t: &String, x: &String| call_requires(*eval, (t, x)),
                observed(*eval, targets@, script, vs),
                vs.len() == i,
                match set_rate_result(vs) {
                    Some(x) => any && read_back == x,
                    None => !any && read_back is None,
                },
            decreases targets.len() - i,
        {
            let v = eval(&targets[i], &script);
            proof {
                let ghost prev = vs;
                vs = vs.push(v);
                assert(vs.drop_last() =~= prev);
            }
            match v {
                Ok(EvalValue::Null) | Err(_) => {},
                Ok(x) => {
                    any = true;
                    if read_back.is_none() {
                        read_back = match x {
                            EvalValue::Number(n) => Some(n),
                            _ => None,
                        };
                    }
                },
            }
            i = i + 1;
        }
        if !any {
            return Err(IpcError::Protocol(owned("客户端页面里没有媒体元素")));
        }
        Ok(read_back)
    }

    /// Reads the rate of the first page whose script returns a number; pages
    /// after it are not asked.
    pub fn get_rate<F: Fn(&String, &String) -> Result<EvalValue, IpcError>>(targets: &Vec<String>, eval: &F) -> (r: Result<u32, IpcError>)
        requires
            forall|t: &String, x: &String| call_requires(*eval, (t, x)),
        ensures
            exists|script: String, vs: Seq<Result<EvalValue, IpcError>>|
                #![trigger observed(*eval, targets@, script, vs)]
                script@ == get_rate_script() && observed(*eval, targets@, script, vs) && match r {
                    Ok(x) => first_number(vs) == Some(x) && first_number(vs.drop_last()) is None,
                    Err(e) => vs.len() == targets@.len() && first_number(vs) is None && (e matches IpcError::Protocol(
                        m,
                    ) && m@ == no_media_error()),
                },
    {
        let script = get_rate_expression();
        let ghost mut vs: Seq<Result<EvalValue, IpcError>> = Seq::empty();
        let mut i: usize = 0;
        while i < targets.len()
            invariant
                i <= targets.len(),
                forall|t: &String, x: &String| call_requires(*eval, (t, x)),
                script@ == get_rate_script(),
                observed(*eval, targets@, script, vs),
                vs.len() == i,
                first_number(vs) is None,
            decreases targets.len() - i,
        {
            let v = eval(&targets[i], &script);
            let ghost prev = vs;
            proof {
                vs = vs.push(v);
                assert(vs.drop_last() =~= prev);
                assert(observed(*eval, targets@, script, vs));
            }
            match v {
                Ok(EvalValue::Number(n)) => {
                    assert(first_number(vs) == Some(n));
                    return Ok(n);
                },
                _ => {},
            }
            i = i + 1;
        }
        Err(IpcError::Protocol(owned("客户端页面里没有媒体元素")))
    }

    /// Toggles play / pause in the first page whose script reports doing it;
    /// pages after it are not touched.
    pub fn play_pause<F: Fn(&String, &String) -> Result<EvalValue, IpcError>>(targets: &Vec<String>, eval: &F) -> (r: Result<(), IpcError>)
        requires
            forall|t: &String, x: &String| call_requires(*eval, (t, x)),
        ensures
            exists|script: String, vs: Seq<Result<EvalValue, IpcError>>|
                #![trigger observed(*eval, targets@, script, vs)]
                script@ == play_pause_script() && observed(*eval, targets@, script, vs) && match r {
                    Ok(_) => vs.len() > 0 && vs.last() == Ok::<EvalValue, IpcError>(EvalValue::Bool(true))
                        && !toggled(vs.drop_last()),
                    Err(e) => vs.len() == targets@.len() && !toggled(vs) && (e matches IpcError::Protocol(m)
                        && m@ == no_media_error()),
                },
    {
        let script = play_pause_expression();
        let ghost mut vs: Seq<Result<EvalValue, IpcError>> = Seq::empty();
        let mut i: usize = 0;
        while i < targets.len()
            invariant
                i <= targets.len(),
                forall|t: &String, x: &String| call_requires(*eval, (t, x)),
                script@ == play_pause_script(),
                observed(*eval, targets@, script, vs),
                vs.len() == i,
                !toggled(vs),
            decreases targets.len() - i,
        {
            let v = eval(&targets[i], &script);
            let ghost prev = vs;
            proof {
                vs = vs.push(v);
                assert(vs.drop_last() =~= prev);
            }
            proof {
                assert(observed(*eval, targets@, script, vs));
            }
            match v {
                Ok(EvalValue::Bool(true)) => {
                    assert(vs.last() == Ok::<EvalValue, IpcError>(EvalValue::Bool(true)));
                    return Ok(());
                },
                _ => {},
            }
            assert(!toggled(vs)) by {
                assert forall|k: int| 0 <= k < vs.len() implies vs[k] != Ok::<EvalValue, IpcError>(
                    EvalValue::Bool(true),
                ) by {
                    if k < prev.len() {
                        assert(vs[k] == prev[k]);
                    }
                }
            }
            i = i + 1;
        }
        assert(observed(*eval, targets@, script, vs) && !toggled(vs));
        assert(vs.len() == targets@.len());
        let r: Result<(), IpcError> = Err(IpcError::Protocol(owned("客户端页面里没有媒体元素")));
        assert(r matches Err(IpcError::Protocol(m)) && m@ == no_media_error());
        r
    }
}

/// Commands sent to mpv.
#[derive(Debug, Clone, Copy, PartialEq, Eq, Structural)]
pub enum MpvCommand {
    /// `set_property speed` (rate in thousandths).
    SetSpeed(u32),
    /// `get_property speed`.
    GetSpeed,
    /// `cycle pause`.
    CyclePause,
}

/// The JSON array of a command.
pub open spec fn command_json(c: MpvCommand) -> Seq<char> {
    match c {
        MpvCommand::SetSpeed(r) => "[\"set_property\",\"speed\","@ + crate::text::float_text(r as nat) + "]"@,
        MpvCommand::GetSpeed => "[\"get_property\",\"speed\"]"@,
        MpvCommand::CyclePause => "[\"cycle\",\"pause\"]"@,
    }
}

/// One request line (mpv frames by line).
pub open spec fn request_line(c: MpvCommand, request_id: u64) -> Seq<char> {
    "{\"command\":"@ + command_json(c) + ",\"request_id\":"@ + dec_text(request_id as nat) + "}\n"@
}

/// The request line of a command: `{"command":[…],"request_id":N}` and a
/// line feed, fields in this order, floats with a fraction (`5.0`).
pub fn encode_request(command: MpvCommand, request_id: u64) -> (r: String)
    ensures
        r@ == request_line(command, request_id),
{
    let mut line = owned("{\"command\":");
    match command {
        MpvCommand::SetSpeed(rate) => {
            line.append("[\"set_property\",\"speed\",");
            let t = crate::text::rate_to_float_text(rate);
            line.append(t.as_str());
            line.append("]");
        },
        MpvCommand::GetSpeed => {
            line.append("[\"get_property\",\"speed\"]");
        },
        MpvCommand::CyclePause => {
            line.append("[\"cycle\",\"pause\"]");
        },
    }
    line.append(",\"request_id\":");
    let id = decimal_text(request_id);
    line.append(id.as_str());
    line.append("}\n");
    line
}

/// The `data` of a reply.
#[derive(Debug, Clone, PartialEq)]
pub enum MpvData {
    /// Absent or `null`.
    Null,
    /// A number (a rate, in thousandths).
    Number(u32),
    /// Anything else, as JSON text.
    Other(String),
}

/// A reply line of mpv, as far as matching it goes.
#[derive(Debug, Clone, PartialEq)]
pub struct MpvReply {
    /// The line is an event broadcast (`"event"` present).
    pub has_event: bool,
    /// `request_id`, when it is an unsigned integer.
    pub request_id: Option<u64>,
    /// `error`, when it is a string (`"success"` on success).
    pub error: Option<String>,
    pub data: MpvData,
}

/// What one line of the reply stream decides.
#[derive(Debug)]
pub enum ReplyStep {
    /// Not our reply (blank, event, another request's, no `error`): read on.
    Skip,
    /// Our reply (or a failure that ends the exchange).
    Done(Result<MpvData, IpcError>),
}

/// Lines read before giving up on a reply (events may interleave; a named
/// pipe has no read time-out).
pub const MAX_REPLY_LINES: usize = 64;

/// What a reply line decides (`line`: the text read or why reading failed;
/// `parsed`: the line as JSON, or why it is not).
pub open spec fn reply_step_spec(
    line: Result<Seq<char>, Seq<char>>,
    parsed: Result<MpvReply, Seq<char>>,
    request_id: u64,
) -> Result<Option<MpvData>, Seq<char>> {
    match line {
        Err(e) => Err("读取 mpv 应答失败："@ + e),
        Ok(t) => if trimmed(t).len() == 0 {
            Ok(None)
        } else {
            match parsed {
                Err(e) => Err("mpv 应答不是合法 JSON："@ + e),
                Ok(rep) => if rep.has_event {
                    Ok(None)
                } else if rep.request_id matches Some(id) && id != request_id {
                    Ok(None)
                } else {
                    match rep.error {
                        None => Ok(None),
                        Some(err) => if err@ == "success"@ {
                            Ok(Some(rep.data))
                        } else {
                            Err("mpv 返回错误："@ + err@)
                        },
                    }
                },
            }
        },
    }
}

pub open spec fn text_result(r: Result<String, String>) -> Result<Seq<char>, Seq<char>> {
    match r {
        Ok(t) => Ok(t@),
        Err(e) => Err(e@),
    }
}

pub open spec fn reply_result(r: Result<MpvReply, String>) -> Result<MpvReply, Seq<char>> {
    match r {
        Ok(t) => Ok(t),
        Err(e) => Err(e@),
    }
}

/// One line of the reply stream (see [`reply_step_spec`]): events and other
/// requests' replies are skipped; `"error": "success"` returns `data`; any
/// other error text, unreadable or invalid lines end it with `Protocol`.
pub fn reply_step(line: &Result<String, String>, parsed: &Result<MpvReply, String>, request_id: u64) -> (r: ReplyStep)
    ensures
        match reply_step_spec(text_result(*line), reply_result(*parsed), request_id) {
            Ok(None) => r is Skip,
            Ok(Some(d)) => r matches ReplyStep::Done(Ok(x)) && x == d,
            Err(m) => r matches ReplyStep::Done(Err(IpcError::Protocol(e))) && e@ == m,
        },
{
    let text = match line {
        Err(e) => {
            let mut m = owned("读取 mpv 应答失败：");
            m.append(e.as_str());
            return ReplyStep::Done(Err(IpcError::Protocol(m)));
        },
        Ok(t) => t,
    };
    if trim(text.as_str()).as_str().is_empty() {
        return ReplyStep::Skip;
    }
    let rep = match parsed {
        Err(e) => {
            let mut m = owned("mpv 应答不是合法 JSON：");
            m.append(e.as_str());
            return ReplyStep::Done(Err(IpcError::Protocol(m)));
        },
        Ok(r) => r,
    };
    if rep.has_event {
        return ReplyStep::Skip;
    }
    match rep.request_id {
        Some(id) => {
            if id != request_id {
                return ReplyStep::Skip;
            }
        },
        None => {},
    }
    match &rep.error {
        None => ReplyStep::Skip,
        Some(err) => {
            if crate::text::str_eq(err.as_str(), "success") {
                ReplyStep::Done(Ok(rep.data.clone_data()))
            } else {
                let mut m = owned("mpv 返回错误：");
                m.append(err.as_str());
                ReplyStep::Done(Err(IpcError::Protocol(m)))
            }
        },
    }
}

impl MpvData {
    pub fn clone_data(&self) -> (r: Self)
        ensures
            r == *self,
    {
        match self {
            MpvData::Null => MpvData::Null,
            MpvData::Number(x) => MpvData::Number(*x),
            MpvData::Other(t) => MpvData::Other(t.clone()),
        }
    }
}

/// Error when no reply came within [`MAX_REPLY_LINES`] lines (or the stream
/// ended).
pub fn no_reply_error() -> (r: IpcError)
    ensures
        r matches IpcError::Protocol(m) && m@ == "未在应答流中读到匹配的 mpv 应答"@,
{
    IpcError::Protocol(owned("未在应答流中读到匹配的 mpv 应答"))
}

/// A reply line as read (`line`) and as parsed (`parsed`).
pub type ReplyLine = (Result<String, String>, Result<MpvReply, String>);

pub open spec fn reply_line_view(l: ReplyLine) -> (Result<Seq<char>, Seq<char>>, Result<MpvReply, Seq<char>>) {
    (text_result(l.0), reply_result(l.1))
}

/// The error of a reply stream that ended, or ran past the line cap, without
/// a matching reply.
pub open spec fn no_reply_text() -> Seq<char> {
    "未在应答流中读到匹配的 mpv 应答"@
}

/// What the stream decides after `read` lines were skipped, with `next` the
/// following line (`None` once the stream ended): past the cap, or at the
/// end, no reply came; otherwise the line decides (see [`reply_step_spec`]).
pub open spec fn stream_step_spec(
    read: int,
    next: Option<(Result<Seq<char>, Seq<char>>, Result<MpvReply, Seq<char>>)>,
    request_id: u64,
) -> Result<Option<MpvData>, Seq<char>> {
    if read >= MAX_REPLY_LINES {
        Err(no_reply_text())
    } else {
        match next {
            None => Err(no_reply_text()),
            Some(l) => reply_step_spec(l.0, l.1, request_id),
        }
    }
}

/// The reply a whole stream gives from line `i` on: the first line (within
/// the cap) that is not skipped decides.
pub open spec fn take_reply_spec(
    lines: Seq<(Result<Seq<char>, Seq<char>>, Result<MpvReply, Seq<char>>)>,
    request_id: u64,
    i: int,
) -> Result<MpvData, Seq<char>>
    decreases MAX_REPLY_LINES - i,
{
    if i < 0 {
        Err(no_reply_text())
    } else {
        match stream_step_spec(i, if i < lines.len() { Some(lines[i]) } else { None }, request_id) {
            Ok(None) => take_reply_spec(lines, request_id, i + 1),
            Ok(Some(d)) => Ok(d),
            Err(m) => Err(m),
        }
    }
}

/// One step of reading the reply stream (see [`stream_step_spec`]); the
/// caller reads the next line only while this says `Skip`.
pub fn stream_step(read: usize, next: Option<&ReplyLine>, request_id: u64) -> (r: ReplyStep)
    ensures
        match stream_step_spec(
            read as int,
            match next {
                Some(l) => Some(reply_line_view(*l)),
                None => None,
            },
            request_id,
        ) {
            Ok(None) => r is Skip,
            Ok(Some(d)) => r matches ReplyStep::Done(Ok(x)) && x == d,
            Err(m) => r matches ReplyStep::Done(Err(IpcError::Protocol(e))) && e@ == m,
        },
{
    if read >= MAX_REPLY_LINES {
        return ReplyStep::Done(Err(no_reply_error()));
    }
    match next {
        None => ReplyStep::Done(Err(no_reply_error())),
        Some(l) => reply_step(&l.0, &l.1, request_id),
    }
}

/// The reply to request `request_id` in a stream of lines (see
/// [`take_reply_spec`]); mpv interleaves event lines with replies.
pub fn take_reply(lines: &Vec<ReplyLine>, request_id: u64) -> (r: Result<MpvData, IpcError>)
    ensures
        match take_reply_spec(lines@.map_values(|l: ReplyLine| reply_line_view(l)), request_id, 0) {
            Ok(d) => r matches Ok(x) && x == d,
            Err(m) => r matches Err(IpcError::Protocol(e)) && e@ == m,
        },
{
    let ghost lv = lines@.map_values(|l: ReplyLine| reply_line_view(l));
    let mut i: usize = 0;
    loop
        invariant
            i <= MAX_REPLY_LINES,
            lv == lines@.map_values(|l: ReplyLine| reply_line_view(l)),
            take_reply_spec(lv, request_id, 0) == take_reply_spec(lv, request_id, i as int),
        decreases MAX_REPLY_LINES - i,
    {
        let next = if i < lines.len() {
            Some(&lines[i])
        } else {
            None
        };
        proof {
            if i < lines.len() {
                assert(lv[i as int] == reply_line_view(lines@[i as int]));
            }
        }
        match stream_step(i, next, request_id) {
            ReplyStep::Skip => {
                i = i + 1;
            },
            ReplyStep::Done(r) => {
                return r;
            },
        }
    }
}

/// The speed read back: a number, else `Protocol` quoting the data.
pub fn speed_of(data: &MpvData) -> (r: Result<u32, IpcError>)
    ensures
        match *data {
            MpvData::Number(x) => r matches Ok(v) && v == x,
            MpvData::Null => r matches Err(IpcError::Protocol(m)) && m@ == "speed 属性不是数字：null"@,
            MpvData::Other(t) => r matches Err(IpcError::Protocol(m)) && m@ == "speed 属性不是数字："@ + t@,
        },
{
    match data {
        MpvData::Number(x) => Ok(*x),
        MpvData::Null => Err(IpcError::Protocol(owned("speed 属性不是数字：null"))),
        MpvData::Other(t) => {
            let mut m = owned("speed 属性不是数字：");
            m.append(t.as_str());
            Err(IpcError::Protocol(m))
        },
    }
}

} // verus!
