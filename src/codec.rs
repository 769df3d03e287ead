//! The text form in which the settings are persisted: a JSON object with
//! the window position and the four toggles, in this order.
//!
//! Whitespace may stand between any two tokens. A text that does not have
//! this form decodes to nothing, and loading it falls back to the defaults.
use vstd::prelude::*;
use vstd::string::*;
use crate::config::{default_config, AppConfig, WindowPosition};

verus! {

pub open spec fn is_ws(c: char) -> bool {
    c == ' ' || c == '\t' || c == '\n' || c == '\r'
}

pub open spec fn is_digit(c: char) -> bool {
    '0' <= c && c <= '9'
}

pub open spec fn digit_value(c: char) -> nat {
    (c as u32 - '0' as u32) as nat
}

pub open spec fn digit_char(d: nat) -> char {
    if d == 0 { '0' }
    else if d == 1 { '1' }
    else if d == 2 { '2' }
    else if d == 3 { '3' }
    else if d == 4 { '4' }
    else if d == 5 { '5' }
    else if d == 6 { '6' }
    else if d == 7 { '7' }
    else if d == 8 { '8' }
    else { '9' }
}

/// The text without its leading whitespace.
pub open spec fn skip_ws(s: Seq<char>) -> Seq<char>
    decreases s.len(),
{
    if s.len() > 0 && is_ws(s[0]) {
        skip_ws(s.drop_first())
    } else {
        s
    }
}

/// After optional whitespace, the token `t`; yields what follows it.
pub open spec fn take_token(s: Seq<char>, t: Seq<char>) -> Option<Seq<char>> {
    let u = skip_ws(s);
    if t.len() <= u.len() && u.subrange(0, t.len() as int) == t {
        Some(u.subrange(t.len() as int, u.len() as int))
    } else {
        None
    }
}

/// The number of leading decimal digits.
pub open spec fn digit_run(s: Seq<char>) -> nat
    decreases s.len(),
{
    if s.len() > 0 && is_digit(s[0]) {
        1 + digit_run(s.drop_first())
    } else {
        0
    }
}

/// The value of a sequence of decimal digits.
pub open spec fn digits_value(ds: Seq<char>) -> nat
    decreases ds.len(),
{
    if ds.len() == 0 {
        0
    } else {
        digits_value(ds.drop_last()) * 10 + digit_value(ds.last())
    }
}

/// After optional whitespace, an optional minus sign and at least one digit.
pub open spec fn take_int(s: Seq<char>) -> Option<(int, Seq<char>)> {
    let u = skip_ws(s);
    let neg = u.len() > 0 && u[0] == '-';
    let body = if neg { u.drop_first() } else { u };
    let n = digit_run(body);
    if n == 0 {
        None
    } else {
        let v = digits_value(body.subrange(0, n as int));
        Some((if neg { -v } else { v as int }, body.subrange(n as int, body.len() as int)))
    }
}

pub open spec fn take_i32(s: Seq<char>) -> Option<(i32, Seq<char>)> {
    match take_int(s) {
        Some((v, r)) => if i32::MIN <= v && v <= i32::MAX {
            Some((v as i32, r))
        } else {
            None
        },
        None => None,
    }
}

pub open spec fn take_bool(s: Seq<char>) -> Option<(bool, Seq<char>)> {
    match take_token(s, "true"@) {
        Some(r) => Some((true, r)),
        None => match take_token(s, "false"@) {
            Some(r) => Some((false, r)),
            None => None,
        },
    }
}

/// A key token (quoted name and colon) followed by an integer.
pub open spec fn take_i32_field(s: Seq<char>, key: Seq<char>) -> Option<(i32, Seq<char>)> {
    match take_token(s, key) {
        Some(r) => take_i32(r),
        None => None,
    }
}

/// A comma, a key token, then a boolean.
pub open spec fn take_bool_field(s: Seq<char>, key: Seq<char>) -> Option<(bool, Seq<char>)> {
    match take_token(s, ","@) {
        Some(r) => match take_token(r, key) {
            Some(r2) => take_bool(r2),
            None => None,
        },
        None => None,
    }
}

pub open spec fn take_position(s: Seq<char>) -> Option<(WindowPosition, Seq<char>)> {
    match take_token(s, "{"@) {
        None => None,
        Some(r0) => match take_i32_field(r0, "\"x\":"@) {
            None => None,
            Some((x, r1)) => match take_token(r1, ","@) {
                None => None,
                Some(r2) => match take_i32_field(r2, "\"y\":"@) {
                    None => None,
                    Some((y, r3)) => match take_token(r3, "}"@) {
                        None => None,
                        Some(r4) => Some((WindowPosition { x, y }, r4)),
                    },
                },
            },
        },
    }
}

/// The four toggles, each after a comma, then the closing brace and
/// nothing but whitespace.
pub open spec fn take_toggles(s: Seq<char>, p: WindowPosition) -> Option<AppConfig> {
    match take_bool_field(s, "\"mouse_through\":"@) {
        None => None,
        Some((mt, r1)) => match take_bool_field(r1, "\"auto_accept\":"@) {
            None => None,
            Some((aa, r2)) => match take_bool_field(r2, "\"auto_hide\":"@) {
                None => None,
                Some((ah, r3)) => match take_bool_field(r3, "\"window_visible\":"@) {
                    None => None,
                    Some((wv, r4)) => match take_token(r4, "}"@) {
                        None => None,
                        Some(r5) => if skip_ws(r5).len() == 0 {
                            Some(
                                AppConfig {
                                    window_position: p,
                                    mouse_through: mt,
                                    auto_accept: aa,
                                    auto_hide: ah,
                                    window_visible: wv,
                                },
                            )
                        } else {
                            None
                        },
                    },
                },
            },
        },
    }
}

/// The settings that a persisted text holds, if it has the expected form.
pub open spec fn decode_spec(s: Seq<char>) -> Option<AppConfig> {
    match take_token(s, "{"@) {
        None => None,
        Some(r0) => match take_token(r0, "\"window_position\":"@) {
            None => None,
            Some(r1) => match take_position(r1) {
                None => None,
                Some((p, r2)) => take_toggles(r2, p),
            },
        },
    }
}

/// Decimal digits of `n`, without leading zeros.
pub open spec fn nat_text(n: nat) -> Seq<char>
    decreases n,
{
    if n < 10 {
        seq![digit_char(n)]
    } else {
        nat_text(n / 10) + seq![digit_char(n % 10)]
    }
}

pub open spec fn int_text(v: int) -> Seq<char> {
    if v < 0 {
        "-"@ + nat_text((-v) as nat)
    } else {
        nat_text(v as nat)
    }
}

pub open spec fn bool_text(b: bool) -> Seq<char> {
    if b {
        "true"@
    } else {
        "false"@
    }
}

/// The window position followed by `rest`.
pub open spec fn position_text(p: WindowPosition, rest: Seq<char>) -> Seq<char> {
    "{"@ + ("\"x\":"@ + (int_text(p.x as int) + (","@ + ("\"y\":"@ + (int_text(p.y as int) + (
    "}"@ + rest))))))
}

/// A comma, a key and a boolean, followed by `rest`.
pub open spec fn bool_field_text(key: Seq<char>, b: bool, rest: Seq<char>) -> Seq<char> {
    ","@ + (key + (bool_text(b) + rest))
}

/// The persisted text of the settings `c`.
pub open spec fn config_text(c: AppConfig) -> Seq<char> {
    "{"@ + ("\"window_position\":"@ + position_text(
        c.window_position,
        bool_field_text(
            "\"mouse_through\":"@,
            c.mouse_through,
            bool_field_text(
                "\"auto_accept\":"@,
                c.auto_accept,
                bool_field_text(
                    "\"auto_hide\":"@,
                    c.auto_hide,
                    bool_field_text("\"window_visible\":"@, c.window_visible, "}"@),
                ),
            ),
        ),
    ))
}

proof fn lemma_token_first(t: Seq<char>, rest: Seq<char>)
    requires
        t.len() > 0,
        !is_ws(t[0]),
    ensures
        take_token(t + rest, t) == Some(rest),
{
    let s = t + rest;
    assert(s[0] == t[0]);
    assert(skip_ws(s) == s);
    assert(s.subrange(0, t.len() as int) =~= t);
    assert(s.subrange(t.len() as int, s.len() as int) =~= rest);
}

proof fn lemma_digit_char(d: nat)
    requires
        d < 10,
    ensures
        is_digit(digit_char(d)),
        digit_value(digit_char(d)) == d,
        !is_ws(digit_char(d)),
        digit_char(d) != '-',
{
}

proof fn lemma_nat_text(n: nat)
    ensures
        nat_text(n).len() > 0,
        forall|i: int| 0 <= i < nat_text(n).len() ==> is_digit(#[trigger] nat_text(n)[i]),
        digits_value(nat_text(n)) == n,
    decreases n,
{
    if n < 10 {
        lemma_digit_char(n);
        assert(nat_text(n).drop_last() =~= Seq::<char>::empty());
        assert(digits_value(Seq::<char>::empty()) == 0);
        assert(digits_value(nat_text(n)) == digits_value(nat_text(n).drop_last()) * 10 + digit_value(
            nat_text(n).last(),
        ));
    } else {
        lemma_nat_text(n / 10);
        lemma_digit_char(n % 10);
        let t = nat_text(n);
        assert(t.drop_last() =~= nat_text(n / 10));
        assert(t.last() == digit_char(n % 10));
        assert(digits_value(t) == digits_value(t.drop_last()) * 10 + digit_value(t.last()));
        assert((n / 10) * 10 + n % 10 == n);
        assert forall|i: int| 0 <= i < t.len() implies is_digit(#[trigger] t[i]) by {
            if i < nat_text(n / 10).len() {
                assert(t[i] == nat_text(n / 10)[i]);
            }
        }
    }
}

proof fn lemma_digit_run(ds: Seq<char>, rest: Seq<char>)
    requires
        forall|i: int| 0 <= i < ds.len() ==> is_digit(#[trigger] ds[i]),
        rest.len() == 0 || !is_digit(rest[0]),
    ensures
        digit_run(ds + rest) == ds.len(),
    decreases ds.len(),
{
    if ds.len() == 0 {
        assert(ds + rest =~= rest);
    } else {
        let s = ds + rest;
        assert(s[0] == ds[0]);
        assert(s.drop_first() =~= ds.drop_first() + rest);
        lemma_digit_run(ds.drop_first(), rest);
    }
}

proof fn lemma_nat_round_trip(n: nat, rest: Seq<char>)
    requires
        rest.len() == 0 || !is_digit(rest[0]),
    ensures
        nat_text(n).len() > 0,
        !is_ws(nat_text(n)[0]),
        nat_text(n)[0] != '-',
        digit_run(nat_text(n) + rest) == nat_text(n).len(),
        (nat_text(n) + rest).subrange(0, nat_text(n).len() as int) == nat_text(n),
        (nat_text(n) + rest).subrange(nat_text(n).len() as int, (nat_text(n) + rest).len() as int)
            == rest,
{
    lemma_nat_text(n);
    let t = nat_text(n);
    assert(is_digit(t[0]));
    lemma_digit_run(t, rest);
    assert((t + rest).subrange(0, t.len() as int) =~= t);
    assert((t + rest).subrange(t.len() as int, (t + rest).len() as int) =~= rest);
}

proof fn lemma_int_round_trip(v: i32, rest: Seq<char>)
    requires
        rest.len() == 0 || !is_digit(rest[0]),
    ensures
        take_i32(int_text(v as int) + rest) == Some((v, rest)),
{
    reveal_strlit("-");
    let s = int_text(v as int) + rest;
    if v < 0 {
        let m = (-(v as int)) as nat;
        let t = nat_text(m);
        lemma_nat_round_trip(m, rest);
        lemma_nat_text(m);
        assert(s =~= seq!['-'] + (t + rest));
        assert(s[0] == '-');
        assert(skip_ws(s) == s);
        assert(s.drop_first() =~= t + rest);
    } else {
        let t = nat_text(v as nat);
        lemma_nat_round_trip(v as nat, rest);
        lemma_nat_text(v as nat);
        assert(s[0] == t[0]);
        assert(skip_ws(s) == s);
    }
}

proof fn lemma_bool_round_trip(b: bool, rest: Seq<char>)
    ensures
        take_bool(bool_text(b) + rest) == Some((b, rest)),
{
    reveal_strlit("true");
    reveal_strlit("false");
    lemma_token_first(bool_text(b), rest);
    if !b {
        let s = bool_text(b) + rest;
        assert(skip_ws(s) == s);
        assert(s.subrange(0, 4)[0] == 'f');
        assert(s.subrange(0, 4) != "true"@);
    }
}

proof fn lemma_bool_field_round_trip(key: Seq<char>, b: bool, rest: Seq<char>)
    requires
        key.len() > 0,
        key[0] == '"',
    ensures
        take_bool_field(bool_field_text(key, b, rest), key) == Some((b, rest)),
{
    reveal_strlit(",");
    lemma_token_first(","@, key + (bool_text(b) + rest));
    lemma_token_first(key, bool_text(b) + rest);
    lemma_bool_round_trip(b, rest);
}

proof fn lemma_position_round_trip(p: WindowPosition, rest: Seq<char>)
    requires
        rest.len() > 0,
        rest[0] == ',',
    ensures
        take_position(position_text(p, rest)) == Some((p, rest)),
{
    reveal_strlit("{");
    reveal_strlit("}");
    reveal_strlit(",");
    reveal_strlit("\"x\":");
    reveal_strlit("\"y\":");
    let r5 = "}"@ + rest;
    let r4 = int_text(p.y as int) + r5;
    let r3 = "\"y\":"@ + r4;
    let r2 = ","@ + r3;
    let r1 = int_text(p.x as int) + r2;
    let r0 = "\"x\":"@ + r1;
    lemma_token_first("{"@, r0);
    lemma_token_first("\"x\":"@, r1);
    lemma_int_round_trip(p.x, r2);
    lemma_token_first(","@, r3);
    lemma_token_first("\"y\":"@, r4);
    lemma_int_round_trip(p.y, r5);
    lemma_token_first("}"@, rest);
}

/// Settings written out and read back are the settings written: the window
/// position and every toggle come back unchanged.
pub proof fn lemma_config_round_trip(c: AppConfig)
    ensures
        decode_spec(config_text(c)) == Some(c),
{
    reveal_strlit("{");
    reveal_strlit("}");
    reveal_strlit(",");
    reveal_strlit("\"window_position\":");
    reveal_strlit("\"mouse_through\":");
    reveal_strlit("\"auto_accept\":");
    reveal_strlit("\"auto_hide\":");
    reveal_strlit("\"window_visible\":");
    let t4 = bool_field_text("\"window_visible\":"@, c.window_visible, "}"@);
    let t3 = bool_field_text("\"auto_hide\":"@, c.auto_hide, t4);
    let t2 = bool_field_text("\"auto_accept\":"@, c.auto_accept, t3);
    let t1 = bool_field_text("\"mouse_through\":"@, c.mouse_through, t2);
    let body = "\"window_position\":"@ + position_text(c.window_position, t1);
    lemma_token_first("{"@, body);
    lemma_token_first("\"window_position\":"@, position_text(c.window_position, t1));
    lemma_position_round_trip(c.window_position, t1);
    lemma_bool_field_round_trip("\"mouse_through\":"@, c.mouse_through, t2);
    lemma_bool_field_round_trip("\"auto_accept\":"@, c.auto_accept, t3);
    lemma_bool_field_round_trip("\"auto_hide\":"@, c.auto_hide, t4);
    lemma_bool_field_round_trip("\"window_visible\":"@, c.window_visible, "}"@);
    lemma_token_first("}"@, Seq::<char>::empty());
    assert("}"@ + Seq::<char>::empty() =~= "}"@);
    assert(skip_ws(Seq::<char>::empty()).len() == 0);
}

fn digit_str(d: u64) -> (r: &'static str)
    requires
        d < 10,
    ensures
        r@ == seq![digit_char(d as nat)],
{
    proof {
        reveal_strlit("0");
        reveal_strlit("1");
        reveal_strlit("2");
        reveal_strlit("3");
        reveal_strlit("4");
        reveal_strlit("5");
        reveal_strlit("6");
        reveal_strlit("7");
        reveal_strlit("8");
        reveal_strlit("9");
    }
    let r = if d == 0 { "0" }
    else if d == 1 { "1" }
    else if d == 2 { "2" }
    else if d == 3 { "3" }
    else if d == 4 { "4" }
    else if d == 5 { "5" }
    else if d == 6 { "6" }
    else if d == 7 { "7" }
    else if d == 8 { "8" }
    else { "9" };
    assert(r@ =~= seq![digit_char(d as nat)]);
    r
}

fn nat_string(n: u64) -> (r: String)
    ensures
        r@ == nat_text(n as nat),
    decreases n,
{
    let last = digit_str(n % 10);
    if n < 10 {
        String::from_str(last)
    } else {
        let mut r = nat_string(n / 10);
        r.append(last);
        r
    }
}

fn int_string(v: i32) -> (r: String)
    ensures
        r@ == int_text(v as int),
{
    if v < 0 {
        let m: u64 = (0i64 - v as i64) as u64;
        let digits = nat_string(m);
        String::from_str("-").concat(digits.as_str())
    } else {
        nat_string(v as u64)
    }
}

fn prepend(piece: &str, rest: String) -> (r: String)
    ensures
        r@ == piece@ + rest@,
{
    String::from_str(piece).concat(rest.as_str())
}

fn prepend_bool_field(key: &str, b: bool, rest: String) -> (r: String)
    ensures
        r@ == bool_field_text(key@, b, rest@),
{
    let value = if b { "true" } else { "false" };
    prepend(",", prepend(key, prepend(value, rest)))
}

fn prepend_position(p: WindowPosition, rest: String) -> (r: String)
    ensures
        r@ == position_text(p, rest@),
{
    let tail = prepend("}", rest);
    let tail = int_string(p.y).concat(tail.as_str());
    let tail = prepend("\"y\":", tail);
    let tail = prepend(",", tail);
    let tail = int_string(p.x).concat(tail.as_str());
    let tail = prepend("\"x\":", tail);
    prepend("{", tail)
}

/// The persisted text of the settings.
pub fn encode_config(c: &AppConfig) -> (r: String)
    ensures
        r@ == config_text(*c),
{
    let acc = String::from_str("}");
    let acc = prepend_bool_field("\"window_visible\":", c.window_visible, acc);
    let acc = prepend_bool_field("\"auto_hide\":", c.auto_hide, acc);
    let acc = prepend_bool_field("\"auto_accept\":", c.auto_accept, acc);
    let acc = prepend_bool_field("\"mouse_through\":", c.mouse_through, acc);
    let acc = prepend_position(c.window_position, acc);
    let acc = prepend("\"window_position\":", acc);
    prepend("{", acc)
}

pub open spec fn rest_of(s: Seq<char>, i: int) -> Seq<char> {
    s.subrange(i, s.len() as int)
}

spec fn at_matches(o: Option<usize>, expected: Option<Seq<char>>, s: Seq<char>, i: int) -> bool {
    match expected {
        Some(r) => o is Some && i <= o->0 <= s.len() && r == rest_of(s, o->0 as int),
        None => o is None,
    }
}

spec fn value_matches<T>(o: Option<(T, usize)>, expected: Option<(T, Seq<char>)>, s: Seq<char>, i: int) -> bool {
    match expected {
        Some((v, r)) => match o {
            Some((w, j)) => w == v && i <= j <= s.len() && r == rest_of(s, j as int),
            None => false,
        },
        None => o is None,
    }
}

fn is_ws_char(c: char) -> (r: bool)
    ensures
        r == is_ws(c),
{
    c == ' ' || c == '\t' || c == '\n' || c == '\r'
}

fn is_digit_char(c: char) -> (r: bool)
    ensures
        r == is_digit(c),
{
    '0' <= c && c <= '9'
}

fn skip_ws_at(s: &str, n: usize, i: usize) -> (j: usize)
    requires
        n == s@.len(),
        i <= n,
    ensures
        i <= j <= n,
        skip_ws(rest_of(s@, i as int)) == rest_of(s@, j as int),
{
    let mut j = i;
    while j < n && is_ws_char(s.get_char(j))
        invariant
            n == s@.len(),
            i <= j <= n,
            skip_ws(rest_of(s@, i as int)) == skip_ws(rest_of(s@, j as int)),
        decreases n - j,
    {
        assert(rest_of(s@, j as int).drop_first() =~= rest_of(s@, j + 1));
        j = j + 1;
    }
    if j < n {
        assert(rest_of(s@, j as int)[0] == s@[j as int]);
    }
    j
}

fn take_token_at(s: &str, n: usize, i: usize, t: &str) -> (o: Option<usize>)
    requires
        n == s@.len(),
        i <= n,
    ensures
        at_matches(o, take_token(rest_of(s@, i as int), t@), s@, i as int),
{
    let j = skip_ws_at(s, n, i);
    let m = t.unicode_len();
    let ghost u = rest_of(s@, j as int);
    if m > n - j {
        return None;
    }
    let mut k: usize = 0;
    while k < m
        invariant
            n == s@.len(),
            m == t@.len(),
            j + m <= n,
            k <= m,
            u == rest_of(s@, j as int),
            skip_ws(rest_of(s@, i as int)) == u,
            i <= j,
            forall|q: int| 0 <= q < k ==> s@[j + q] == t@[q],
        decreases m - k,
    {
        let a = s.get_char(j + k);
        let e = t.get_char(k);
        if a != e {
            assert(u[k as int] == s@[j + k]);
            assert(u.subrange(0, m as int)[k as int] != t@[k as int]);
            assert(u.subrange(0, m as int) != t@);
            return None;
        }
        k = k + 1;
    }
    assert(u.subrange(0, m as int) =~= t@);
    assert(u.subrange(m as int, u.len() as int) =~= rest_of(s@, (j + m) as int));
    Some(j + m)
}

/// Beyond this, a digit run is out of the range of `i32` either way.
const DIGITS_LIMIT: u64 = 2147483648;

proof fn lemma_digits_grow(ds: Seq<char>, c: char)
    requires
        is_digit(c),
    ensures
        digits_value(ds.push(c)) == digits_value(ds) * 10 + digit_value(c),
        digits_value(ds) <= digits_value(ds.push(c)),
{
    assert(ds.push(c).drop_last() =~= ds);
}

fn take_i32_at(s: &str, n: usize, i: usize) -> (o: Option<(i32, usize)>)
    requires
        n == s@.len(),
        i <= n,
    ensures
        value_matches(o, take_i32(rest_of(s@, i as int)), s@, i as int),
{
    let j = skip_ws_at(s, n, i);
    let neg = j < n && s.get_char(j) == '-';
    let b = if neg { j + 1 } else { j };
    let ghost u = rest_of(s@, j as int);
    let ghost body = if neg { u.drop_first() } else { u };
    proof {
        if j < n {
            assert(u[0] == s@[j as int]);
        }
        if neg {
            assert(u.drop_first() =~= rest_of(s@, b as int));
        }
    }
    assert(body == rest_of(s@, b as int));
    let mut k = b;
    let mut acc: u64 = 0;
    let mut over = false;
    assert(s@.subrange(b as int, b as int) =~= Seq::<char>::empty());
    while k < n && is_digit_char(s.get_char(k))
        invariant
            n == s@.len(),
            b <= k <= n,
            forall|q: int| b <= q < k ==> is_digit(#[trigger] s@[q]),
            !over ==> acc == digits_value(s@.subrange(b as int, k as int)),
            !over ==> acc <= DIGITS_LIMIT,
            over ==> digits_value(s@.subrange(b as int, k as int)) > DIGITS_LIMIT,
        decreases n - k,
    {
        let c = s.get_char(k);
        let d: u64 = (c as u32 - '0' as u32) as u64;
        proof {
            assert(s@.subrange(b as int, k + 1) =~= s@.subrange(b as int, k as int).push(c));
            lemma_digits_grow(s@.subrange(b as int, k as int), c);
        }
        if !over {
            let next = acc * 10 + d;
            if next > DIGITS_LIMIT {
                over = true;
            } else {
                acc = next;
            }
        }
        k = k + 1;
    }
    let count = k - b;
    proof {
        let ds = s@.subrange(b as int, k as int);
        let tail = rest_of(s@, k as int);
        assert(body =~= ds + tail);
        if k < n {
            assert(tail[0] == s@[k as int]);
        }
        assert forall|q: int| 0 <= q < ds.len() implies is_digit(#[trigger] ds[q]) by {
            assert(ds[q] == s@[b + q]);
        }
        lemma_digit_run(ds, tail);
        assert(body.subrange(0, count as int) =~= ds);
        assert(body.subrange(count as int, body.len() as int) =~= tail);
    }
    if count == 0 {
        return None;
    }
    if over {
        return None;
    }
    if neg {
        Some(((0i64 - acc as i64) as i32, k))
    } else if acc <= 2147483647 {
        Some((acc as i32, k))
    } else {
        None
    }
}

fn take_bool_at(s: &str, n: usize, i: usize) -> (o: Option<(bool, usize)>)
    requires
        n == s@.len(),
        i <= n,
    ensures
        value_matches(o, take_bool(rest_of(s@, i as int)), s@, i as int),
{
    match take_token_at(s, n, i, "true") {
        Some(j) => Some((true, j)),
        None => match take_token_at(s, n, i, "false") {
            Some(j) => Some((false, j)),
            None => None,
        },
    }
}

fn take_i32_field_at(s: &str, n: usize, i: usize, key: &str) -> (o: Option<(i32, usize)>)
    requires
        n == s@.len(),
        i <= n,
    ensures
        value_matches(o, take_i32_field(rest_of(s@, i as int), key@), s@, i as int),
{
    match take_token_at(s, n, i, key) {
        Some(j) => take_i32_at(s, n, j),
        None => None,
    }
}

fn take_bool_field_at(s: &str, n: usize, i: usize, key: &str) -> (o: Option<(bool, usize)>)
    requires
        n == s@.len(),
        i <= n,
    ensures
        value_matches(o, take_bool_field(rest_of(s@, i as int), key@), s@, i as int),
{
    match take_token_at(s, n, i, ",") {
        Some(j) => match take_token_at(s, n, j, key) {
            Some(k) => take_bool_at(s, n, k),
            None => None,
        },
        None => None,
    }
}

fn take_position_at(s: &str, n: usize, i: usize) -> (o: Option<(WindowPosition, usize)>)
    requires
        n == s@.len(),
        i <= n,
    ensures
        value_matches(o, take_position(rest_of(s@, i as int)), s@, i as int),
{
    let j0 = match take_token_at(s, n, i, "{") {
        Some(j) => j,
        None => return None,
    };
    let (x, j1) = match take_i32_field_at(s, n, j0, "\"x\":") {
        Some(r) => r,
        None => return None,
    };
    let j2 = match take_token_at(s, n, j1, ",") {
        Some(j) => j,
        None => return None,
    };
    let (y, j3) = match take_i32_field_at(s, n, j2, "\"y\":") {
        Some(r) => r,
        None => return None,
    };
    match take_token_at(s, n, j3, "}") {
        Some(j4) => Some((WindowPosition { x, y }, j4)),
        None => None,
    }
}

/// The settings that a persisted text holds, if it has the expected form.
pub fn decode_config(s: &str) -> (r: Option<AppConfig>)
    ensures
        r == decode_spec(s@),
{
    let n = s.unicode_len();
    assert(rest_of(s@, 0) =~= s@);
    let j0 = match take_token_at(s, n, 0, "{") {
        Some(j) => j,
        None => return None,
    };
    let j1 = match take_token_at(s, n, j0, "\"window_position\":") {
        Some(j) => j,
        None => return None,
    };
    let (p, j2) = match take_position_at(s, n, j1) {
        Some(r) => r,
        None => return None,
    };
    let (mouse_through, j3) = match take_bool_field_at(s, n, j2, "\"mouse_through\":") {
        Some(r) => r,
        None => return None,
    };
    let (auto_accept, j4) = match take_bool_field_at(s, n, j3, "\"auto_accept\":") {
        Some(r) => r,
        None => return None,
    };
    let (auto_hide, j5) = match take_bool_field_at(s, n, j4, "\"auto_hide\":") {
        Some(r) => r,
        None => return None,
    };
    let (window_visible, j6) = match take_bool_field_at(s, n, j5, "\"window_visible\":") {
        Some(r) => r,
        None => return None,
    };
    let j7 = match take_token_at(s, n, j6, "}") {
        Some(j) => j,
        None => return None,
    };
    let end = skip_ws_at(s, n, j7);
    if end == n {
        Some(AppConfig { window_position: p, mouse_through, auto_accept, auto_hide, window_visible })
    } else {
        None
    }
}

impl AppConfig {
    /// The settings to start with: those of the persisted text, or the
    /// defaults when there is none or it cannot be read.
    pub fn load(text: Option<&str>) -> (r: AppConfig)
        ensures
            r == match text {
                Some(t) => match decode_spec(t@) {
                    Some(c) => c,
                    None => default_config(),
                },
                None => default_config(),
            },
    {
        match text {
            Some(t) => match decode_config(t) {
                Some(c) => c,
                None => AppConfig::default(),
            },
            None => AppConfig::default(),
        }
    }
}

} // verus!
