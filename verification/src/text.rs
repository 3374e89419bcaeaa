//! Text handling of request headers: white space, trimming, the bearer
//! token of an `Authorization` header, and decimal years.
use vstd::prelude::*;

verus! {

/// The characters with the Unicode `White_Space` property (what
/// `char::is_whitespace` tests).
pub open spec fn is_white_space(c: char) -> bool {
    let u = c as u32;
    ||| 0x09 <= u <= 0x0D
    ||| u == 0x20
    ||| u == 0x85
    ||| u == 0xA0
    ||| u == 0x1680
    ||| 0x2000 <= u <= 0x200A
    ||| u == 0x2028
    ||| u == 0x2029
    ||| u == 0x202F
    ||| u == 0x205F
    ||| u == 0x3000
}

/// Number of white-space characters at the start of `s`.
pub open spec fn leading_ws(s: Seq<char>) -> nat
    decreases s.len(),
{
    if s.len() > 0 && is_white_space(s[0]) {
        1 + leading_ws(s.drop_first())
    } else {
        0
    }
}

/// Number of white-space characters at the end of `s`.
pub open spec fn trailing_ws(s: Seq<char>) -> nat
    decreases s.len(),
{
    if s.len() > 0 && is_white_space(s.last()) {
        1 + trailing_ws(s.drop_last())
    } else {
        0
    }
}

/// `s` without its leading and trailing white space.
pub open spec fn trim_seq(s: Seq<char>) -> Seq<char> {
    let t = s.skip(leading_ws(s) as int);
    t.take(t.len() - trailing_ws(t))
}

/// The part of an `Authorization` header value after the `Bearer ` prefix,
/// if it has that prefix.
pub open spec fn bearer_payload(h: Seq<char>) -> Option<Seq<char>> {
    if h.len() >= 7 && h.take(7) == "Bearer "@ {
        Some(h.skip(7))
    } else {
        None
    }
}

/// The token that a request carries: the header value's part after
/// `Bearer `, trimmed, or empty where there is no header or no such prefix.
pub open spec fn bearer_token_of(header: Option<Seq<char>>) -> Seq<char> {
    match header {
        Some(h) => match bearer_payload(h) {
            Some(p) => trim_seq(p),
            None => trim_seq(Seq::empty()),
        },
        None => trim_seq(Seq::empty()),
    }
}

proof fn lemma_leading_ws(s: Seq<char>, i: int)
    requires
        0 <= i <= s.len(),
        forall|k: int| 0 <= k < i ==> is_white_space(#[trigger] s[k]),
        i == s.len() || !is_white_space(s[i]),
    ensures
        leading_ws(s) == i,
    decreases i,
{
    if i > 0 {
        let t = s.drop_first();
        assert forall|k: int| 0 <= k < i - 1 implies is_white_space(#[trigger] t[k]) by {
            assert(t[k] == s[k + 1]);
        }
        if i - 1 < t.len() {
            assert(t[i - 1] == s[i]);
        }
        lemma_leading_ws(t, i - 1);
    }
}

proof fn lemma_trailing_ws(s: Seq<char>, j: int)
    requires
        0 <= j <= s.len(),
        forall|k: int| j <= k < s.len() ==> is_white_space(#[trigger] s[k]),
        j == 0 || !is_white_space(s[j - 1]),
    ensures
        trailing_ws(s) == s.len() - j,
    decreases s.len() - j,
{
    if j < s.len() {
        let t = s.drop_last();
        assert forall|k: int| j <= k < t.len() implies is_white_space(#[trigger] t[k]) by {
            assert(t[k] == s[k]);
        }
        if j > 0 {
            assert(t[j - 1] == s[j - 1]);
        }
        assert(is_white_space(s[s.len() - 1]));
        lemma_trailing_ws(t, j);
    }
}

/// The white-space test of `char::is_whitespace`, on the same code points.
pub fn char_is_white_space(c: char) -> (r: bool)
    ensures
        r == is_white_space(c),
{
    let u = c as u32;
    (0x09 <= u && u <= 0x0D) || u == 0x20 || u == 0x85 || u == 0xA0 || u == 0x1680 || (0x2000
        <= u && u <= 0x200A) || u == 0x2028 || u == 0x2029 || u == 0x202F || u == 0x205F || u
        == 0x3000
}

/// `s` without leading and trailing white space (what `str::trim` gives).
pub fn trim(s: &str) -> (r: &str)
    ensures
        r@ == trim_seq(s@),
{
    let n = s.unicode_len();
    let mut i: usize = 0;
    while i < n && char_is_white_space(s.get_char(i))
        invariant
            n == s@.len(),
            i <= n,
            forall|k: int| 0 <= k < i ==> is_white_space(#[trigger] s@[k]),
        decreases n - i,
    {
        i = i + 1;
    }
    proof {
        lemma_leading_ws(s@, i as int);
    }
    let mut j: usize = n;
    while j > i && char_is_white_space(s.get_char(j - 1))
        invariant
            n == s@.len(),
            i <= j <= n,
            forall|k: int| j <= k < n ==> is_white_space(#[trigger] s@[k]),
        decreases j,
    {
        j = j - 1;
    }
    proof {
        let t = s@.skip(i as int);
        assert forall|k: int| j - i <= k < t.len() implies is_white_space(#[trigger] t[k]) by {
            assert(t[k] == s@[k + i]);
        }
        if j > i {
            assert(t[j - i - 1] == s@[j - 1]);
        }
        lemma_trailing_ws(t, j - i);
        assert(t.take(t.len() - trailing_ws(t)) =~= s@.subrange(i as int, j as int));
    }
    s.substring_char(i, j)
}

/// The bearer token of a request: the `Authorization` header value after
/// its `Bearer ` prefix, trimmed; empty where the header is missing or lacks
/// the prefix.
#[verifier::loop_isolation(false)]
pub fn bearer_token<'a>(header: Option<&'a str>) -> (r: &'a str)
    ensures
        r@ == bearer_token_of(
            match header {
                Some(h) => Some(h@),
                None => None,
            },
        ),
{
    let prefix = "Bearer ";
    proof {
        reveal_strlit("Bearer ");
    }
    let empty = "";
    proof {
        reveal_strlit("");
        assert(trim_seq(Seq::<char>::empty()) =~= Seq::<char>::empty()) by {
            assert(leading_ws(Seq::<char>::empty()) == 0);
        }
    }
    match header {
        None => empty,
        Some(h) => {
            let n = h.unicode_len();
            if n < 7 {
                return empty;
            }
            let mut i: usize = 0;
            while i < 7
                invariant
                    n == h@.len(),
                    n >= 7,
                    i <= 7,
                    prefix@ == seq!['B', 'e', 'a', 'r', 'e', 'r', ' '],
                    prefix@ == "Bearer "@,
                    forall|k: int| 0 <= k < i ==> h@[k] == prefix@[k],
                decreases 7 - i,
            {
                if h.get_char(i) != prefix.get_char(i) {
                    assert(h@.take(7)[i as int] != prefix@[i as int]);
                    assert(h@.take(7) != prefix@);
                    assert(bearer_payload(h@) is None);
                    return empty;
                }
                i = i + 1;
            }
            assert(h@.take(7) =~= prefix@);
            trim(h.substring_char(7, n))
        },
    }
}


proof fn lemma_leading_ws_facts(s: Seq<char>)
    ensures
        leading_ws(s) <= s.len(),
        forall|k: int| 0 <= k < leading_ws(s) ==> is_white_space(#[trigger] s[k]),
        leading_ws(s) < s.len() ==> !is_white_space(s[leading_ws(s) as int]),
    decreases s.len(),
{
    if s.len() > 0 && is_white_space(s[0]) {
        let t = s.drop_first();
        lemma_leading_ws_facts(t);
        assert forall|k: int| 0 <= k < leading_ws(s) implies is_white_space(#[trigger] s[k]) by {
            if k > 0 {
                assert(s[k] == t[k - 1]);
            }
        }
        if leading_ws(s) < s.len() {
            assert(s[leading_ws(s) as int] == t[leading_ws(t) as int]);
        }
    }
}

proof fn lemma_trailing_ws_facts(s: Seq<char>)
    ensures
        trailing_ws(s) <= s.len(),
        forall|k: int| s.len() - trailing_ws(s) <= k < s.len() ==> is_white_space(#[trigger] s[k]),
        trailing_ws(s) < s.len() ==> !is_white_space(s[s.len() - trailing_ws(s) - 1]),
    decreases s.len(),
{
    if s.len() > 0 && is_white_space(s.last()) {
        let t = s.drop_last();
        lemma_trailing_ws_facts(t);
        assert forall|k: int| s.len() - trailing_ws(s) <= k < s.len() implies is_white_space(
            #[trigger] s[k],
        ) by {
            if k < s.len() - 1 {
                assert(s[k] == t[k]);
            }
        }
        if trailing_ws(s) < s.len() {
            assert(s[s.len() - trailing_ws(s) - 1] == t[t.len() - trailing_ws(t) - 1]);
        }
    }
}

/// Trimming leaves no white space at either end, and trimming twice is
/// trimming once.
pub proof fn lemma_trim_is_trimmed(s: Seq<char>)
    ensures
        trim_seq(s).len() > 0 ==> !is_white_space(trim_seq(s)[0]) && !is_white_space(
            trim_seq(s).last(),
        ),
        trim_seq(trim_seq(s)) == trim_seq(s),
{
    lemma_leading_ws_facts(s);
    let t = s.skip(leading_ws(s) as int);
    lemma_trailing_ws_facts(t);
    let r = trim_seq(s);
    if r.len() > 0 {
        assert(r[0] == t[0]);
        assert(r.last() == t[t.len() - trailing_ws(t) - 1]);
        assert(t[0] == s[leading_ws(s) as int]);
        lemma_leading_ws(r, 0);
        lemma_trailing_ws(r, r.len() as int);
        assert(r.skip(0) =~= r);
        assert(r.take(r.len() as int) =~= r);
    } else {
        assert(leading_ws(r) == 0);
        assert(r.skip(0) =~= r);
        assert(trailing_ws(r) == 0);
    }
}

/// A token sent as `Bearer <token>` is read back as the token, trimmed; a
/// token without surrounding white space is read back unchanged.
pub proof fn lemma_bearer_round_trip(token: Seq<char>)
    ensures
        bearer_token_of(Some("Bearer "@ + token)) == trim_seq(token),
        trim_seq(token) == token ==> bearer_token_of(Some("Bearer "@ + token)) == token,
{
    reveal_strlit("Bearer ");
    let h = "Bearer "@ + token;
    assert(h.take(7) =~= "Bearer "@);
    assert(h.skip(7) =~= token);
}

/// The character of the decimal digit `d` (`d < 10`).
pub open spec fn digit_char(d: nat) -> char {
    (48 + d) as char
}

/// The decimal digits of `n`, most significant first, without leading zeros.
pub open spec fn nat_digits(n: nat) -> Seq<char>
    decreases n,
{
    if n < 10 {
        seq![digit_char(n)]
    } else {
        nat_digits(n / 10).push(digit_char(n % 10))
    }
}

/// `i` written in decimal, with a leading `-` when negative (what the
/// `Display` of Rust's integers writes).
pub open spec fn decimal(i: int) -> Seq<char> {
    if i < 0 {
        seq!['-'] + nat_digits((-i) as nat)
    } else {
        nat_digits(i as nat)
    }
}

fn digit_str(d: u64) -> (r: &'static str)
    requires
        d < 10,
    ensures
        r@ == seq![digit_char(d as nat)],
{
    proof {
        reveal_strlit("0");
        reveal_strlit("1");
        reveal_strlit("2");
        reveal_strlit("3");
        reveal_strlit("4");
        reveal_strlit("5");
        reveal_strlit("6");
        reveal_strlit("7");
        reveal_strlit("8");
        reveal_strlit("9");
    }
    if d == 0 {
        "0"
    } else if d == 1 {
        "1"
    } else if d == 2 {
        "2"
    } else if d == 3 {
        "3"
    } else if d == 4 {
        "4"
    } else if d == 5 {
        "5"
    } else if d == 6 {
        "6"
    } else if d == 7 {
        "7"
    } else if d == 8 {
        "8"
    } else {
        "9"
    }
}

/// Appends the decimal digits of `n` to `out`.
fn push_digits(out: &mut String, n: u64)
    ensures
        final(out)@ == old(out)@ + nat_digits(n as nat),
    decreases n,
{
    if n >= 10 {
        push_digits(out, n / 10);
    }
    out.append(digit_str(n % 10));
    proof {
        if n >= 10 {
            assert(nat_digits(n as nat) == nat_digits((n / 10) as nat).push(digit_char((n % 10) as nat)));
        }
    }
}

/// `i` in decimal, as `format!("{}", i)` writes it.
pub fn decimal_string(i: i32) -> (r: String)
    ensures
        r@ == decimal(i as int),
{
    let mut out = String::new();
    if i < 0 {
        let minus = "-";
        proof {
            reveal_strlit("-");
        }
        out.append(minus);
        let m: i64 = -(i as i64);
        push_digits(&mut out, m as u64);
        assert(out@ =~= seq!['-'] + nat_digits((-(i as int)) as nat));
    } else {
        push_digits(&mut out, i as u64);
        assert(out@ =~= nat_digits(i as nat));
    }
    out
}

} // verus!
