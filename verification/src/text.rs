use vstd::prelude::*;
use vstd::string::StrSliceExecFns;

verus! {

/// The Unicode `White_Space` code points: the characters that trimming
/// removes and that a blank field consists of.
pub open spec fn is_space(c: char) -> bool {
    ||| c == '\u{0009}'
    ||| c == '\u{000A}'
    ||| c == '\u{000B}'
    ||| c == '\u{000C}'
    ||| c == '\u{000D}'
    ||| c == ' '
    ||| c == '\u{0085}'
    ||| c == '\u{00A0}'
    ||| c == '\u{1680}'
    ||| ('\u{2000}' <= c && c <= '\u{200A}')
    ||| c == '\u{2028}'
    ||| c == '\u{2029}'
    ||| c == '\u{202F}'
    ||| c == '\u{205F}'
    ||| c == '\u{3000}'
}

/// A string is blank when every character in it is whitespace; in
/// particular the empty string is blank.
pub open spec fn blank(s: Seq<char>) -> bool {
    forall|i: int| 0 <= i < s.len() ==> is_space(s[i])
}

/// The number of leading whitespace characters of `s`.
pub open spec fn ws_prefix_len(s: Seq<char>) -> nat
    decreases s.len(),
{
    if s.len() == 0 {
        0
    } else if is_space(s[0]) {
        1 + ws_prefix_len(s.drop_first())
    } else {
        0
    }
}

/// The number of trailing whitespace characters of `s`.
pub open spec fn ws_suffix_len(s: Seq<char>) -> nat
    decreases s.len(),
{
    if s.len() == 0 {
        0
    } else if is_space(s.last()) {
        1 + ws_suffix_len(s.drop_last())
    } else {
        0
    }
}

/// What trimming leaves of `s`: the part between the leading and the
/// trailing whitespace, and the empty sequence when `s` is blank.
pub open spec fn trim_seq(s: Seq<char>) -> Seq<char> {
    if blank(s) {
        Seq::<char>::empty()
    } else {
        s.subrange(ws_prefix_len(s) as int, s.len() - ws_suffix_len(s))
    }
}

pub proof fn lemma_ws_prefix(s: Seq<char>)
    ensures
        ws_prefix_len(s) <= s.len(),
        forall|j: int| 0 <= j < ws_prefix_len(s) ==> is_space(s[j]),
        ws_prefix_len(s) < s.len() ==> !is_space(s[ws_prefix_len(s) as int]),
    decreases s.len(),
{
    if s.len() > 0 && is_space(s[0]) {
        lemma_ws_prefix(s.drop_first());
        assert forall|j: int| 0 <= j < ws_prefix_len(s) implies is_space(s[j]) by {
            if j > 0 {
                assert(s.drop_first()[j - 1] == s[j]);
            }
        }
        if ws_prefix_len(s) < s.len() {
            assert(s.drop_first()[ws_prefix_len(s) as int - 1] == s[ws_prefix_len(s) as int]);
        }
    }
}

pub proof fn lemma_ws_suffix(s: Seq<char>)
    ensures
        ws_suffix_len(s) <= s.len(),
        forall|j: int| s.len() - ws_suffix_len(s) <= j < s.len() ==> is_space(s[j]),
        ws_suffix_len(s) < s.len() ==> !is_space(s[s.len() - ws_suffix_len(s) - 1]),
    decreases s.len(),
{
    if s.len() > 0 && is_space(s.last()) {
        lemma_ws_suffix(s.drop_last());
        assert forall|j: int| s.len() - ws_suffix_len(s) <= j < s.len() implies is_space(s[j]) by {
            if j < s.len() - 1 {
                assert(s.drop_last()[j] == s[j]);
            }
        }
        if ws_suffix_len(s) < s.len() {
            assert(s.drop_last()[s.len() - ws_suffix_len(s) - 1] == s[s.len() - ws_suffix_len(s) - 1]);
        }
    }
}

/// Leading whitespace is counted exactly: any cut `a` with whitespace
/// before it and a non-space (or the end) at it is the whitespace prefix.
pub proof fn lemma_ws_prefix_unique(s: Seq<char>, a: int)
    requires
        0 <= a <= s.len(),
        forall|j: int| 0 <= j < a ==> is_space(s[j]),
        a < s.len() ==> !is_space(s[a]),
    ensures
        a == ws_prefix_len(s),
{
    lemma_ws_prefix(s);
    if a < ws_prefix_len(s) {
        assert(is_space(s[a]));
    } else if ws_prefix_len(s) < a {
        assert(is_space(s[ws_prefix_len(s) as int]));
    }
}

/// Trailing whitespace is counted exactly, as `lemma_ws_prefix_unique`
/// counts the leading run.
pub proof fn lemma_ws_suffix_unique(s: Seq<char>, b: int)
    requires
        0 <= b <= s.len(),
        forall|j: int| b <= j < s.len() ==> is_space(s[j]),
        0 < b ==> !is_space(s[b - 1]),
    ensures
        s.len() - b == ws_suffix_len(s),
{
    lemma_ws_suffix(s);
    if s.len() - b < ws_suffix_len(s) {
        assert(is_space(s[b - 1]));
    } else if ws_suffix_len(s) < s.len() - b {
        assert(is_space(s[s.len() - ws_suffix_len(s) - 1]));
    }
}

/// Whether `c` is a whitespace character.
pub fn char_is_space(c: char) -> (r: bool)
    ensures
        r == is_space(c),
{
    c == '\u{0009}' || c == '\u{000A}' || c == '\u{000B}' || c == '\u{000C}' || c == '\u{000D}'
        || c == ' ' || c == '\u{0085}' || c == '\u{00A0}' || c == '\u{1680}'
        || ('\u{2000}' <= c && c <= '\u{200A}') || c == '\u{2028}' || c == '\u{2029}'
        || c == '\u{202F}' || c == '\u{205F}' || c == '\u{3000}'
}

/// Whether `s` is empty or consists of whitespace only.
pub fn is_blank(s: &str) -> (r: bool)
    ensures
        r == blank(s@),
{
    let n: usize = s.unicode_len();
    let mut i: usize = 0;
    while i < n
        invariant
            i <= n,
            n == s@.len(),
            forall|j: int| 0 <= j < i ==> is_space(s@[j]),
        decreases n - i,
    {
        if !char_is_space(s.get_char(i)) {
            assert(!is_space(s@[i as int]));
            return false;
        }
        i += 1;
    }
    true
}

/// `s` without its leading and trailing whitespace.
pub fn trim_str<'a>(s: &'a str) -> (r: &'a str)
    ensures
        r@ == trim_seq(s@),
{
    let n: usize = s.unicode_len();
    let mut a: usize = 0;
    loop
        invariant
            a <= n,
            n == s@.len(),
            forall|j: int| 0 <= j < a ==> is_space(s@[j]),
        ensures
            a <= n,
            forall|j: int| 0 <= j < a ==> is_space(s@[j]),
            a < n ==> !is_space(s@[a as int]),
        decreases n - a,
    {
        if a == n {
            break;
        }
        if !char_is_space(s.get_char(a)) {
            break;
        }
        a += 1;
    }
    let mut b: usize = n;
    loop
        invariant
            a <= b <= n,
            n == s@.len(),
            forall|j: int| b <= j < n ==> is_space(s@[j]),
        ensures
            a <= b <= n,
            forall|j: int| b <= j < n ==> is_space(s@[j]),
            a < b ==> !is_space(s@[b - 1]),
        decreases b,
    {
        if b == a {
            break;
        }
        if !char_is_space(s.get_char(b - 1)) {
            break;
        }
        b -= 1;
    }
    proof {
        if a == b {
            assert forall|j: int| 0 <= j < n implies is_space(s@[j]) by {}
            assert(blank(s@));
        } else {
            assert(!is_space(s@[a as int]));
            assert(!blank(s@));
            lemma_ws_prefix_unique(s@, a as int);
            lemma_ws_suffix_unique(s@, b as int);
        }
    }
    let r = s.substring_char(a, b);
    proof {
        assert(r@ =~= trim_seq(s@));
    }
    r
}

/// Whether `c` is a decimal digit.
pub open spec fn is_digit(c: char) -> bool {
    48 <= c as int && c as int <= 57
}

/// Whether every character of `s` is a decimal digit.
pub open spec fn all_digits(s: Seq<char>) -> bool {
    forall|i: int| 0 <= i < s.len() ==> is_digit(s[i])
}

/// The value of `s` read as a decimal numeral.
pub open spec fn dec_value(s: Seq<char>) -> int
    decreases s.len(),
{
    if s.len() == 0 {
        0
    } else {
        dec_value(s.drop_last()) * 10 + (s.last() as int - 48)
    }
}

pub proof fn lemma_dec_value_nonneg(s: Seq<char>)
    requires
        all_digits(s),
    ensures
        dec_value(s) >= 0,
    decreases s.len(),
{
    if s.len() > 0 {
        assert(all_digits(s.drop_last()));
        lemma_dec_value_nonneg(s.drop_last());
    }
}

/// The digits of a numeral: what follows an optional leading `+`.
pub open spec fn sign_stripped(s: Seq<char>) -> Seq<char> {
    if s.len() > 0 && s[0] == '+' {
        s.drop_first()
    } else {
        s
    }
}

/// A decimal numeral as `u16::from_str` reads it: an optional leading
/// `+`, then at least one digit, with a value of at most `u16::MAX`.
pub open spec fn parse_u16_spec(s: Seq<char>) -> Option<u16> {
    let t = sign_stripped(s);
    if t.len() > 0 && all_digits(t) && dec_value(t) <= 65535 {
        Some(dec_value(t) as u16)
    } else {
        None
    }
}

/// Reads a decimal `u16`, accepting exactly what `parse_u16_spec` accepts.
pub fn parse_u16(s: &str) -> (r: Option<u16>)
    ensures
        r == parse_u16_spec(s@),
{
    let n: usize = s.unicode_len();
    let mut i: usize = 0;
    if n > 0 {
        if s.get_char(0) == '+' {
            i = 1;
        }
    }
    let ghost t: Seq<char> = sign_stripped(s@);
    let ghost start: int = i as int;
    proof {
        assert(t =~= s@.subrange(start, n as int));
    }
    if i == n {
        return None;
    }
    let mut val: u32 = 0;
    let mut over: bool = false;
    while i < n
        invariant
            0 <= start <= i <= n,
            start < n,
            n == s@.len(),
            t == sign_stripped(s@),
            t == s@.subrange(start, n as int),
            all_digits(t.take(i - start)),
            over == (dec_value(t.take(i - start)) > 65535),
            !over ==> val == dec_value(t.take(i - start)),
            val <= 65535,
        decreases n - i,
    {
        let c = s.get_char(i);
        if c < '0' || c > '9' {
            proof {
                assert(t.len() == n - start);
                assert(t[i - start] == s@.subrange(start, n as int)[i - start]);
                assert(t[i - start] == s@[start + (i - start)]);
                assert(!is_digit(t[i - start]));
                assert(!all_digits(t));
            }
            return None;
        }
        let d: u32 = c as u32 - 48;
        let ghost k: int = i - start;
        proof {
            assert(t.take(k + 1).drop_last() =~= t.take(k));
            assert(t.take(k + 1).last() == t[k]);
            assert(t[k] == s@[i as int]);
            assert(dec_value(t.take(k + 1)) == dec_value(t.take(k)) * 10 + (t[k] as int - 48));
            if over {
                lemma_dec_value_nonneg(t.take(k));
            }
        }
        if !over {
            let nv: u32 = val * 10 + d;
            if nv > 65535 {
                over = true;
            } else {
                val = nv;
            }
        }
        i += 1;
        proof {
            assert(all_digits(t.take(i - start)));
        }
    }
    proof {
        assert(t.take(n - start) =~= t);
    }
    if over {
        None
    } else {
        Some(val as u16)
    }
}

/// The code of `c` with an upper-case ASCII letter folded to lower case.
pub open spec fn lower_code(c: char) -> int {
    if 65 <= c as int && c as int <= 90 {
        c as int + 32
    } else {
        c as int
    }
}

/// Whether `s` and `t` are the same string once upper-case ASCII letters
/// of `s` are folded to lower case; `t` is expected already folded.
pub open spec fn matches_folded(s: Seq<char>, t: Seq<char>) -> bool {
    s.len() == t.len() && forall|i: int| 0 <= i < s.len() ==> lower_code(s[i]) == t[i] as int
}

/// Whether `s`, folded to ASCII lower case, equals `t`.
pub fn eq_fold_ascii(s: &str, t: &str) -> (r: bool)
    ensures
        r == matches_folded(s@, t@),
{
    let n: usize = s.unicode_len();
    let m: usize = t.unicode_len();
    if n != m {
        return false;
    }
    let mut i: usize = 0;
    while i < n
        invariant
            i <= n,
            n == s@.len(),
            n == t@.len(),
            forall|j: int| 0 <= j < i ==> lower_code(s@[j]) == t@[j] as int,
        decreases n - i,
    {
        let c = s.get_char(i);
        let e = t.get_char(i);
        let x: u32 = c as u32;
        let folded: u32 = if 65 <= x && x <= 90 {
            x + 32
        } else {
            x
        };
        if folded != e as u32 {
            proof {
                assert(lower_code(s@[i as int]) != t@[i as int] as int);
            }
            return false;
        }
        i += 1;
    }
    true
}

/// The reading of a boolean configuration token: the string is trimmed
/// and folded to ASCII lower case; the truthy words yield `true`, the
/// falsy words `false`, and anything else is not recognized.
pub open spec fn bool_token_spec(s: Seq<char>) -> Option<bool> {
    let w = trim_seq(s);
    if matches_folded(w, "1"@) || matches_folded(w, "true"@) || matches_folded(w, "yes"@)
        || matches_folded(w, "on"@) {
        Some(true)
    } else if matches_folded(w, "0"@) || matches_folded(w, "false"@) || matches_folded(w, "no"@)
        || matches_folded(w, "off"@) {
        Some(false)
    } else {
        None
    }
}

/// The reading of the literal token `off`: a falsy word, so it is
/// recognized and disables.
pub proof fn lemma_bool_token_off()
    ensures
        bool_token_spec("off"@) == Some(false),
{
    reveal_strlit("off");
    reveal_strlit("1");
    reveal_strlit("true");
    reveal_strlit("yes");
    reveal_strlit("on");
    let s = "off"@;
    assert(s.len() == 3);
    assert(!is_space(s[0]));
    assert(!blank(s));
    assert(ws_prefix_len(s) == 0);
    assert(ws_suffix_len(s) == 0);
    assert(trim_seq(s) =~= s);
    assert(matches_folded(s, s)) by {
        assert forall|i: int| 0 <= i < s.len() implies lower_code(s[i]) == s[i] as int by {
            assert(s[i] == 'o' || s[i] == 'f');
        }
    }
    assert(!matches_folded(s, "1"@));
    assert(!matches_folded(s, "true"@));
    assert(!matches_folded(s, "yes"@)) by {
        assert(lower_code(s[0]) != "yes"@[0] as int);
    }
    assert(!matches_folded(s, "on"@));
}

/// The reading of the literal token `maybe`: it is no boolean word at
/// all, so it is not recognized.
pub proof fn lemma_bool_token_maybe()
    ensures
        bool_token_spec("maybe"@) is None,
{
    reveal_strlit("maybe");
    reveal_strlit("1");
    reveal_strlit("true");
    reveal_strlit("yes");
    reveal_strlit("on");
    reveal_strlit("0");
    reveal_strlit("false");
    reveal_strlit("no");
    reveal_strlit("off");
    let s = "maybe"@;
    assert(s.len() == 5);
    assert(!is_space(s[0]));
    assert(!blank(s));
    assert(ws_prefix_len(s) == 0);
    assert(ws_suffix_len(s) == 0);
    assert(trim_seq(s) =~= s);
    assert(!matches_folded(s, "1"@));
    assert(!matches_folded(s, "true"@));
    assert(!matches_folded(s, "yes"@));
    assert(!matches_folded(s, "on"@));
    assert(!matches_folded(s, "0"@));
    assert(!matches_folded(s, "false"@)) by {
        assert(lower_code(s[0]) != "false"@[0] as int);
    }
    assert(!matches_folded(s, "no"@));
    assert(!matches_folded(s, "off"@));
}

/// Reads a boolean token, accepting exactly what `bool_token_spec` accepts.
pub fn parse_bool_token(s: &str) -> (r: Option<bool>)
    ensures
        r == bool_token_spec(s@),
{
    let w = trim_str(s);
    if eq_fold_ascii(w, "1") || eq_fold_ascii(w, "true") || eq_fold_ascii(w, "yes")
        || eq_fold_ascii(w, "on") {
        Some(true)
    } else if eq_fold_ascii(w, "0") || eq_fold_ascii(w, "false") || eq_fold_ascii(w, "no")
        || eq_fold_ascii(w, "off") {
        Some(false)
    } else {
        None
    }
}

} // verus!
