//! The player's answer: the digit-only input field, the canonical numeric
//! form sent to the server, and the outcome string the server sends back.
use vstd::prelude::*;

verus! {

pub open spec fn is_digit(c: char) -> bool {
    '0' <= c && c <= '9'
}

pub open spec fn all_digits(s: Seq<char>) -> bool {
    forall|i: int| 0 <= i < s.len() ==> is_digit(#[trigger] s[i])
}

pub open spec fn digit_value(c: char) -> nat {
    (c as int - '0' as int) as nat
}

/// The value of a string of decimal digits, most significant first.
pub open spec fn digits_value(s: Seq<char>) -> nat
    decreases s.len(),
{
    if s.len() == 0 {
        0
    } else {
        digits_value(s.drop_last()) * 10 + digit_value(s.last())
    }
}

/// What remains once an optional leading `+` is taken off.
pub open spec fn unsigned_body(s: Seq<char>) -> Seq<char> {
    if s.len() > 0 && s[0] == '+' {
        s.subrange(1, s.len() as int)
    } else {
        s
    }
}

/// The text reads as a machine-sized non-negative integer: an optional `+`,
/// then one or more decimal digits whose value fits in `usize`.
pub open spec fn parses_as_count(s: Seq<char>) -> bool {
    let b = unsigned_body(s);
    b.len() > 0 && all_digits(b) && digits_value(b) <= usize::MAX
}

pub open spec fn digit_char(d: nat) -> char {
    if d == 0 { '0' }
    else if d == 1 { '1' }
    else if d == 2 { '2' }
    else if d == 3 { '3' }
    else if d == 4 { '4' }
    else if d == 5 { '5' }
    else if d == 6 { '6' }
    else if d == 7 { '7' }
    else if d == 8 { '8' }
    else { '9' }
}

/// The decimal form of `n`, without leading zeros.
pub open spec fn decimal(n: nat) -> Seq<char>
    decreases n,
{
    if n < 10 {
        seq![digit_char(n)]
    } else {
        decimal(n / 10).push(digit_char(n % 10))
    }
}

/// The canonical answer: the decimal form of the parsed value, or `"0"`
/// when the text does not parse.
pub open spec fn normalized(s: Seq<char>) -> Seq<char> {
    if parses_as_count(s) {
        decimal(digits_value(unsigned_body(s)))
    } else {
        seq!['0']
    }
}

proof fn lemma_digit_char(d: nat)
    requires
        d < 10,
    ensures
        is_digit(digit_char(d)),
        digit_value(digit_char(d)) == d,
        digit_char(d) != '+',
{
}

proof fn lemma_decimal(n: nat)
    ensures
        decimal(n).len() > 0,
        all_digits(decimal(n)),
        digits_value(decimal(n)) == n,
        decimal(n)[0] != '+',
    decreases n,
{
    if n < 10 {
        lemma_digit_char(n);
        assert(decimal(n).drop_last() =~= Seq::<char>::empty());
        assert(digits_value(Seq::<char>::empty()) == 0);
        assert(decimal(n).last() == digit_char(n));
    } else {
        lemma_decimal(n / 10);
        lemma_digit_char(n % 10);
        let d = decimal(n);
        assert(d.drop_last() =~= decimal(n / 10));
        assert(d.last() == digit_char(n % 10));
        assert((n / 10) * 10 + n % 10 == n) by (nonlinear_arith);
        assert forall|i: int| 0 <= i < d.len() implies is_digit(#[trigger] d[i]) by {
            if i < d.len() - 1 {
                assert(d[i] == decimal(n / 10)[i]);
            }
        }
    }
}

/// Normalizing a second time changes nothing.
pub proof fn lemma_normalize_idempotent(s: Seq<char>)
    ensures
        normalized(normalized(s)) == normalized(s),
{
    let n = normalized(s);
    if parses_as_count(s) {
        let v = digits_value(unsigned_body(s));
        lemma_decimal(v);
        assert(unsigned_body(n) == n);
    } else {
        lemma_decimal(0);
        assert(n =~= decimal(0));
        assert(unsigned_body(n) == n);
    }
}

proof fn lemma_value_step(s: Seq<char>, i: int)
    requires
        0 <= i < s.len(),
    ensures
        digits_value(s.subrange(0, i + 1)) == digits_value(s.subrange(0, i)) * 10
            + digit_value(s[i]),
{
    assert(s.subrange(0, i + 1).drop_last() =~= s.subrange(0, i));
}

proof fn lemma_value_grows(s: Seq<char>, i: int)
    requires
        0 <= i <= s.len(),
    ensures
        digits_value(s.subrange(0, i)) <= digits_value(s),
    decreases s.len() - i,
{
    if i < s.len() {
        lemma_value_grows(s, i + 1);
        lemma_value_step(s, i);
    } else {
        assert(s.subrange(0, i) =~= s);
    }
}

fn digit_of(c: char) -> (r: Option<usize>)
    ensures
        r is Some <==> is_digit(c),
        r is Some ==> r->0 == digit_value(c),
{
    if '0' <= c && c <= '9' {
        Some(((c as u32) - ('0' as u32)) as usize)
    } else {
        None
    }
}

fn digit_to_char(d: usize) -> (c: char)
    requires
        d < 10,
    ensures
        c == digit_char(d as nat),
{
    if d == 0 { '0' }
    else if d == 1 { '1' }
    else if d == 2 { '2' }
    else if d == 3 { '3' }
    else if d == 4 { '4' }
    else if d == 5 { '5' }
    else if d == 6 { '6' }
    else if d == 7 { '7' }
    else if d == 8 { '8' }
    else { '9' }
}

/// Relies on `String::push`: the character is appended at the end.
#[verifier::external_body]
fn push_char(s: &mut String, c: char)
    ensures
        final(s)@ == old(s)@.push(c),
{
    s.push(c)
}

/// Reads `s` as a machine-sized non-negative integer, as described by
/// `parses_as_count`.
pub fn parse_count(s: &str) -> (r: Option<usize>)
    ensures
        r is Some <==> parses_as_count(s@),
        r is Some ==> r->0 as nat == digits_value(unsigned_body(s@)),
{
    let len = s.unicode_len();
    let start: usize = if len > 0 && s.get_char(0) == '+' { 1 } else { 0 };
    let ghost b = unsigned_body(s@);
    assert(b =~= s@.subrange(start as int, len as int));
    if start == len {
        return None;
    }
    let mut value: usize = 0;
    let mut i: usize = start;
    while i < len
        invariant
            start <= i <= len,
            len == s@.len(),
            b == s@.subrange(start as int, len as int),
            b == unsigned_body(s@),
            all_digits(b.subrange(0, i - start)),
            value as nat == digits_value(b.subrange(0, i - start)),
        decreases len - i,
    {
        let c = s.get_char(i);
        let ghost k = i - start;
        assert(b[k] == c);
        match digit_of(c) {
            None => {
                assert(!is_digit(b[k]));
                return None;
            },
            Some(d) => {
                proof {
                    lemma_value_step(b, k);
                    assert forall|j: int| 0 <= j < k + 1 implies is_digit(
                        #[trigger] b.subrange(0, k + 1)[j],
                    ) by {
                        if j < k {
                            assert(b.subrange(0, k + 1)[j] == b.subrange(0, k)[j]);
                        }
                    }
                }
                if value > (usize::MAX - d) / 10 {
                    proof {
                        let m = (usize::MAX - d) as int;
                        assert(value as int * 10 + d as int > m + d as int) by (nonlinear_arith)
                            requires value as int > m / 10, m >= 0;
                        lemma_value_grows(b, k + 1);
                    }
                    return None;
                }
                value = value * 10 + d;
            },
        }
        i = i + 1;
    }
    assert(b.subrange(0, len - start) =~= b);
    Some(value)
}

/// The decimal form of `n`.
pub fn decimal_string(n: usize) -> (r: String)
    ensures
        r@ == decimal(n as nat),
    decreases n,
{
    if n < 10 {
        let mut s = String::new();
        push_char(&mut s, digit_to_char(n));
        proof {
            assert(s@ =~= decimal(n as nat));
        }
        s
    } else {
        let mut s = decimal_string(n / 10);
        push_char(&mut s, digit_to_char(n % 10));
        s
    }
}

/// The canonical form in which an answer is sent: the decimal form of the
/// integer the text reads as, or `"0"` when it reads as none.
pub fn user_answer_normalize(answer: &str) -> (r: String)
    ensures
        r@ == normalized(answer@),
{
    match parse_count(answer) {
        Some(v) => decimal_string(v),
        None => {
            let mut s = String::new();
            push_char(&mut s, '0');
            proof {
                assert(s@ =~= seq!['0']);
            }
            s
        },
    }
}


/// The longest answer the input field holds.
pub const MAX_ANSWER_LEN: usize = 15;

/// The digits of `s`, in order, everything else dropped.
pub open spec fn keep_digits(s: Seq<char>) -> Seq<char>
    decreases s.len(),
{
    if s.len() == 0 {
        Seq::empty()
    } else if is_digit(s.last()) {
        keep_digits(s.drop_last()).push(s.last())
    } else {
        keep_digits(s.drop_last())
    }
}

/// At most the first `MAX_ANSWER_LEN` characters of `d`.
pub open spec fn capped(d: Seq<char>) -> Seq<char> {
    if d.len() <= MAX_ANSWER_LEN {
        d
    } else {
        d.subrange(0, MAX_ANSWER_LEN as int)
    }
}

/// What the answer field holds after the player typed `s`.
pub open spec fn answer_input(s: Seq<char>) -> Seq<char> {
    capped(keep_digits(s))
}

/// Filters typed text down to what the answer field accepts: its decimal
/// digits, in order, at most `MAX_ANSWER_LEN` of them.
pub fn filter_answer_input(text: &str) -> (r: String)
    ensures
        r@ == answer_input(text@),
{
    let len = text.unicode_len();
    let mut out = String::new();
    let mut i: usize = 0;
    while i < len
        invariant
            i <= len,
            len == text@.len(),
            out@ == capped(keep_digits(text@.subrange(0, i as int))),
            out@.len() <= MAX_ANSWER_LEN,
        decreases len - i,
    {
        let c = text.get_char(i);
        let ghost pre = keep_digits(text@.subrange(0, i as int));
        assert(text@.subrange(0, i + 1).drop_last() =~= text@.subrange(0, i as int));
        assert(text@.subrange(0, i + 1).last() == c);
        let n = out.as_str().unicode_len();
        if '0' <= c && c <= '9' {
            if n < MAX_ANSWER_LEN {
                push_char(&mut out, c);
            } else {
                assert(pre.push(c).subrange(0, MAX_ANSWER_LEN as int) =~= pre.subrange(
                    0,
                    MAX_ANSWER_LEN as int,
                ));
            }
        }
        i = i + 1;
    }
    assert(text@.subrange(0, len as int) =~= text@);
    out
}

/// The text the server sends for a correct answer.
pub const SERVER_TRUE: &'static str = "TRUE";

/// The placeholder shown for a part that an outcome string lacks.
pub const UNKNOWN: &'static str = "unknown";

/// What the server said about a submitted answer.
#[derive(Debug, PartialEq, Eq)]
pub enum AnswerOutcome {
    Correct,
    Incorrect { correct_answer: String, difference: String },
}

/// The first index at or after `i` that holds a `:`, or the length of `s`.
pub open spec fn colon_from(s: Seq<char>, i: int) -> int
    decreases s.len() - i,
{
    if i >= s.len() {
        s.len() as int
    } else if s[i] == ':' {
        i
    } else {
        colon_from(s, i + 1)
    }
}

/// The `k`-th `:`-separated field of `s` after the first, if there is one.
pub open spec fn field_after(s: Seq<char>, start: int, k: nat) -> Option<Seq<char>>
    decreases k,
{
    let c = colon_from(s, start);
    if c >= s.len() {
        None
    } else if k == 0 {
        Some(s.subrange(c + 1, colon_from(s, c + 1)))
    } else {
        field_after(s, c + 1, (k - 1) as nat)
    }
}

pub open spec fn field_or_unknown(f: Option<Seq<char>>) -> Seq<char> {
    match f {
        Some(t) => t,
        None => UNKNOWN@,
    }
}

/// The outcome that `s` stands for: the sentinel means correct; otherwise the
/// second and third `:`-separated fields are the correct value and the
/// distance, each the placeholder where it is missing.
pub open spec fn outcome_matches(s: Seq<char>, o: AnswerOutcome) -> bool {
    if s == SERVER_TRUE@ {
        o is Correct
    } else {
        match o {
            AnswerOutcome::Correct => false,
            AnswerOutcome::Incorrect { correct_answer, difference } => {
                &&& correct_answer@ == field_or_unknown(field_after(s, 0, 0))
                &&& difference@ == field_or_unknown(field_after(s, 0, 1))
            },
        }
    }
}

fn find_colon(s: &str, from: usize) -> (r: usize)
    requires
        from <= s@.len(),
    ensures
        r as int == colon_from(s@, from as int),
        from <= r <= s@.len(),
{
    let len = s.unicode_len();
    let mut i = from;
    while i < len
        invariant
            from <= i <= len,
            len == s@.len(),
            colon_from(s@, from as int) == colon_from(s@, i as int),
        decreases len - i,
    {
        if s.get_char(i) == ':' {
            return i;
        }
        i = i + 1;
    }
    i
}

/// The field that starts after the colon at `c`, or the placeholder.
fn field_at(s: &str, c: usize) -> (r: String)
    requires
        c <= s@.len(),
    ensures
        c < s@.len() ==> r@ == s@.subrange(c + 1, colon_from(s@, c + 1)),
        c == s@.len() ==> r@ == UNKNOWN@,
{
    if c < s.unicode_len() {
        let e = find_colon(s, c + 1);
        String::from_str(s.substring_char(c + 1, e))
    } else {
        String::from_str(UNKNOWN)
    }
}

fn text_eq(a: &str, b: &str) -> (r: bool)
    ensures
        r == (a@ == b@),
{
    let n = a.unicode_len();
    if n != b.unicode_len() {
        return false;
    }
    let mut i: usize = 0;
    while i < n
        invariant
            i <= n,
            n == a@.len(),
            n == b@.len(),
            a@.subrange(0, i as int) == b@.subrange(0, i as int),
        decreases n - i,
    {
        if a.get_char(i) != b.get_char(i) {
            return false;
        }
        assert(a@.subrange(0, i + 1) =~= a@.subrange(0, i as int).push(a@[i as int]));
        assert(b@.subrange(0, i + 1) =~= b@.subrange(0, i as int).push(b@[i as int]));
        i = i + 1;
    }
    assert(a@ =~= a@.subrange(0, n as int));
    assert(b@ =~= b@.subrange(0, n as int));
    true
}

/// Reads the outcome string the server sent for an answer.
pub fn parse_outcome(val: &str) -> (r: AnswerOutcome)
    ensures
        outcome_matches(val@, r),
{
    if text_eq(val, SERVER_TRUE) {
        return AnswerOutcome::Correct;
    }
    let c1 = find_colon(val, 0);
    if c1 == val.unicode_len() {
        return AnswerOutcome::Incorrect {
            correct_answer: String::from_str(UNKNOWN),
            difference: String::from_str(UNKNOWN),
        };
    }
    let c2 = find_colon(val, c1 + 1);
    let correct_answer = field_at(val, c1);
    let difference = field_at(val, c2);
    assert(field_after(val@, 0, 1) == field_after(val@, c1 + 1, 0));
    AnswerOutcome::Incorrect { correct_answer, difference }
}

} // verus!
