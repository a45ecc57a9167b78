//! The persisted-state document: a single JSON object, written wholesale on
//! every save and read back on load.
//!
//! The encoder and the parser are both defined against the same
//! specification, and parsing a saved document is proved to give back the
//! saved state field for field.

use vstd::prelude::*;
use crate::state::{spec_views, State, StateModel};
use crate::text::{chars_of, push_lit, string_from_chars};

verus! {

// ---------------------------------------------------------------------
// Decimal digits
// ---------------------------------------------------------------------

/// The digit character for a value 0 through 9.
pub open spec fn spec_digit_char(d: int) -> char {
    if d == 0 {
        '0'
    } else if d == 1 {
        '1'
    } else if d == 2 {
        '2'
    } else if d == 3 {
        '3'
    } else if d == 4 {
        '4'
    } else if d == 5 {
        '5'
    } else if d == 6 {
        '6'
    } else if d == 7 {
        '7'
    } else if d == 8 {
        '8'
    } else {
        '9'
    }
}

/// The value of a digit character, or -1 for any other character.
pub open spec fn spec_digit_val(c: char) -> int {
    if c == '0' {
        0
    } else if c == '1' {
        1
    } else if c == '2' {
        2
    } else if c == '3' {
        3
    } else if c == '4' {
        4
    } else if c == '5' {
        5
    } else if c == '6' {
        6
    } else if c == '7' {
        7
    } else if c == '8' {
        8
    } else if c == '9' {
        9
    } else {
        -1
    }
}

/// Whether `c` is a decimal digit.
pub open spec fn spec_is_digit(c: char) -> bool {
    spec_digit_val(c) >= 0
}

/// The decimal digits of `n`, most significant first.
pub open spec fn spec_dec(n: nat) -> Seq<char>
    decreases n,
{
    if n < 10 {
        seq![spec_digit_char(n as int)]
    } else {
        spec_dec(n / 10).push(spec_digit_char((n % 10) as int))
    }
}

/// Every character of a decimal rendering is a digit.
proof fn lemma_dec_digits(n: nat)
    ensures
        spec_dec(n).len() >= 1,
        forall|k: int| 0 <= k < spec_dec(n).len() ==> spec_is_digit(#[trigger] spec_dec(n)[k]),
    decreases n,
{
    if n >= 10 {
        lemma_dec_digits(n / 10);
        assert(forall|k: int|
            0 <= k < spec_dec(n / 10).len() ==> spec_dec(n)[k] == spec_dec(n / 10)[k]);
    }
}

/// The digit character for a value 0 through 9 (executable).
fn digit_char_of(d: u64) -> (c: char)
    requires
        d < 10,
    ensures
        c == spec_digit_char(d as int),
{
    match d {
        0 => '0',
        1 => '1',
        2 => '2',
        3 => '3',
        4 => '4',
        5 => '5',
        6 => '6',
        7 => '7',
        8 => '8',
        _ => '9',
    }
}

/// Append the decimal digits of `n`.
fn push_dec_u64(out: &mut Vec<char>, n: u64)
    ensures
        final(out)@ == old(out)@ + spec_dec(n as nat),
    decreases n,
{
    if n < 10 {
        let c = digit_char_of(n);
        out.push(c);
        proof {
            assert(out@ =~= old(out)@ + spec_dec(n as nat));
        }
    } else {
        push_dec_u64(out, n / 10);
        let c = digit_char_of(n % 10);
        out.push(c);
        proof {
            assert(out@ =~= old(out)@ + spec_dec(n as nat));
        }
    }
}

/// The decimal rendering of a (possibly negative) integer.
pub open spec fn spec_dec_int(v: int) -> Seq<char> {
    if v < 0 {
        seq!['-'] + spec_dec((-v) as nat)
    } else {
        spec_dec(v as nat)
    }
}

/// Append the decimal rendering of `v`.
fn push_dec_i64(out: &mut Vec<char>, v: i64)
    ensures
        final(out)@ == old(out)@ + spec_dec_int(v as int),
{
    if v < 0 {
        out.push('-');
        let ghost mid = out@;
        let m: u64 = if v == i64::MIN {
            9223372036854775808u64
        } else {
            (-v) as u64
        };
        proof {
            assert(m as nat == (-(v as int)) as nat);
        }
        push_dec_u64(out, m);
        proof {
            assert(out@ =~= old(out)@ + spec_dec_int(v as int));
        }
    } else {
        push_dec_u64(out, v as u64);
    }
}

// ---------------------------------------------------------------------
// Strings
// ---------------------------------------------------------------------

/// A character as it appears inside a JSON string: quotes and backslashes
/// are escaped with a backslash.
pub open spec fn spec_esc_char(c: char) -> Seq<char> {
    if c == '"' || c == '\\' {
        seq!['\\', c]
    } else {
        seq![c]
    }
}

/// The escaped body of a JSON string.
pub open spec fn spec_esc(s: Seq<char>) -> Seq<char>
    decreases s.len(),
{
    if s.len() == 0 {
        Seq::empty()
    } else {
        spec_esc_char(s[0]) + spec_esc(s.drop_first())
    }
}

proof fn lemma_esc_snoc(s: Seq<char>, c: char)
    ensures
        spec_esc(s.push(c)) == spec_esc(s) + spec_esc_char(c),
    decreases s.len(),
{
    if s.len() == 0 {
        assert(s.push(c)[0] == c);
        assert(s.push(c).drop_first() =~= s);
        assert(spec_esc(s) =~= Seq::<char>::empty());
        assert(spec_esc(s.push(c)) =~= spec_esc(s) + spec_esc_char(c));
    } else {
        assert(s.push(c)[0] == s[0]);
        assert(s.push(c).drop_first() =~= s.drop_first().push(c));
        lemma_esc_snoc(s.drop_first(), c);
        assert(spec_esc(s.push(c)) =~= spec_esc(s) + spec_esc_char(c));
    }
}

/// A whole JSON string: the escaped body between double quotes.
pub open spec fn spec_qstr(s: Seq<char>) -> Seq<char> {
    seq!['"'] + spec_esc(s) + seq!['"']
}

/// Append the escaped body of `s`.
fn push_escaped(out: &mut Vec<char>, s: &str)
    ensures
        final(out)@ == old(out)@ + spec_esc(s@),
{
    let cs = chars_of(s);
    let n: usize = cs.len();
    let mut i: usize = 0;
    proof {
        assert(s@.subrange(0, 0) =~= Seq::<char>::empty());
        assert(out@ =~= old(out)@ + spec_esc(s@.subrange(0, 0)));
    }
    while i < n
        invariant
            i <= n,
            n == s@.len(),
            cs@ == s@,
            out@ == old(out)@ + spec_esc(s@.subrange(0, i as int)),
        decreases n - i,
    {
        let c = cs[i];
        if c == '"' || c == '\\' {
            out.push('\\');
            out.push(c);
        } else {
            out.push(c);
        }
        proof {
            lemma_esc_snoc(s@.subrange(0, i as int), s@[i as int]);
            assert(s@.subrange(0, i + 1 as int) =~= s@.subrange(0, i as int).push(s@[i as int]));
            assert(out@ =~= old(out)@ + spec_esc(s@.subrange(0, i + 1 as int)));
        }
        i = i + 1;
    }
    proof {
        assert(s@.subrange(0, n as int) =~= s@);
    }
}

/// Append `s` as a JSON string.
fn push_qstr(out: &mut Vec<char>, s: &str)
    ensures
        final(out)@ == old(out)@ + spec_qstr(s@),
{
    out.push('"');
    push_escaped(out, s);
    out.push('"');
    proof {
        assert(out@ =~= old(out)@ + spec_qstr(s@));
    }
}

// ---------------------------------------------------------------------
// Arrays of strings
// ---------------------------------------------------------------------

/// The comma-separated body of a JSON array of strings.
pub open spec fn spec_arr_body(xs: Seq<Seq<char>>) -> Seq<char>
    decreases xs.len(),
{
    if xs.len() == 0 {
        Seq::empty()
    } else if xs.len() == 1 {
        spec_qstr(xs[0])
    } else {
        spec_qstr(xs[0]) + seq![','] + spec_arr_body(xs.drop_first())
    }
}

/// A whole JSON array of strings.
pub open spec fn spec_arr(xs: Seq<Seq<char>>) -> Seq<char> {
    seq!['['] + spec_arr_body(xs) + seq![']']
}

proof fn lemma_arr_body_snoc(xs: Seq<Seq<char>>, x: Seq<char>)
    requires
        xs.len() >= 1,
    ensures
        spec_arr_body(xs.push(x)) == spec_arr_body(xs) + seq![','] + spec_qstr(x),
    decreases xs.len(),
{
    assert(xs.push(x)[0] == xs[0]);
    if xs.len() == 1 {
        assert(xs.push(x).drop_first() =~= seq![x]);
        assert(spec_arr_body(seq![x]) == spec_qstr(x));
        assert(spec_arr_body(xs.push(x)) =~= spec_arr_body(xs) + seq![','] + spec_qstr(x));
    } else {
        assert(xs.push(x).drop_first() =~= xs.drop_first().push(x));
        lemma_arr_body_snoc(xs.drop_first(), x);
        assert(spec_arr_body(xs.push(x)) =~= spec_arr_body(xs) + seq![','] + spec_qstr(x));
    }
}

/// Append a list of strings as a JSON array.
fn push_str_array(out: &mut Vec<char>, v: &Vec<String>)
    ensures
        final(out)@ == old(out)@ + spec_arr(spec_views(v@)),
{
    let ghost xs = spec_views(v@);
    out.push('[');
    let n: usize = v.len();
    let mut i: usize = 0;
    proof {
        assert(spec_arr_body(xs.subrange(0, 0)) =~= Seq::<char>::empty());
        assert(out@ =~= old(out)@ + seq!['['] + spec_arr_body(xs.subrange(0, 0)));
    }
    while i < n
        invariant
            i <= n,
            n == v@.len(),
            xs == spec_views(v@),
            out@ == old(out)@ + seq!['['] + spec_arr_body(xs.subrange(0, i as int)),
        decreases n - i,
    {
        if i > 0 {
            out.push(',');
            push_qstr(out, v[i].as_str());
            proof {
                lemma_arr_body_snoc(xs.subrange(0, i as int), xs[i as int]);
                assert(xs.subrange(0, i + 1 as int) =~= xs.subrange(0, i as int).push(
                    xs[i as int],
                ));
                assert(v@[i as int]@ == xs[i as int]);
                assert(out@ =~= old(out)@ + seq!['['] + spec_arr_body(
                    xs.subrange(0, i + 1 as int),
                ));
            }
        } else {
            push_qstr(out, v[i].as_str());
            proof {
                assert(xs.subrange(0, 1) =~= seq![xs[0]]);
                assert(spec_arr_body(seq![xs[0]]) == spec_qstr(xs[0]));
                assert(v@[0]@ == xs[0]);
                assert(out@ =~= old(out)@ + seq!['['] + spec_arr_body(xs.subrange(0, 1)));
            }
        }
        i = i + 1;
    }
    out.push(']');
    proof {
        assert(xs.subrange(0, n as int) =~= xs);
        assert(out@ =~= old(out)@ + spec_arr(xs));
    }
}

// ---------------------------------------------------------------------
// Options
// ---------------------------------------------------------------------

/// An optional integer: `null` or its decimal rendering.
pub open spec fn spec_opt_int(o: Option<i64>) -> Seq<char> {
    match o {
        Some(v) => spec_dec_int(v as int),
        None => "null"@,
    }
}

/// Append an optional integer.
fn push_opt_i64(out: &mut Vec<char>, o: &Option<i64>)
    ensures
        final(out)@ == old(out)@ + spec_opt_int(*o),
{
    match o {
        Some(v) => push_dec_i64(out, *v),
        None => push_lit(out, "null"),
    }
}

// ---------------------------------------------------------------------
// The state document
// ---------------------------------------------------------------------

/// The persisted JSON document for a state.
pub open spec fn spec_json_of(m: StateModel) -> Seq<char> {
    "{\"xp\":"@ + spec_dec(m.xp as nat) + ",\"level\":"@ + spec_dec(m.level as nat)
        + ",\"level_name\":"@ + spec_qstr(m.level_name) + ",\"commits_total\":"@ + spec_dec(
        m.commits_total as nat,
    ) + ",\"commit_streak_days\":"@ + spec_dec(m.commit_streak_days as nat)
        + ",\"last_commit_date\":"@ + spec_opt_int(m.last_commit_date) + ",\"sessions_total\":"@
        + spec_dec(m.sessions_total as nat) + ",\"achievements_unlocked\":"@ + spec_arr(
        m.achievements_unlocked,
    ) + ",\"tools_used\":"@ + spec_arr(m.tools_used) + ",\"last_event_at\":"@ + spec_opt_int(
        m.last_event_at,
    ) + ",\"last_bash_exit\":"@ + spec_opt_int(m.last_bash_exit) + "}"@
}

// ---------------------------------------------------------------------
// Parsing: specification
// ---------------------------------------------------------------------

/// The position after `lit` if it stands at `i` in `t`.
pub open spec fn spec_expect(t: Seq<char>, i: int, lit: Seq<char>) -> Option<int> {
    if 0 <= i && i + lit.len() <= t.len() && t.subrange(i, i + lit.len()) == lit {
        Some(i + lit.len())
    } else {
        None
    }
}

/// Accumulate decimal digits from position `i` onward.
pub open spec fn spec_scan_digits(t: Seq<char>, i: int, acc: nat) -> (nat, int)
    decreases t.len() - i,
{
    if i < 0 || i >= t.len() {
        (acc, i)
    } else if spec_is_digit(t[i]) {
        spec_scan_digits(t, i + 1, (acc * 10 + spec_digit_val(t[i])) as nat)
    } else {
        (acc, i)
    }
}

/// An unsigned decimal number at `i`: at least one digit, read greedily.
pub open spec fn spec_parse_uint(t: Seq<char>, i: int) -> Option<(nat, int)> {
    if 0 <= i < t.len() && spec_is_digit(t[i]) {
        Some(spec_scan_digits(t, i, 0))
    } else {
        None
    }
}

/// A decimal integer at `i`, with an optional leading minus sign.
pub open spec fn spec_parse_int(t: Seq<char>, i: int) -> Option<(int, int)> {
    if 0 <= i < t.len() && t[i] == '-' {
        match spec_parse_uint(t, i + 1) {
            Some((v, j)) => Some((-(v as int), j)),
            None => None,
        }
    } else {
        match spec_parse_uint(t, i) {
            Some((v, j)) => Some((v as int, j)),
            None => None,
        }
    }
}

/// Read a string body from `i` up to the closing quote, undoing the
/// escapes the encoder writes.
pub open spec fn spec_scan_string(t: Seq<char>, i: int, acc: Seq<char>) -> Option<
    (Seq<char>, int),
>
    decreases t.len() - i,
{
    if i < 0 || i >= t.len() {
        None
    } else if t[i] == '"' {
        Some((acc, i + 1))
    } else if t[i] == '\\' {
        if i + 1 < t.len() && (t[i + 1] == '"' || t[i + 1] == '\\') {
            spec_scan_string(t, i + 2, acc.push(t[i + 1]))
        } else {
            None
        }
    } else {
        spec_scan_string(t, i + 1, acc.push(t[i]))
    }
}

/// A quoted string at `i`.
pub open spec fn spec_parse_qstr(t: Seq<char>, i: int) -> Option<(Seq<char>, int)> {
    if 0 <= i < t.len() && t[i] == '"' {
        spec_scan_string(t, i + 1, Seq::empty())
    } else {
        None
    }
}

/// A successful string scan always moves forward and stays in bounds.
proof fn lemma_scan_string_pos(t: Seq<char>, i: int, acc: Seq<char>)
    ensures
        match spec_scan_string(t, i, acc) {
            Some((s, j)) => i < j <= t.len(),
            None => true,
        },
    decreases t.len() - i,
{
    if 0 <= i < t.len() {
        if t[i] == '"' {
        } else if t[i] == '\\' {
            if i + 1 < t.len() && (t[i + 1] == '"' || t[i + 1] == '\\') {
                lemma_scan_string_pos(t, i + 2, acc.push(t[i + 1]));
            }
        } else {
            lemma_scan_string_pos(t, i + 1, acc.push(t[i]));
        }
    }
}

/// Read quoted strings separated by commas until the closing bracket.
pub open spec fn spec_scan_strs(t: Seq<char>, i: int, acc: Seq<Seq<char>>) -> Option<
    (Seq<Seq<char>>, int),
>
    decreases t.len() - i,
    when 0 <= i <= t.len()
    via spec_scan_strs_dec
{
    match spec_parse_qstr(t, i) {
        None => None,
        Some((s, j)) => {
            if j < t.len() && t[j] == ',' {
                spec_scan_strs(t, j + 1, acc.push(s))
            } else if j < t.len() && t[j] == ']' {
                Some((acc.push(s), j + 1))
            } else {
                None
            }
        },
    }
}

#[via_fn]
proof fn spec_scan_strs_dec(t: Seq<char>, i: int, acc: Seq<Seq<char>>) {
    if 0 <= i < t.len() && t[i] == '"' {
        lemma_scan_string_pos(t, i + 1, Seq::empty());
    }
}

/// A JSON array of strings at `i`.
pub open spec fn spec_parse_arr(t: Seq<char>, i: int) -> Option<(Seq<Seq<char>>, int)> {
    if 0 <= i < t.len() && t[i] == '[' {
        if i + 1 < t.len() && t[i + 1] == ']' {
            Some((Seq::empty(), i + 2))
        } else {
            spec_scan_strs(t, i + 1, Seq::empty())
        }
    } else {
        None
    }
}

/// An optional integer at `i`: `null`, or a decimal integer that fits in
/// an `i64`.
pub open spec fn spec_parse_opt_int(t: Seq<char>, i: int) -> Option<(Option<i64>, int)> {
    if spec_expect(t, i, "null"@) is Some {
        Some((None, i + 4))
    } else {
        match spec_parse_int(t, i) {
            Some((v, j)) => if i64::MIN <= v <= i64::MAX {
                Some((Some(v as i64), j))
            } else {
                None
            },
            None => None,
        }
    }
}

/// A key literal followed by an unsigned number that fits in a `u32`.
pub open spec fn spec_field_u32(t: Seq<char>, i: int, key: Seq<char>) -> Option<(u32, int)> {
    match spec_expect(t, i, key) {
        Some(j) => match spec_parse_uint(t, j) {
            Some((v, k)) => if v <= u32::MAX {
                Some((v as u32, k))
            } else {
                None
            },
            None => None,
        },
        None => None,
    }
}

/// A key literal followed by a quoted string.
pub open spec fn spec_field_qstr(t: Seq<char>, i: int, key: Seq<char>) -> Option<
    (Seq<char>, int),
> {
    match spec_expect(t, i, key) {
        Some(j) => spec_parse_qstr(t, j),
        None => None,
    }
}

/// A key literal followed by an optional integer.
pub open spec fn spec_field_opt_int(t: Seq<char>, i: int, key: Seq<char>) -> Option<
    (Option<i64>, int),
> {
    match spec_expect(t, i, key) {
        Some(j) => spec_parse_opt_int(t, j),
        None => None,
    }
}

/// A key literal followed by an array of strings.
pub open spec fn spec_field_arr(t: Seq<char>, i: int, key: Seq<char>) -> Option<
    (Seq<Seq<char>>, int),
> {
    match spec_expect(t, i, key) {
        Some(j) => spec_parse_arr(t, j),
        None => None,
    }
}

/// Parse a whole persisted state document: every field in order, and
/// nothing after the closing brace.
pub open spec fn spec_parse_state(t: Seq<char>) -> Option<StateModel> {
    match spec_field_u32(t, 0, "{\"xp\":"@) {
        None => None,
        Some((xp, i1)) => match spec_field_u32(t, i1, ",\"level\":"@) {
            None => None,
            Some((level, i2)) => match spec_field_qstr(t, i2, ",\"level_name\":"@) {
                None => None,
                Some((level_name, i3)) => match spec_field_u32(t, i3, ",\"commits_total\":"@) {
                    None => None,
                    Some((commits_total, i4)) => match spec_field_u32(
                        t,
                        i4,
                        ",\"commit_streak_days\":"@,
                    ) {
                        None => None,
                        Some((commit_streak_days, i5)) => match spec_field_opt_int(
                            t,
                            i5,
                            ",\"last_commit_date\":"@,
                        ) {
                            None => None,
                            Some((last_commit_date, i6)) => match spec_field_u32(
                                t,
                                i6,
                                ",\"sessions_total\":"@,
                            ) {
                                None => None,
                                Some((sessions_total, i7)) => match spec_field_arr(
                                    t,
                                    i7,
                                    ",\"achievements_unlocked\":"@,
                                ) {
                                    None => None,
                                    Some((achievements_unlocked, i8)) => match spec_field_arr(
                                        t,
                                        i8,
                                        ",\"tools_used\":"@,
                                    ) {
                                        None => None,
                                        Some((tools_used, i9)) => match spec_field_opt_int(
                                            t,
                                            i9,
                                            ",\"last_event_at\":"@,
                                        ) {
                                            None => None,
                                            Some((last_event_at, i10)) => match spec_field_opt_int(
                                                t,
                                                i10,
                                                ",\"last_bash_exit\":"@,
                                            ) {
                                                None => None,
                                                Some((last_bash_exit, i11)) => match spec_expect(
                                                    t,
                                                    i11,
                                                    "}"@,
                                                ) {
                                                    None => None,
                                                    Some(end) => if end == t.len() {
                                                        Some(
                                                            StateModel {
                                                                xp,
                                                                level,
                                                                level_name,
                                                                commits_total,
                                                                commit_streak_days,
                                                                last_commit_date,
                                                                sessions_total,
                                                                achievements_unlocked,
                                                                tools_used,
                                                                last_event_at,
                                                                last_bash_exit,
                                                            },
                                                        )
                                                    } else {
                                                        None
                                                    },
                                                },
                                            },
                                        },
                                    },
                                },
                            },
                        },
                    },
                },
            },
        },
    }
}

// ---------------------------------------------------------------------
// Round trip: parsing a rendered document gives back the value
// ---------------------------------------------------------------------

spec fn spec_pow10(k: nat) -> nat
    decreases k,
{
    if k == 0 {
        1
    } else {
        10 * spec_pow10((k - 1) as nat)
    }
}

/// The value of the digit run `t[i..j)` read onto an accumulator.
spec fn spec_digits_val(t: Seq<char>, i: int, j: int, acc: nat) -> nat
    decreases j - i,
{
    if i >= j {
        acc
    } else {
        spec_digits_val(t, i + 1, j, (acc * 10 + spec_digit_val(t[i])) as nat)
    }
}

proof fn lemma_scan_digits_eq_val(t: Seq<char>, i: int, j: int, acc: nat)
    requires
        0 <= i <= j <= t.len(),
        forall|k: int| i <= k < j ==> spec_is_digit(t[k]),
        j == t.len() || !spec_is_digit(t[j]),
    ensures
        spec_scan_digits(t, i, acc) == (spec_digits_val(t, i, j, acc), j),
    decreases j - i,
{
    if i < j {
        lemma_scan_digits_eq_val(t, i + 1, j, (acc * 10 + spec_digit_val(t[i])) as nat);
    }
}

proof fn lemma_digits_val_snoc(t: Seq<char>, i: int, j: int, acc: nat)
    requires
        i < j,
        forall|k: int| i <= k < j ==> spec_is_digit(t[k]),
    ensures
        spec_digits_val(t, i, j, acc) == spec_digits_val(t, i, j - 1, acc) * 10 + spec_digit_val(
            t[j - 1],
        ),
    decreases j - i,
{
    if i + 1 < j {
        lemma_digits_val_snoc(t, i + 1, j, (acc * 10 + spec_digit_val(t[i])) as nat);
    } else {
        let acc1 = (acc * 10 + spec_digit_val(t[i])) as nat;
        assert(spec_digits_val(t, i + 1, j, acc1) == acc1);
        assert(spec_digits_val(t, i, j - 1, acc) == acc);
    }
}

proof fn lemma_dec_val(t: Seq<char>, i: int, n: nat, acc: nat)
    requires
        0 <= i,
        i + spec_dec(n).len() <= t.len(),
        t.subrange(i, i + spec_dec(n).len()) == spec_dec(n),
    ensures
        spec_digits_val(t, i, i + spec_dec(n).len(), acc) == acc * spec_pow10(spec_dec(n).len())
            + n,
    decreases n,
{
    lemma_dec_digits(n);
    let ln = spec_dec(n).len() as int;
    if n < 10 {
        assert(t.subrange(i, i + ln)[0] == spec_dec(n)[0]);
        assert(t[i] == spec_dec(n)[0]);
        assert(spec_digit_val(t[i]) == n);
        assert(spec_pow10(0) == 1);
        assert(spec_pow10(1) == 10);
        let acc1 = (acc * 10 + spec_digit_val(t[i])) as nat;
        assert(spec_digits_val(t, i + 1, i + 1, acc1) == acc1);
    } else {
        let l1 = spec_dec(n / 10).len() as int;
        assert(ln == l1 + 1);
        assert forall|k: int| 0 <= k < l1 implies #[trigger] t.subrange(i, i + l1)[k] == spec_dec(
            n / 10,
        )[k] by {
            assert(t.subrange(i, i + ln)[k] == spec_dec(n)[k]);
            assert(spec_dec(n)[k] == spec_dec(n / 10)[k]);
        }
        assert(t.subrange(i, i + l1) =~= spec_dec(n / 10));
        lemma_dec_val(t, i, n / 10, acc);
        assert forall|k: int| i <= k < i + ln implies spec_is_digit(t[k]) by {
            assert(t.subrange(i, i + ln)[k - i] == spec_dec(n)[k - i]);
            assert(t[k] == spec_dec(n)[k - i]);
        }
        lemma_digits_val_snoc(t, i, i + ln, acc);
        assert(t.subrange(i, i + ln)[ln - 1] == spec_dec(n)[ln - 1]);
        assert(t[i + ln - 1] == spec_dec(n)[ln - 1]);
        assert(spec_digit_val(t[i + ln - 1]) == n % 10);
        let p1 = spec_pow10(l1 as nat);
        assert(spec_pow10(ln as nat) == 10 * p1);
        assert((acc * p1 + n / 10) * 10 + n % 10 == acc * (10 * p1) + ((n / 10) * 10 + n % 10))
            by (nonlinear_arith);
        vstd::arithmetic::div_mod::lemma_fundamental_div_mod(n as int, 10);
    }
}

/// A decimal rendering placed in context parses back to its value.
proof fn lemma_parse_uint_of_dec(t: Seq<char>, i: int, n: nat)
    requires
        0 <= i,
        i + spec_dec(n).len() <= t.len(),
        t.subrange(i, i + spec_dec(n).len()) == spec_dec(n),
        i + spec_dec(n).len() == t.len() || !spec_is_digit(t[i + spec_dec(n).len()]),
    ensures
        spec_parse_uint(t, i) == Some((n, i + spec_dec(n).len())),
{
    lemma_dec_digits(n);
    let ln = spec_dec(n).len() as int;
    assert forall|k: int| i <= k < i + ln implies spec_is_digit(t[k]) by {
        assert(t.subrange(i, i + ln)[k - i] == spec_dec(n)[k - i]);
        assert(t[k] == spec_dec(n)[k - i]);
    }
    assert(t.subrange(i, i + ln)[0] == spec_dec(n)[0]);
    assert(t[i] == spec_dec(n)[0]);
    lemma_scan_digits_eq_val(t, i, i + ln, 0);
    lemma_dec_val(t, i, n, 0);
}

proof fn lemma_parse_int_of_dec_int(t: Seq<char>, i: int, v: int)
    requires
        0 <= i,
        i + spec_dec_int(v).len() <= t.len(),
        t.subrange(i, i + spec_dec_int(v).len()) == spec_dec_int(v),
        i + spec_dec_int(v).len() == t.len() || !spec_is_digit(t[i + spec_dec_int(v).len()]),
    ensures
        spec_parse_int(t, i) == Some((v, i + spec_dec_int(v).len())),
{
    let lv = spec_dec_int(v).len() as int;
    if v < 0 {
        let mag = (-v) as nat;
        assert(t.subrange(i, i + lv)[0] == spec_dec_int(v)[0]);
        assert(t[i] == '-');
        assert forall|k: int| 0 <= k < spec_dec(mag).len() implies t.subrange(
            i + 1,
            i + 1 + spec_dec(mag).len() as int,
        )[k] == spec_dec(mag)[k] by {
            assert(t.subrange(i, i + lv)[k + 1] == spec_dec_int(v)[k + 1]);
            assert(spec_dec_int(v)[k + 1] == spec_dec(mag)[k]);
        }
        assert(t.subrange(i + 1, i + 1 + spec_dec(mag).len()) =~= spec_dec(mag));
        lemma_parse_uint_of_dec(t, i + 1, mag);
    } else {
        assert(t.subrange(i, i + spec_dec(v as nat).len()) == spec_dec(v as nat));
        lemma_dec_digits(v as nat);
        assert(t.subrange(i, i + lv)[0] == spec_dec(v as nat)[0]);
        assert(t[i] == spec_dec(v as nat)[0]);
        assert(spec_is_digit(t[i]));
        assert(t[i] != '-');
        lemma_parse_uint_of_dec(t, i, v as nat);
    }
}

proof fn lemma_parse_opt_int_round(t: Seq<char>, i: int, o: Option<i64>)
    requires
        0 <= i,
        i + spec_opt_int(o).len() <= t.len(),
        t.subrange(i, i + spec_opt_int(o).len()) == spec_opt_int(o),
        i + spec_opt_int(o).len() == t.len() || !spec_is_digit(t[i + spec_opt_int(o).len()]),
    ensures
        spec_parse_opt_int(t, i) == Some((o, i + spec_opt_int(o).len())),
{
    reveal_strlit("null");
    match o {
        None => {
            assert(spec_opt_int(o) == "null"@);
            assert(spec_expect(t, i, "null"@) == Some(i + 4));
        },
        Some(v) => {
            let lo = spec_opt_int(o).len() as int;
            assert(t.subrange(i, i + lo)[0] == spec_opt_int(o)[0]);
            assert(t[i] == spec_opt_int(o)[0]);
            if v >= 0 {
                lemma_dec_digits(v as nat);
            }
            assert(t[i] != 'n');
            if spec_expect(t, i, "null"@) is Some {
                assert(t.subrange(i, i + 4)[0] == 'n');
                assert(false);
            }
            lemma_parse_int_of_dec_int(t, i, v as int);
        },
    }
}

proof fn lemma_scan_string_of_esc(t: Seq<char>, i: int, s: Seq<char>, acc: Seq<char>)
    requires
        0 <= i,
        i + spec_esc(s).len() < t.len(),
        t.subrange(i, i + spec_esc(s).len()) == spec_esc(s),
        t[i + spec_esc(s).len()] == '"',
    ensures
        spec_scan_string(t, i, acc) == Some((acc + s, i + spec_esc(s).len() + 1)),
    decreases s.len(),
{
    if s.len() == 0 {
        assert(spec_esc(s).len() == 0);
        assert(acc + s =~= acc);
    } else {
        let c = s[0];
        let rest = s.drop_first();
        assert(spec_esc(s) == spec_esc_char(c) + spec_esc(rest));
        let le = spec_esc(s).len() as int;
        let lr = spec_esc(rest).len() as int;
        if c == '"' || c == '\\' {
            assert(t.subrange(i, i + le)[0] == spec_esc(s)[0]);
            assert(t[i] == '\\');
            assert(t.subrange(i, i + le)[1] == spec_esc(s)[1]);
            assert(t[i + 1] == c);
            assert forall|k: int| 0 <= k < lr implies t.subrange(i + 2, i + 2 + lr)[k]
                == spec_esc(rest)[k] by {
                assert(t.subrange(i, i + le)[k + 2] == spec_esc(s)[k + 2]);
                assert(spec_esc(s)[k + 2] == spec_esc(rest)[k]);
            }
            assert(t.subrange(i + 2, i + 2 + lr) =~= spec_esc(rest));
            lemma_scan_string_of_esc(t, i + 2, rest, acc.push(c));
            assert(acc.push(c) + rest =~= acc + s);
        } else {
            assert(t.subrange(i, i + le)[0] == spec_esc(s)[0]);
            assert(t[i] == c);
            assert forall|k: int| 0 <= k < lr implies t.subrange(i + 1, i + 1 + lr)[k]
                == spec_esc(rest)[k] by {
                assert(t.subrange(i, i + le)[k + 1] == spec_esc(s)[k + 1]);
                assert(spec_esc(s)[k + 1] == spec_esc(rest)[k]);
            }
            assert(t.subrange(i + 1, i + 1 + lr) =~= spec_esc(rest));
            lemma_scan_string_of_esc(t, i + 1, rest, acc.push(c));
            assert(acc.push(c) + rest =~= acc + s);
        }
    }
}

proof fn lemma_parse_qstr_of_qstr(t: Seq<char>, i: int, s: Seq<char>)
    requires
        0 <= i,
        i + spec_qstr(s).len() <= t.len(),
        t.subrange(i, i + spec_qstr(s).len()) == spec_qstr(s),
    ensures
        spec_parse_qstr(t, i) == Some((s, i + spec_qstr(s).len())),
{
    let lq = spec_qstr(s).len() as int;
    let le = spec_esc(s).len() as int;
    assert(t.subrange(i, i + lq)[0] == spec_qstr(s)[0]);
    assert(t[i] == '"');
    assert(t.subrange(i, i + lq)[1 + le] == spec_qstr(s)[1 + le]);
    assert(t[i + 1 + le] == '"');
    assert forall|k: int| 0 <= k < le implies t.subrange(i + 1, i + 1 + le)[k] == spec_esc(s)[k]
    by {
        assert(t.subrange(i, i + lq)[k + 1] == spec_qstr(s)[k + 1]);
        assert(spec_qstr(s)[k + 1] == spec_esc(s)[k]);
    }
    assert(t.subrange(i + 1, i + 1 + le) =~= spec_esc(s));
    lemma_scan_string_of_esc(t, i + 1, s, Seq::empty());
    assert(Seq::<char>::empty() + s =~= s);
}

proof fn lemma_scan_strs_of_body(t: Seq<char>, i: int, xs: Seq<Seq<char>>, acc: Seq<Seq<char>>)
    requires
        xs.len() >= 1,
        0 <= i,
        i + spec_arr_body(xs).len() < t.len(),
        t.subrange(i, i + spec_arr_body(xs).len()) == spec_arr_body(xs),
        t[i + spec_arr_body(xs).len()] == ']',
    ensures
        spec_scan_strs(t, i, acc) == Some((acc + xs, i + spec_arr_body(xs).len() + 1)),
    decreases xs.len(),
{
    let body = spec_arr_body(xs);
    let lb = body.len() as int;
    let q = spec_qstr(xs[0]);
    let lq = q.len() as int;
    if xs.len() == 1 {
        assert(body == q);
        lemma_parse_qstr_of_qstr(t, i, xs[0]);
        assert(acc.push(xs[0]) =~= acc + xs) by {
            assert(xs =~= seq![xs[0]]);
        }
    } else {
        let rest = xs.drop_first();
        let lr = spec_arr_body(rest).len() as int;
        assert(body == q + seq![','] + spec_arr_body(rest));
        assert forall|k: int| 0 <= k < lq implies t.subrange(i, i + lq)[k] == q[k] by {
            assert(t.subrange(i, i + lb)[k] == body[k]);
            assert(body[k] == q[k]);
        }
        assert(t.subrange(i, i + lq) =~= q);
        lemma_parse_qstr_of_qstr(t, i, xs[0]);
        let j = i + lq;
        assert(t.subrange(i, i + lb)[lq] == body[lq]);
        assert(body[lq] == ',');
        assert(t[j] == ',');
        assert forall|k: int| 0 <= k < lr implies t.subrange(j + 1, j + 1 + lr)[k]
            == spec_arr_body(rest)[k] by {
            assert(t.subrange(i, i + lb)[lq + 1 + k] == body[lq + 1 + k]);
            assert(body[lq + 1 + k] == spec_arr_body(rest)[k]);
        }
        assert(t.subrange(j + 1, j + 1 + lr) =~= spec_arr_body(rest));
        lemma_scan_strs_of_body(t, j + 1, rest, acc.push(xs[0]));
        assert(acc.push(xs[0]) + rest =~= acc + xs);
    }
}

proof fn lemma_parse_arr_of_arr(t: Seq<char>, i: int, xs: Seq<Seq<char>>)
    requires
        0 <= i,
        i + spec_arr(xs).len() <= t.len(),
        t.subrange(i, i + spec_arr(xs).len()) == spec_arr(xs),
    ensures
        spec_parse_arr(t, i) == Some((xs, i + spec_arr(xs).len())),
{
    let body = spec_arr_body(xs);
    let lb = body.len() as int;
    let la = spec_arr(xs).len() as int;
    assert(t.subrange(i, i + la)[0] == spec_arr(xs)[0]);
    assert(t[i] == '[');
    if xs.len() == 0 {
        assert(body.len() == 0);
        assert(t.subrange(i, i + la)[1] == spec_arr(xs)[1]);
        assert(t[i + 1] == ']');
        assert(xs =~= Seq::<Seq<char>>::empty());
    } else {
        assert(body[0] == spec_qstr(xs[0])[0]);
        assert(t.subrange(i, i + la)[1] == spec_arr(xs)[1]);
        assert(spec_arr(xs)[1] == body[0]);
        assert(t[i + 1] == '"');
        assert forall|k: int| 0 <= k < lb implies t.subrange(i + 1, i + 1 + lb)[k] == body[k]
        by {
            assert(t.subrange(i, i + la)[k + 1] == spec_arr(xs)[k + 1]);
            assert(spec_arr(xs)[k + 1] == body[k]);
        }
        assert(t.subrange(i + 1, i + 1 + lb) =~= body);
        assert(t.subrange(i, i + la)[1 + lb] == spec_arr(xs)[1 + lb]);
        assert(spec_arr(xs)[1 + lb] == ']');
        assert(t[i + 1 + lb] == ']');
        lemma_scan_strs_of_body(t, i + 1, xs, Seq::empty());
        assert(Seq::<Seq<char>>::empty() + xs =~= xs);
    }
}

proof fn lemma_prefix_subrange(x: Seq<char>, y: Seq<char>, a: int, b: int)
    requires
        0 <= a <= b <= x.len(),
    ensures
        (x + y).subrange(a, b) == x.subrange(a, b),
{
    assert((x + y).subrange(a, b) =~= x.subrange(a, b));
}

proof fn lemma_suffix_subrange(x: Seq<char>, y: Seq<char>)
    ensures
        (x + y).subrange(x.len() as int, (x.len() + y.len()) as int) == y,
{
    assert((x + y).subrange(x.len() as int, (x.len() + y.len()) as int) =~= y);
}

/// Law: parsing the rendered document of any state model gives back that
/// model, field for field.
#[verifier::rlimit(100)]
#[verifier::spinoff_prover]
pub proof fn lemma_json_round_trip(m: StateModel)
    ensures
        spec_parse_state(spec_json_of(m)) == Some(m),
{
    reveal_strlit("{\"xp\":");
    reveal_strlit(",\"level\":");
    reveal_strlit(",\"level_name\":");
    reveal_strlit(",\"commits_total\":");
    reveal_strlit(",\"commit_streak_days\":");
    reveal_strlit(",\"last_commit_date\":");
    reveal_strlit(",\"sessions_total\":");
    reveal_strlit(",\"achievements_unlocked\":");
    reveal_strlit(",\"tools_used\":");
    reveal_strlit(",\"last_event_at\":");
    reveal_strlit(",\"last_bash_exit\":");
    reveal_strlit("}");
    let t = spec_json_of(m);
    let k1 = "{\"xp\":"@;
    let d1 = spec_dec(m.xp as nat);
    let k2 = ",\"level\":"@;
    let d2 = spec_dec(m.level as nat);
    let k3 = ",\"level_name\":"@;
    let d3 = spec_qstr(m.level_name);
    let k4 = ",\"commits_total\":"@;
    let d4 = spec_dec(m.commits_total as nat);
    let k5 = ",\"commit_streak_days\":"@;
    let d5 = spec_dec(m.commit_streak_days as nat);
    let k6 = ",\"last_commit_date\":"@;
    let d6 = spec_opt_int(m.last_commit_date);
    let k7 = ",\"sessions_total\":"@;
    let d7 = spec_dec(m.sessions_total as nat);
    let k8 = ",\"achievements_unlocked\":"@;
    let d8 = spec_arr(m.achievements_unlocked);
    let k9 = ",\"tools_used\":"@;
    let d9 = spec_arr(m.tools_used);
    let k10 = ",\"last_event_at\":"@;
    let d10 = spec_opt_int(m.last_event_at);
    let k11 = ",\"last_bash_exit\":"@;
    let d11 = spec_opt_int(m.last_bash_exit);
    let k12 = "}"@;
    let u1 = k1;
    let u2 = u1 + d1;
    let u3 = u2 + k2;
    let u4 = u3 + d2;
    let u5 = u4 + k3;
    let u6 = u5 + d3;
    let u7 = u6 + k4;
    let u8 = u7 + d4;
    let u9 = u8 + k5;
    let u10 = u9 + d5;
    let u11 = u10 + k6;
    let u12 = u11 + d6;
    let u13 = u12 + k7;
    let u14 = u13 + d7;
    let u15 = u14 + k8;
    let u16 = u15 + d8;
    let u17 = u16 + k9;
    let u18 = u17 + d9;
    let u19 = u18 + k10;
    let u20 = u19 + d10;
    let u21 = u20 + k11;
    let u22 = u21 + d11;
    let u23 = u22 + k12;
    assert(t =~= u23);
    let b0 = 0int;
    let b1 = b0 + k1.len();
    let b2 = b1 + d1.len();
    let b3 = b2 + k2.len();
    let b4 = b3 + d2.len();
    let b5 = b4 + k3.len();
    let b6 = b5 + d3.len();
    let b7 = b6 + k4.len();
    let b8 = b7 + d4.len();
    let b9 = b8 + k5.len();
    let b10 = b9 + d5.len();
    let b11 = b10 + k6.len();
    let b12 = b11 + d6.len();
    let b13 = b12 + k7.len();
    let b14 = b13 + d7.len();
    let b15 = b14 + k8.len();
    let b16 = b15 + d8.len();
    let b17 = b16 + k9.len();
    let b18 = b17 + d9.len();
    let b19 = b18 + k10.len();
    let b20 = b19 + d10.len();
    let b21 = b20 + k11.len();
    let b22 = b21 + d11.len();
    let b23 = b22 + k12.len();
    assert(t.len() == b23);
    assert(u1.subrange(b0, b1) =~= k1);
    lemma_prefix_subrange(u1, d1, b0, b1);
    lemma_prefix_subrange(u2, k2, b0, b1);
    lemma_prefix_subrange(u3, d2, b0, b1);
    lemma_prefix_subrange(u4, k3, b0, b1);
    lemma_prefix_subrange(u5, d3, b0, b1);
    lemma_prefix_subrange(u6, k4, b0, b1);
    lemma_prefix_subrange(u7, d4, b0, b1);
    lemma_prefix_subrange(u8, k5, b0, b1);
    lemma_prefix_subrange(u9, d5, b0, b1);
    lemma_prefix_subrange(u10, k6, b0, b1);
    lemma_prefix_subrange(u11, d6, b0, b1);
    lemma_prefix_subrange(u12, k7, b0, b1);
    lemma_prefix_subrange(u13, d7, b0, b1);
    lemma_prefix_subrange(u14, k8, b0, b1);
    lemma_prefix_subrange(u15, d8, b0, b1);
    lemma_prefix_subrange(u16, k9, b0, b1);
    lemma_prefix_subrange(u17, d9, b0, b1);
    lemma_prefix_subrange(u18, k10, b0, b1);
    lemma_prefix_subrange(u19, d10, b0, b1);
    lemma_prefix_subrange(u20, k11, b0, b1);
    lemma_prefix_subrange(u21, d11, b0, b1);
    lemma_prefix_subrange(u22, k12, b0, b1);
    assert(t.subrange(b0, b1) == k1);
    lemma_suffix_subrange(u1, d1);
    assert(u2.subrange(b1, b2) == d1);
    lemma_prefix_subrange(u2, k2, b1, b2);
    lemma_prefix_subrange(u3, d2, b1, b2);
    lemma_prefix_subrange(u4, k3, b1, b2);
    lemma_prefix_subrange(u5, d3, b1, b2);
    lemma_prefix_subrange(u6, k4, b1, b2);
    lemma_prefix_subrange(u7, d4, b1, b2);
    lemma_prefix_subrange(u8, k5, b1, b2);
    lemma_prefix_subrange(u9, d5, b1, b2);
    lemma_prefix_subrange(u10, k6, b1, b2);
    lemma_prefix_subrange(u11, d6, b1, b2);
    lemma_prefix_subrange(u12, k7, b1, b2);
    lemma_prefix_subrange(u13, d7, b1, b2);
    lemma_prefix_subrange(u14, k8, b1, b2);
    lemma_prefix_subrange(u15, d8, b1, b2);
    lemma_prefix_subrange(u16, k9, b1, b2);
    lemma_prefix_subrange(u17, d9, b1, b2);
    lemma_prefix_subrange(u18, k10, b1, b2);
    lemma_prefix_subrange(u19, d10, b1, b2);
    lemma_prefix_subrange(u20, k11, b1, b2);
    lemma_prefix_subrange(u21, d11, b1, b2);
    lemma_prefix_subrange(u22, k12, b1, b2);
    assert(t.subrange(b1, b2) == d1);
    lemma_suffix_subrange(u2, k2);
    assert(u3.subrange(b2, b3) == k2);
    lemma_prefix_subrange(u3, d2, b2, b3);
    lemma_prefix_subrange(u4, k3, b2, b3);
    lemma_prefix_subrange(u5, d3, b2, b3);
    lemma_prefix_subrange(u6, k4, b2, b3);
    lemma_prefix_subrange(u7, d4, b2, b3);
    lemma_prefix_subrange(u8, k5, b2, b3);
    lemma_prefix_subrange(u9, d5, b2, b3);
    lemma_prefix_subrange(u10, k6, b2, b3);
    lemma_prefix_subrange(u11, d6, b2, b3);
    lemma_prefix_subrange(u12, k7, b2, b3);
    lemma_prefix_subrange(u13, d7, b2, b3);
    lemma_prefix_subrange(u14, k8, b2, b3);
    lemma_prefix_subrange(u15, d8, b2, b3);
    lemma_prefix_subrange(u16, k9, b2, b3);
    lemma_prefix_subrange(u17, d9, b2, b3);
    lemma_prefix_subrange(u18, k10, b2, b3);
    lemma_prefix_subrange(u19, d10, b2, b3);
    lemma_prefix_subrange(u20, k11, b2, b3);
    lemma_prefix_subrange(u21, d11, b2, b3);
    lemma_prefix_subrange(u22, k12, b2, b3);
    assert(t.subrange(b2, b3) == k2);
    lemma_suffix_subrange(u3, d2);
    assert(u4.subrange(b3, b4) == d2);
    lemma_prefix_subrange(u4, k3, b3, b4);
    lemma_prefix_subrange(u5, d3, b3, b4);
    lemma_prefix_subrange(u6, k4, b3, b4);
    lemma_prefix_subrange(u7, d4, b3, b4);
    lemma_prefix_subrange(u8, k5, b3, b4);
    lemma_prefix_subrange(u9, d5, b3, b4);
    lemma_prefix_subrange(u10, k6, b3, b4);
    lemma_prefix_subrange(u11, d6, b3, b4);
    lemma_prefix_subrange(u12, k7, b3, b4);
    lemma_prefix_subrange(u13, d7, b3, b4);
    lemma_prefix_subrange(u14, k8, b3, b4);
    lemma_prefix_subrange(u15, d8, b3, b4);
    lemma_prefix_subrange(u16, k9, b3, b4);
    lemma_prefix_subrange(u17, d9, b3, b4);
    lemma_prefix_subrange(u18, k10, b3, b4);
    lemma_prefix_subrange(u19, d10, b3, b4);
    lemma_prefix_subrange(u20, k11, b3, b4);
    lemma_prefix_subrange(u21, d11, b3, b4);
    lemma_prefix_subrange(u22, k12, b3, b4);
    assert(t.subrange(b3, b4) == d2);
    lemma_suffix_subrange(u4, k3);
    assert(u5.subrange(b4, b5) == k3);
    lemma_prefix_subrange(u5, d3, b4, b5);
    lemma_prefix_subrange(u6, k4, b4, b5);
    lemma_prefix_subrange(u7, d4, b4, b5);
    lemma_prefix_subrange(u8, k5, b4, b5);
    lemma_prefix_subrange(u9, d5, b4, b5);
    lemma_prefix_subrange(u10, k6, b4, b5);
    lemma_prefix_subrange(u11, d6, b4, b5);
    lemma_prefix_subrange(u12, k7, b4, b5);
    lemma_prefix_subrange(u13, d7, b4, b5);
    lemma_prefix_subrange(u14, k8, b4, b5);
    lemma_prefix_subrange(u15, d8, b4, b5);
    lemma_prefix_subrange(u16, k9, b4, b5);
    lemma_prefix_subrange(u17, d9, b4, b5);
    lemma_prefix_subrange(u18, k10, b4, b5);
    lemma_prefix_subrange(u19, d10, b4, b5);
    lemma_prefix_subrange(u20, k11, b4, b5);
    lemma_prefix_subrange(u21, d11, b4, b5);
    lemma_prefix_subrange(u22, k12, b4, b5);
    assert(t.subrange(b4, b5) == k3);
    lemma_suffix_subrange(u5, d3);
    assert(u6.subrange(b5, b6) == d3);
    lemma_prefix_subrange(u6, k4, b5, b6);
    lemma_prefix_subrange(u7, d4, b5, b6);
    lemma_prefix_subrange(u8, k5, b5, b6);
    lemma_prefix_subrange(u9, d5, b5, b6);
    lemma_prefix_subrange(u10, k6, b5, b6);
    lemma_prefix_subrange(u11, d6, b5, b6);
    lemma_prefix_subrange(u12, k7, b5, b6);
    lemma_prefix_subrange(u13, d7, b5, b6);
    lemma_prefix_subrange(u14, k8, b5, b6);
    lemma_prefix_subrange(u15, d8, b5, b6);
    lemma_prefix_subrange(u16, k9, b5, b6);
    lemma_prefix_subrange(u17, d9, b5, b6);
    lemma_prefix_subrange(u18, k10, b5, b6);
    lemma_prefix_subrange(u19, d10, b5, b6);
    lemma_prefix_subrange(u20, k11, b5, b6);
    lemma_prefix_subrange(u21, d11, b5, b6);
    lemma_prefix_subrange(u22, k12, b5, b6);
    assert(t.subrange(b5, b6) == d3);
    lemma_suffix_subrange(u6, k4);
    assert(u7.subrange(b6, b7) == k4);
    lemma_prefix_subrange(u7, d4, b6, b7);
    lemma_prefix_subrange(u8, k5, b6, b7);
    lemma_prefix_subrange(u9, d5, b6, b7);
    lemma_prefix_subrange(u10, k6, b6, b7);
    lemma_prefix_subrange(u11, d6, b6, b7);
    lemma_prefix_subrange(u12, k7, b6, b7);
    lemma_prefix_subrange(u13, d7, b6, b7);
    lemma_prefix_subrange(u14, k8, b6, b7);
    lemma_prefix_subrange(u15, d8, b6, b7);
    lemma_prefix_subrange(u16, k9, b6, b7);
    lemma_prefix_subrange(u17, d9, b6, b7);
    lemma_prefix_subrange(u18, k10, b6, b7);
    lemma_prefix_subrange(u19, d10, b6, b7);
    lemma_prefix_subrange(u20, k11, b6, b7);
    lemma_prefix_subrange(u21, d11, b6, b7);
    lemma_prefix_subrange(u22, k12, b6, b7);
    assert(t.subrange(b6, b7) == k4);
    lemma_suffix_subrange(u7, d4);
    assert(u8.subrange(b7, b8) == d4);
    lemma_prefix_subrange(u8, k5, b7, b8);
    lemma_prefix_subrange(u9, d5, b7, b8);
    lemma_prefix_subrange(u10, k6, b7, b8);
    lemma_prefix_subrange(u11, d6, b7, b8);
    lemma_prefix_subrange(u12, k7, b7, b8);
    lemma_prefix_subrange(u13, d7, b7, b8);
    lemma_prefix_subrange(u14, k8, b7, b8);
    lemma_prefix_subrange(u15, d8, b7, b8);
    lemma_prefix_subrange(u16, k9, b7, b8);
    lemma_prefix_subrange(u17, d9, b7, b8);
    lemma_prefix_subrange(u18, k10, b7, b8);
    lemma_prefix_subrange(u19, d10, b7, b8);
    lemma_prefix_subrange(u20, k11, b7, b8);
    lemma_prefix_subrange(u21, d11, b7, b8);
    lemma_prefix_subrange(u22, k12, b7, b8);
    assert(t.subrange(b7, b8) == d4);
    lemma_suffix_subrange(u8, k5);
    assert(u9.subrange(b8, b9) == k5);
    lemma_prefix_subrange(u9, d5, b8, b9);
    lemma_prefix_subrange(u10, k6, b8, b9);
    lemma_prefix_subrange(u11, d6, b8, b9);
    lemma_prefix_subrange(u12, k7, b8, b9);
    lemma_prefix_subrange(u13, d7, b8, b9);
    lemma_prefix_subrange(u14, k8, b8, b9);
    lemma_prefix_subrange(u15, d8, b8, b9);
    lemma_prefix_subrange(u16, k9, b8, b9);
    lemma_prefix_subrange(u17, d9, b8, b9);
    lemma_prefix_subrange(u18, k10, b8, b9);
    lemma_prefix_subrange(u19, d10, b8, b9);
    lemma_prefix_subrange(u20, k11, b8, b9);
    lemma_prefix_subrange(u21, d11, b8, b9);
    lemma_prefix_subrange(u22, k12, b8, b9);
    assert(t.subrange(b8, b9) == k5);
    lemma_suffix_subrange(u9, d5);
    assert(u10.subrange(b9, b10) == d5);
    lemma_prefix_subrange(u10, k6, b9, b10);
    lemma_prefix_subrange(u11, d6, b9, b10);
    lemma_prefix_subrange(u12, k7, b9, b10);
    lemma_prefix_subrange(u13, d7, b9, b10);
    lemma_prefix_subrange(u14, k8, b9, b10);
    lemma_prefix_subrange(u15, d8, b9, b10);
    lemma_prefix_subrange(u16, k9, b9, b10);
    lemma_prefix_subrange(u17, d9, b9, b10);
    lemma_prefix_subrange(u18, k10, b9, b10);
    lemma_prefix_subrange(u19, d10, b9, b10);
    lemma_prefix_subrange(u20, k11, b9, b10);
    lemma_prefix_subrange(u21, d11, b9, b10);
    lemma_prefix_subrange(u22, k12, b9, b10);
    assert(t.subrange(b9, b10) == d5);
    lemma_suffix_subrange(u10, k6);
    assert(u11.subrange(b10, b11) == k6);
    lemma_prefix_subrange(u11, d6, b10, b11);
    lemma_prefix_subrange(u12, k7, b10, b11);
    lemma_prefix_subrange(u13, d7, b10, b11);
    lemma_prefix_subrange(u14, k8, b10, b11);
    lemma_prefix_subrange(u15, d8, b10, b11);
    lemma_prefix_subrange(u16, k9, b10, b11);
    lemma_prefix_subrange(u17, d9, b10, b11);
    lemma_prefix_subrange(u18, k10, b10, b11);
    lemma_prefix_subrange(u19, d10, b10, b11);
    lemma_prefix_subrange(u20, k11, b10, b11);
    lemma_prefix_subrange(u21, d11, b10, b11);
    lemma_prefix_subrange(u22, k12, b10, b11);
    assert(t.subrange(b10, b11) == k6);
    lemma_suffix_subrange(u11, d6);
    assert(u12.subrange(b11, b12) == d6);
    lemma_prefix_subrange(u12, k7, b11, b12);
    lemma_prefix_subrange(u13, d7, b11, b12);
    lemma_prefix_subrange(u14, k8, b11, b12);
    lemma_prefix_subrange(u15, d8, b11, b12);
    lemma_prefix_subrange(u16, k9, b11, b12);
    lemma_prefix_subrange(u17, d9, b11, b12);
    lemma_prefix_subrange(u18, k10, b11, b12);
    lemma_prefix_subrange(u19, d10, b11, b12);
    lemma_prefix_subrange(u20, k11, b11, b12);
    lemma_prefix_subrange(u21, d11, b11, b12);
    lemma_prefix_subrange(u22, k12, b11, b12);
    assert(t.subrange(b11, b12) == d6);
    lemma_suffix_subrange(u12, k7);
    assert(u13.subrange(b12, b13) == k7);
    lemma_prefix_subrange(u13, d7, b12, b13);
    lemma_prefix_subrange(u14, k8, b12, b13);
    lemma_prefix_subrange(u15, d8, b12, b13);
    lemma_prefix_subrange(u16, k9, b12, b13);
    lemma_prefix_subrange(u17, d9, b12, b13);
    lemma_prefix_subrange(u18, k10, b12, b13);
    lemma_prefix_subrange(u19, d10, b12, b13);
    lemma_prefix_subrange(u20, k11, b12, b13);
    lemma_prefix_subrange(u21, d11, b12, b13);
    lemma_prefix_subrange(u22, k12, b12, b13);
    assert(t.subrange(b12, b13) == k7);
    lemma_suffix_subrange(u13, d7);
    assert(u14.subrange(b13, b14) == d7);
    lemma_prefix_subrange(u14, k8, b13, b14);
    lemma_prefix_subrange(u15, d8, b13, b14);
    lemma_prefix_subrange(u16, k9, b13, b14);
    lemma_prefix_subrange(u17, d9, b13, b14);
    lemma_prefix_subrange(u18, k10, b13, b14);
    lemma_prefix_subrange(u19, d10, b13, b14);
    lemma_prefix_subrange(u20, k11, b13, b14);
    lemma_prefix_subrange(u21, d11, b13, b14);
    lemma_prefix_subrange(u22, k12, b13, b14);
    assert(t.subrange(b13, b14) == d7);
    lemma_suffix_subrange(u14, k8);
    assert(u15.subrange(b14, b15) == k8);
    lemma_prefix_subrange(u15, d8, b14, b15);
    lemma_prefix_subrange(u16, k9, b14, b15);
    lemma_prefix_subrange(u17, d9, b14, b15);
    lemma_prefix_subrange(u18, k10, b14, b15);
    lemma_prefix_subrange(u19, d10, b14, b15);
    lemma_prefix_subrange(u20, k11, b14, b15);
    lemma_prefix_subrange(u21, d11, b14, b15);
    lemma_prefix_subrange(u22, k12, b14, b15);
    assert(t.subrange(b14, b15) == k8);
    lemma_suffix_subrange(u15, d8);
    assert(u16.subrange(b15, b16) == d8);
    lemma_prefix_subrange(u16, k9, b15, b16);
    lemma_prefix_subrange(u17, d9, b15, b16);
    lemma_prefix_subrange(u18, k10, b15, b16);
    lemma_prefix_subrange(u19, d10, b15, b16);
    lemma_prefix_subrange(u20, k11, b15, b16);
    lemma_prefix_subrange(u21, d11, b15, b16);
    lemma_prefix_subrange(u22, k12, b15, b16);
    assert(t.subrange(b15, b16) == d8);
    lemma_suffix_subrange(u16, k9);
    assert(u17.subrange(b16, b17) == k9);
    lemma_prefix_subrange(u17, d9, b16, b17);
    lemma_prefix_subrange(u18, k10, b16, b17);
    lemma_prefix_subrange(u19, d10, b16, b17);
    lemma_prefix_subrange(u20, k11, b16, b17);
    lemma_prefix_subrange(u21, d11, b16, b17);
    lemma_prefix_subrange(u22, k12, b16, b17);
    assert(t.subrange(b16, b17) == k9);
    lemma_suffix_subrange(u17, d9);
    assert(u18.subrange(b17, b18) == d9);
    lemma_prefix_subrange(u18, k10, b17, b18);
    lemma_prefix_subrange(u19, d10, b17, b18);
    lemma_prefix_subrange(u20, k11, b17, b18);
    lemma_prefix_subrange(u21, d11, b17, b18);
    lemma_prefix_subrange(u22, k12, b17, b18);
    assert(t.subrange(b17, b18) == d9);
    lemma_suffix_subrange(u18, k10);
    assert(u19.subrange(b18, b19) == k10);
    lemma_prefix_subrange(u19, d10, b18, b19);
    lemma_prefix_subrange(u20, k11, b18, b19);
    lemma_prefix_subrange(u21, d11, b18, b19);
    lemma_prefix_subrange(u22, k12, b18, b19);
    assert(t.subrange(b18, b19) == k10);
    lemma_suffix_subrange(u19, d10);
    assert(u20.subrange(b19, b20) == d10);
    lemma_prefix_subrange(u20, k11, b19, b20);
    lemma_prefix_subrange(u21, d11, b19, b20);
    lemma_prefix_subrange(u22, k12, b19, b20);
    assert(t.subrange(b19, b20) == d10);
    lemma_suffix_subrange(u20, k11);
    assert(u21.subrange(b20, b21) == k11);
    lemma_prefix_subrange(u21, d11, b20, b21);
    lemma_prefix_subrange(u22, k12, b20, b21);
    assert(t.subrange(b20, b21) == k11);
    lemma_suffix_subrange(u21, d11);
    assert(u22.subrange(b21, b22) == d11);
    lemma_prefix_subrange(u22, k12, b21, b22);
    assert(t.subrange(b21, b22) == d11);
    lemma_suffix_subrange(u22, k12);
    assert(u23.subrange(b22, b23) == k12);
    assert(t.subrange(b22, b23) == k12);

    assert(t[b2] == k2[0]) by {
        assert(t.subrange(b2, b3)[0] == k2[0]);
    }
    assert(!spec_is_digit(t[b2]));
    lemma_parse_uint_of_dec(t, b1, m.xp as nat);
    assert(spec_field_u32(t, b0, k1) == Some((m.xp, b2)));
    assert(t[b4] == k3[0]) by {
        assert(t.subrange(b4, b5)[0] == k3[0]);
    }
    assert(!spec_is_digit(t[b4]));
    lemma_parse_uint_of_dec(t, b3, m.level as nat);
    assert(spec_field_u32(t, b2, k2) == Some((m.level, b4)));
    lemma_parse_qstr_of_qstr(t, b5, m.level_name);
    assert(spec_field_qstr(t, b4, k3) == Some((m.level_name, b6)));
    assert(t[b8] == k5[0]) by {
        assert(t.subrange(b8, b9)[0] == k5[0]);
    }
    assert(!spec_is_digit(t[b8]));
    lemma_parse_uint_of_dec(t, b7, m.commits_total as nat);
    assert(spec_field_u32(t, b6, k4) == Some((m.commits_total, b8)));
    assert(t[b10] == k6[0]) by {
        assert(t.subrange(b10, b11)[0] == k6[0]);
    }
    assert(!spec_is_digit(t[b10]));
    lemma_parse_uint_of_dec(t, b9, m.commit_streak_days as nat);
    assert(spec_field_u32(t, b8, k5) == Some((m.commit_streak_days, b10)));
    assert(t[b12] == k7[0]) by {
        assert(t.subrange(b12, b13)[0] == k7[0]);
    }
    assert(!spec_is_digit(t[b12]));
    lemma_parse_opt_int_round(t, b11, m.last_commit_date);
    assert(spec_field_opt_int(t, b10, k6) == Some((m.last_commit_date, b12)));
    assert(t[b14] == k8[0]) by {
        assert(t.subrange(b14, b15)[0] == k8[0]);
    }
    assert(!spec_is_digit(t[b14]));
    lemma_parse_uint_of_dec(t, b13, m.sessions_total as nat);
    assert(spec_field_u32(t, b12, k7) == Some((m.sessions_total, b14)));
    lemma_parse_arr_of_arr(t, b15, m.achievements_unlocked);
    assert(spec_field_arr(t, b14, k8) == Some((m.achievements_unlocked, b16)));
    lemma_parse_arr_of_arr(t, b17, m.tools_used);
    assert(spec_field_arr(t, b16, k9) == Some((m.tools_used, b18)));
    assert(t[b20] == k11[0]) by {
        assert(t.subrange(b20, b21)[0] == k11[0]);
    }
    assert(!spec_is_digit(t[b20]));
    lemma_parse_opt_int_round(t, b19, m.last_event_at);
    assert(spec_field_opt_int(t, b18, k10) == Some((m.last_event_at, b20)));
    assert(t[b22] == k12[0]) by {
        assert(t.subrange(b22, b23)[0] == k12[0]);
    }
    assert(!spec_is_digit(t[b22]));
    lemma_parse_opt_int_round(t, b21, m.last_bash_exit);
    assert(spec_field_opt_int(t, b20, k11) == Some((m.last_bash_exit, b22)));
    assert(spec_expect(t, b22, k12) == Some(b23));
    assert(spec_parse_state(t) =~= Some(m));
}

// ---------------------------------------------------------------------
// Parsing: executable
// ---------------------------------------------------------------------

/// The decimal value of a digit character.
fn digit_val_of(c: char) -> (r: Option<u64>)
    ensures
        match r {
            Some(d) => spec_digit_val(c) == d && d < 10,
            None => spec_digit_val(c) < 0,
        },
{
    match c {
        '0' => Some(0),
        '1' => Some(1),
        '2' => Some(2),
        '3' => Some(3),
        '4' => Some(4),
        '5' => Some(5),
        '6' => Some(6),
        '7' => Some(7),
        '8' => Some(8),
        '9' => Some(9),
        _ => None,
    }
}

/// A digit scan never shrinks its accumulator.
proof fn lemma_scan_digits_lower(t: Seq<char>, i: int, acc: nat)
    ensures
        spec_scan_digits(t, i, acc).0 >= acc,
    decreases t.len() - i,
{
    if 0 <= i < t.len() && spec_is_digit(t[i]) {
        lemma_scan_digits_lower(t, i + 1, (acc * 10 + spec_digit_val(t[i])) as nat);
    }
}

/// Match a literal at position `i`.
fn expect_lit(t: &Vec<char>, i: usize, lit: &str) -> (r: Option<usize>)
    ensures
        match r {
            Some(j) => spec_expect(t@, i as int, lit@) == Some(j as int) && i <= j <= t@.len(),
            None => spec_expect(t@, i as int, lit@) is None,
        },
{
    let l = chars_of(lit);
    if i > t.len() || l.len() > t.len() - i {
        return None;
    }
    if crate::text::matches_here(t, &l, i) {
        Some(i + l.len())
    } else {
        None
    }
}

/// Read an unsigned decimal number at `i`; fails on anything that does
/// not fit in a `u64`.
fn parse_u64_at(t: &Vec<char>, i: usize) -> (r: Option<(u64, usize)>)
    ensures
        match r {
            Some((v, j)) => spec_parse_uint(t@, i as int) == Some((v as nat, j as int)) && i < j
                <= t@.len(),
            None => match spec_parse_uint(t@, i as int) {
                Some((v, _)) => v > u64::MAX,
                None => true,
            },
        },
{
    if i >= t.len() {
        return None;
    }
    let d0 = match digit_val_of(t[i]) {
        Some(d) => d,
        None => {
            return None;
        },
    };
    let mut acc: u64 = d0;
    let mut j: usize = i + 1;
    proof {
        assert(spec_scan_digits(t@, i as int, 0) == spec_scan_digits(t@, i + 1 as int, d0 as nat));
    }
    while j < t.len()
        invariant
            i < j <= t@.len(),
            i < t@.len(),
            spec_is_digit(t@[i as int]),
            spec_scan_digits(t@, i as int, 0) == spec_scan_digits(t@, j as int, acc as nat),
        decreases t@.len() - j,
    {
        let d = match digit_val_of(t[j]) {
            Some(d) => d,
            None => {
                proof {
                    assert(spec_scan_digits(t@, j as int, acc as nat) == (acc as nat, j as int));
                }
                return Some((acc, j));
            },
        };
        if acc > (u64::MAX - d) / 10 {
            // The remaining scan can only grow past what a u64 holds.
            proof {
                lemma_scan_digits_lower(t@, j + 1 as int, (acc * 10 + d) as nat);
                assert(acc * 10 + d > u64::MAX) by (nonlinear_arith)
                    requires
                        acc > (u64::MAX - d) / 10,
                        d < 10,
                ;
            }
            return None;
        }
        acc = acc * 10 + d;
        j = j + 1;
    }
    proof {
        assert(spec_scan_digits(t@, j as int, acc as nat) == (acc as nat, j as int));
    }
    Some((acc, j))
}

/// Read a decimal integer at `i`; fails on anything outside the `i64`
/// range.
fn parse_i64_at(t: &Vec<char>, i: usize) -> (r: Option<(i64, usize)>)
    ensures
        match r {
            Some((v, j)) => spec_parse_int(t@, i as int) == Some((v as int, j as int)) && i < j
                <= t@.len(),
            None => match spec_parse_int(t@, i as int) {
                Some((v, _)) => v < i64::MIN || v > i64::MAX,
                None => true,
            },
        },
{
    if i < t.len() && t[i] == '-' {
        match parse_u64_at(t, i + 1) {
            Some((v, j)) => {
                if v <= 9223372036854775807u64 {
                    Some((-(v as i64), j))
                } else if v == 9223372036854775808u64 {
                    Some((i64::MIN, j))
                } else {
                    None
                }
            },
            None => None,
        }
    } else {
        match parse_u64_at(t, i) {
            Some((v, j)) => {
                if v <= 9223372036854775807u64 {
                    Some((v as i64, j))
                } else {
                    None
                }
            },
            None => None,
        }
    }
}

/// Read a quoted string at `i`.
fn parse_qstr_at(t: &Vec<char>, i: usize) -> (r: Option<(Vec<char>, usize)>)
    ensures
        match r {
            Some((s, j)) => spec_parse_qstr(t@, i as int) == Some((s@, j as int)) && i < j
                <= t@.len(),
            None => spec_parse_qstr(t@, i as int) is None,
        },
{
    if i >= t.len() || t[i] != '"' {
        return None;
    }
    let mut acc: Vec<char> = Vec::new();
    let mut j: usize = i + 1;
    proof {
        assert(acc@ =~= Seq::<char>::empty());
    }
    while j < t.len()
        invariant
            i < j <= t@.len(),
            i < t@.len(),
            t@[i as int] == '"',
            spec_scan_string(t@, i + 1 as int, Seq::empty()) == spec_scan_string(
                t@,
                j as int,
                acc@,
            ),
        decreases t@.len() - j,
    {
        let c = t[j];
        if c == '"' {
            proof {
                assert(spec_scan_string(t@, j as int, acc@) == Some((acc@, j + 1 as int)));
            }
            return Some((acc, j + 1));
        }
        if c == '\\' {
            if j + 1 < t.len() && (t[j + 1] == '"' || t[j + 1] == '\\') {
                acc.push(t[j + 1]);
                j = j + 2;
            } else {
                proof {
                    assert(spec_scan_string(t@, j as int, acc@) is None);
                }
                return None;
            }
        } else {
            acc.push(c);
            j = j + 1;
        }
    }
    proof {
        assert(spec_scan_string(t@, j as int, acc@) is None);
    }
    None
}

/// Read a JSON array of strings at `i`.
fn parse_str_array_at(t: &Vec<char>, i: usize) -> (r: Option<(Vec<String>, usize)>)
    ensures
        match r {
            Some((v, j)) => spec_parse_arr(t@, i as int) == Some((spec_views(v@), j as int)) && i
                < j <= t@.len(),
            None => spec_parse_arr(t@, i as int) is None,
        },
{
    if i >= t.len() || t[i] != '[' {
        return None;
    }
    if i + 1 < t.len() && t[i + 1] == ']' {
        let out: Vec<String> = Vec::new();
        proof {
            assert(spec_views(out@) =~= Seq::<Seq<char>>::empty());
        }
        return Some((out, i + 2));
    }
    let mut out: Vec<String> = Vec::new();
    let mut pos: usize = i + 1;
    proof {
        assert(spec_views(out@) =~= Seq::<Seq<char>>::empty());
    }
    loop
        invariant
            i + 1 <= pos <= t@.len(),
            i < t@.len(),
            t@[i as int] == '[',
            !(i + 1 < t@.len() && t@[i + 1 as int] == ']'),
            spec_scan_strs(t@, i + 1 as int, Seq::empty()) == spec_scan_strs(
                t@,
                pos as int,
                spec_views(out@),
            ),
        decreases t@.len() - pos,
    {
        match parse_qstr_at(t, pos) {
            None => {
                proof {
                    assert(spec_scan_strs(t@, pos as int, spec_views(out@)) is None);
                }
                return None;
            },
            Some((s, j)) => {
                let ghost pre = spec_views(out@);
                let ghost sv = s@;
                let elem = string_from_chars(&s);
                if j < t.len() && t[j] == ',' {
                    proof {
                        assert(spec_scan_strs(t@, pos as int, pre) == spec_scan_strs(
                            t@,
                            j + 1 as int,
                            pre.push(sv),
                        ));
                    }
                    out.push(elem);
                    proof {
                        assert(spec_views(out@) =~= pre.push(sv));
                    }
                    pos = j + 1;
                } else if j < t.len() && t[j] == ']' {
                    proof {
                        assert(spec_scan_strs(t@, pos as int, pre) == Some(
                            (pre.push(sv), j + 1 as int),
                        ));
                    }
                    out.push(elem);
                    proof {
                        assert(spec_views(out@) =~= pre.push(sv));
                    }
                    return Some((out, j + 1));
                } else {
                    proof {
                        assert(spec_scan_strs(t@, pos as int, pre) is None);
                    }
                    return None;
                }
            },
        }
    }
}

impl State {
    /// Render this state as its persisted JSON document.
    pub fn to_json(&self) -> (r: String)
        ensures
            r@ == spec_json_of(self.model()),
    {
        let mut out: Vec<char> = Vec::new();
        push_lit(&mut out, "{\"xp\":");
        push_dec_u64(&mut out, self.xp as u64);
        push_lit(&mut out, ",\"level\":");
        push_dec_u64(&mut out, self.level as u64);
        push_lit(&mut out, ",\"level_name\":");
        push_qstr(&mut out, self.level_name.as_str());
        push_lit(&mut out, ",\"commits_total\":");
        push_dec_u64(&mut out, self.commits_total as u64);
        push_lit(&mut out, ",\"commit_streak_days\":");
        push_dec_u64(&mut out, self.commit_streak_days as u64);
        push_lit(&mut out, ",\"last_commit_date\":");
        push_opt_i64(&mut out, &self.last_commit_date);
        push_lit(&mut out, ",\"sessions_total\":");
        push_dec_u64(&mut out, self.sessions_total as u64);
        push_lit(&mut out, ",\"achievements_unlocked\":");
        push_str_array(&mut out, &self.achievements_unlocked);
        push_lit(&mut out, ",\"tools_used\":");
        push_str_array(&mut out, &self.tools_used);
        push_lit(&mut out, ",\"last_event_at\":");
        push_opt_i64(&mut out, &self.last_event_at);
        push_lit(&mut out, ",\"last_bash_exit\":");
        push_opt_i64(&mut out, &self.last_bash_exit);
        push_lit(&mut out, "}");
        proof {
            assert(out@ =~= spec_json_of(self.model()));
        }
        string_from_chars(&out)
    }

    /// Parse a persisted JSON document back into a state. Exactly the
    /// documents accepted by the parsing specification are accepted, with
    /// every numeric field within its type's range.
    pub fn from_json(text: &str) -> (r: Option<State>)
        ensures
            match r {
                Some(st) => spec_parse_state(text@) == Some(st.model()),
                None => spec_parse_state(text@) is None,
            },
    {
        let t = chars_of(text);
        let i1 = match field_u32(&t, 0, "{\"xp\":") {
            Some(x) => x,
            None => {
                return None;
            },
        };
        let i2 = match field_u32(&t, i1.1, ",\"level\":") {
            Some(x) => x,
            None => {
                return None;
            },
        };
        let i3 = match field_qstr(&t, i2.1, ",\"level_name\":") {
            Some(x) => x,
            None => {
                return None;
            },
        };
        let i4 = match field_u32(&t, i3.1, ",\"commits_total\":") {
            Some(x) => x,
            None => {
                return None;
            },
        };
        let i5 = match field_u32(&t, i4.1, ",\"commit_streak_days\":") {
            Some(x) => x,
            None => {
                return None;
            },
        };
        let i6 = match field_opt_i64(&t, i5.1, ",\"last_commit_date\":") {
            Some(x) => x,
            None => {
                return None;
            },
        };
        let i7 = match field_u32(&t, i6.1, ",\"sessions_total\":") {
            Some(x) => x,
            None => {
                return None;
            },
        };
        let i8 = match field_arr(&t, i7.1, ",\"achievements_unlocked\":") {
            Some(x) => x,
            None => {
                return None;
            },
        };
        let i9 = match field_arr(&t, i8.1, ",\"tools_used\":") {
            Some(x) => x,
            None => {
                return None;
            },
        };
        let i10 = match field_opt_i64(&t, i9.1, ",\"last_event_at\":") {
            Some(x) => x,
            None => {
                return None;
            },
        };
        let i11 = match field_opt_i64(&t, i10.1, ",\"last_bash_exit\":") {
            Some(x) => x,
            None => {
                return None;
            },
        };
        let end = match expect_lit(&t, i11.1, "}") {
            Some(x) => x,
            None => {
                return None;
            },
        };
        if end != t.len() {
            return None;
        }
        let st = State {
            xp: i1.0,
            level: i2.0,
            level_name: string_from_chars(&i3.0),
            commits_total: i4.0,
            commit_streak_days: i5.0,
            last_commit_date: i6.0,
            sessions_total: i7.0,
            achievements_unlocked: i8.0,
            tools_used: i9.0,
            last_event_at: i10.0,
            last_bash_exit: i11.0,
        };
        proof {
            assert(spec_parse_state(text@) =~= Some(st.model()));
        }
        Some(st)
    }
}

// ---------------------------------------------------------------------
// Daemon command responses
// ---------------------------------------------------------------------

/// The response document for a `status` command: a minimal snapshot.
pub open spec fn spec_status_response(m: StateModel) -> Seq<char> {
    "{\"ok\":true,\"data\":{\"xp\":"@ + spec_dec(m.xp as nat) + ",\"level_name\":"@ + spec_qstr(
        m.level_name,
    ) + ",\"running\":true}}"@
}

/// The response document for a `stats` command: the full persisted state.
pub open spec fn spec_stats_response(m: StateModel) -> Seq<char> {
    "{\"ok\":true,\"data\":"@ + spec_json_of(m) + "}"@
}

/// Render the `status` command response for a state snapshot.
pub fn status_response(s: &State) -> (r: String)
    ensures
        r@ == spec_status_response(s.model()),
{
    let mut out: Vec<char> = Vec::new();
    push_lit(&mut out, "{\"ok\":true,\"data\":{\"xp\":");
    push_dec_u64(&mut out, s.xp as u64);
    push_lit(&mut out, ",\"level_name\":");
    push_qstr(&mut out, s.level_name.as_str());
    push_lit(&mut out, ",\"running\":true}}");
    proof {
        assert(out@ =~= spec_status_response(s.model()));
    }
    string_from_chars(&out)
}

/// Render the `stats` command response for a state snapshot.
pub fn stats_response(s: &State) -> (r: String)
    ensures
        r@ == spec_stats_response(s.model()),
{
    let mut out: Vec<char> = Vec::new();
    push_lit(&mut out, "{\"ok\":true,\"data\":");
    let body = s.to_json();
    push_lit(&mut out, body.as_str());
    push_lit(&mut out, "}");
    proof {
        assert(out@ =~= spec_stats_response(s.model()));
    }
    string_from_chars(&out)
}

/// A key literal then a number that must fit in a `u32`.
fn field_u32(t: &Vec<char>, i: usize, key: &str) -> (r: Option<(u32, usize)>)
    ensures
        match r {
            Some((v, j)) => spec_field_u32(t@, i as int, key@) == Some((v, j as int)) && j
                <= t@.len(),
            None => spec_field_u32(t@, i as int, key@) is None,
        },
{
    let j = match expect_lit(t, i, key) {
        Some(j) => j,
        None => {
            return None;
        },
    };
    match parse_u64_at(t, j) {
        Some((v, k)) => {
            if v <= 0xFFFF_FFFFu64 {
                Some((v as u32, k))
            } else {
                None
            }
        },
        None => None,
    }
}

/// A key literal then a quoted string.
fn field_qstr(t: &Vec<char>, i: usize, key: &str) -> (r: Option<(Vec<char>, usize)>)
    ensures
        match r {
            Some((s, j)) => spec_field_qstr(t@, i as int, key@) == Some((s@, j as int)) && j
                <= t@.len(),
            None => spec_field_qstr(t@, i as int, key@) is None,
        },
{
    let j = match expect_lit(t, i, key) {
        Some(j) => j,
        None => {
            return None;
        },
    };
    parse_qstr_at(t, j)
}

/// A key literal then `null` or an integer in the `i64` range.
fn field_opt_i64(t: &Vec<char>, i: usize, key: &str) -> (r: Option<(Option<i64>, usize)>)
    ensures
        match r {
            Some((o, j)) => spec_field_opt_int(t@, i as int, key@) == Some((o, j as int)) && j
                <= t@.len(),
            None => spec_field_opt_int(t@, i as int, key@) is None,
        },
{
    let j = match expect_lit(t, i, key) {
        Some(j) => j,
        None => {
            return None;
        },
    };
    match expect_lit(t, j, "null") {
        Some(k) => {
            proof {
                reveal_strlit("null");
            }
            Some((None, k))
        },
        None => match parse_i64_at(t, j) {
            Some((v, k)) => Some((Some(v), k)),
            None => None,
        },
    }
}

/// A key literal then an array of strings.
fn field_arr(t: &Vec<char>, i: usize, key: &str) -> (r: Option<(Vec<String>, usize)>)
    ensures
        match r {
            Some((v, j)) => spec_field_arr(t@, i as int, key@) == Some(
                (spec_views(v@), j as int),
            ) && j <= t@.len(),
            None => spec_field_arr(t@, i as int, key@) is None,
        },
{
    let j = match expect_lit(t, i, key) {
        Some(j) => j,
        None => {
            return None;
        },
    };
    parse_str_array_at(t, j)
}

} // verus!
