//! Character-level text helpers: whitespace classification, blank tests,
//! word counting, and title derivation from note content.

use vstd::prelude::*;
use vstd::string::StrSliceExecFns;
use vstd::string::StringExecFns;

verus! {

/// Relies on std's `String::push`: appends the given character to the end of
/// the string.
pub assume_specification[ String::push ](s: &mut String, c: char)
    ensures
        final(s)@ == old(s)@.push(c),
;

/// The characters that count as whitespace: the Unicode `White_Space` set,
/// the same set `char::is_whitespace` recognises.
pub open spec fn is_ws(c: char) -> bool {
    ||| c == '\u{0009}'
    ||| c == '\u{000A}'
    ||| c == '\u{000B}'
    ||| c == '\u{000C}'
    ||| c == '\u{000D}'
    ||| c == '\u{0020}'
    ||| c == '\u{0085}'
    ||| c == '\u{00A0}'
    ||| c == '\u{1680}'
    ||| ('\u{2000}' <= c && c <= '\u{200A}')
    ||| c == '\u{2028}'
    ||| c == '\u{2029}'
    ||| c == '\u{202F}'
    ||| c == '\u{205F}'
    ||| c == '\u{3000}'
}

/// Decides whether `c` is whitespace.
pub fn is_ws_char(c: char) -> (r: bool)
    ensures
        r == is_ws(c),
{
    c == '\u{0009}' || c == '\u{000A}' || c == '\u{000B}' || c == '\u{000C}' || c == '\u{000D}'
        || c == '\u{0020}' || c == '\u{0085}' || c == '\u{00A0}' || c == '\u{1680}' || ('\u{2000}'
        <= c && c <= '\u{200A}') || c == '\u{2028}' || c == '\u{2029}' || c == '\u{202F}' || c
        == '\u{205F}' || c == '\u{3000}'
}

/// A sequence is blank when every character in it is whitespace; in
/// particular the empty sequence is blank.
pub open spec fn is_blank(s: Seq<char>) -> bool {
    forall|i: int| 0 <= i < s.len() ==> is_ws(s[i])
}

/// Decides whether `s` holds nothing but whitespace, which is how the store
/// and the controller recognise an "empty" piece of text.
pub fn is_blank_str(s: &str) -> (r: bool)
    ensures
        r == is_blank(s@),
{
    let n = s.unicode_len();
    let mut i: usize = 0;
    while i < n
        invariant
            0 <= i <= n,
            n == s@.len(),
            forall|j: int| 0 <= j < i ==> is_ws(s@[j]),
        decreases n - i,
    {
        if !is_ws_char(s.get_char(i)) {
            return false;
        }
        i = i + 1;
    }
    true
}

/// The number of words in `s`: maximal runs of non-whitespace characters.
/// Counted by their first character: position `i` starts a word when it is
/// not whitespace and is either at the start or preceded by whitespace.
pub open spec fn word_count(s: Seq<char>) -> nat
    decreases s.len(),
{
    if s.len() == 0 {
        0
    } else {
        word_count(s.drop_last()) + if !is_ws(s.last()) && (s.len() == 1 || is_ws(
            s[s.len() - 2],
        )) {
            1nat
        } else {
            0nat
        }
    }
}

/// Counts the words of `s`, as the status bar reports them: maximal runs of
/// non-whitespace characters.
pub fn count_words(s: &str) -> (r: usize)
    ensures
        r == word_count(s@),
{
    let n = s.unicode_len();
    let mut count: usize = 0;
    let mut prev_ws: bool = true;
    let mut i: usize = 0;
    while i < n
        invariant
            0 <= i <= n,
            n == s@.len(),
            count <= i,
            count == word_count(s@.take(i as int)),
            prev_ws == (i == 0 || is_ws(s@[i - 1])),
        decreases n - i,
    {
        let c = s.get_char(i);
        let ws = is_ws_char(c);
        proof {
            assert(s@.take(i + 1).drop_last() =~= s@.take(i as int));
            assert(s@.take(i + 1).last() == s@[i as int]);
        }
        if !ws && prev_ws {
            count = count + 1;
        }
        prev_ws = ws;
        i = i + 1;
    }
    proof {
        assert(s@.take(n as int) =~= s@);
    }
    count
}

/// The number of leading whitespace characters of `s`.
pub open spec fn ws_prefix(s: Seq<char>) -> nat
    decreases s.len(),
{
    if s.len() == 0 {
        0
    } else if !is_ws(s[0]) {
        0
    } else {
        1 + ws_prefix(s.drop_first())
    }
}

/// The number of trailing whitespace characters of `s`.
pub open spec fn ws_suffix(s: Seq<char>) -> nat
    decreases s.len(),
{
    if s.len() == 0 {
        0
    } else if !is_ws(s.last()) {
        0
    } else {
        1 + ws_suffix(s.drop_last())
    }
}

/// `s` with leading and trailing whitespace removed.
pub open spec fn trim(s: Seq<char>) -> Seq<char> {
    if is_blank(s) {
        Seq::empty()
    } else {
        s.subrange(ws_prefix(s) as int, s.len() - ws_suffix(s))
    }
}

/// `ws_prefix` is the unique cut: everything before it is whitespace and the
/// character at it, if any, is not.
proof fn lemma_ws_prefix_is(s: Seq<char>, p: nat)
    requires
        p <= s.len(),
        forall|j: int| 0 <= j < p ==> is_ws(s[j]),
        p < s.len() ==> !is_ws(s[p as int]),
    ensures
        ws_prefix(s) == p,
    decreases s.len(),
{
    if s.len() == 0 {
    } else if !is_ws(s[0]) {
        assert(p == 0);
    } else {
        assert(p >= 1);
        let d = s.drop_first();
        assert(forall|j: int| 0 <= j < p - 1 ==> s[j + 1] == d[j] && is_ws(s[j + 1]));
        lemma_ws_prefix_is(d, (p - 1) as nat);
    }
}

/// `ws_suffix` is the unique cut from the right.
proof fn lemma_ws_suffix_is(s: Seq<char>, q: nat)
    requires
        q <= s.len(),
        forall|j: int| s.len() - q <= j < s.len() ==> is_ws(s[j]),
        q < s.len() ==> !is_ws(s[s.len() - 1 - q]),
    ensures
        ws_suffix(s) == q,
    decreases s.len(),
{
    if s.len() == 0 {
    } else if !is_ws(s.last()) {
        assert(q == 0);
    } else {
        assert(q >= 1);
        let d = s.drop_last();
        assert(forall|j: int| d.len() - (q - 1) <= j < d.len() ==> d[j] == s[j] && is_ws(s[j]));
        lemma_ws_suffix_is(d, (q - 1) as nat);
    }
}

/// The index of the first line break of `s`, or its length if it has none.
pub open spec fn line_break(s: Seq<char>) -> nat
    decreases s.len(),
{
    if s.len() == 0 {
        0
    } else if s[0] == '\n' {
        0
    } else {
        1 + line_break(s.drop_first())
    }
}

/// `line_break` is the unique cut: no break before it, and a break at it if
/// it is inside the sequence.
proof fn lemma_line_break_is(s: Seq<char>, p: nat)
    requires
        p <= s.len(),
        forall|j: int| 0 <= j < p ==> s[j] != '\n',
        p < s.len() ==> s[p as int] == '\n',
    ensures
        line_break(s) == p,
    decreases s.len(),
{
    if s.len() == 0 {
    } else if s[0] == '\n' {
        assert(p == 0);
    } else {
        assert(p >= 1);
        let d = s.drop_first();
        assert(forall|j: int| 0 <= j < p - 1 ==> s[j + 1] == d[j] && s[j + 1] != '\n');
        lemma_line_break_is(d, (p - 1) as nat);
    }
}

/// The three dots appended to a truncated title candidate.
pub open spec fn ellipsis() -> Seq<char> {
    seq!['.', '.', '.']
}

/// The title a note's content suggests: the first line that is not blank,
/// trimmed; verbatim when its length lies in `[3, 50]`, truncated to its
/// first 47 characters plus `"..."` when longer, and nothing when it is
/// shorter than 3 characters or when every line is blank.
pub open spec fn title_candidate(s: Seq<char>) -> Option<Seq<char>>
    decreases s.len(),
{
    let lb = line_break(s);
    let line = s.subrange(0, lb as int);
    if !is_blank(line) {
        let t = trim(line);
        if t.len() > 50 {
            Some(t.subrange(0, 47) + ellipsis())
        } else if t.len() < 3 {
            None
        } else {
            Some(t)
        }
    } else if lb >= s.len() {
        None
    } else {
        title_candidate(s.subrange(lb + 1int, s.len() as int))
    }
}

/// Finds the end of the line that starts at `start`: the index of the next
/// `'\n'`, or the end of the text.
fn find_line_end(s: &str, start: usize) -> (end: usize)
    requires
        start <= s@.len(),
    ensures
        start <= end <= s@.len(),
        forall|j: int| start <= j < end ==> s@[j] != '\n',
        end < s@.len() ==> s@[end as int] == '\n',
{
    let n = s.unicode_len();
    let mut end: usize = start;
    while end < n
        invariant
            start <= end <= n,
            n == s@.len(),
            forall|j: int| start <= j < end ==> s@[j] != '\n',
        decreases n - end,
    {
        if s.get_char(end) == '\n' {
            return end;
        }
        end = end + 1;
    }
    end
}

/// Finds the first non-whitespace character in `[start, end)`, if any.
fn find_non_ws(s: &str, start: usize, end: usize) -> (r: Option<usize>)
    requires
        start <= end <= s@.len(),
    ensures
        match r {
            Some(a) => start <= a < end && !is_ws(s@[a as int]) && forall|j: int|
                start <= j < a ==> is_ws(s@[j]),
            None => forall|j: int| start <= j < end ==> is_ws(s@[j]),
        },
{
    let mut i: usize = start;
    while i < end
        invariant
            start <= i <= end <= s@.len(),
            forall|j: int| start <= j < i ==> is_ws(s@[j]),
        decreases end - i,
    {
        if !is_ws_char(s.get_char(i)) {
            return Some(i);
        }
        i = i + 1;
    }
    None
}

/// Finds the last non-whitespace character in `[a, end)`, knowing the one at
/// `a` is not whitespace.
fn rfind_non_ws(s: &str, a: usize, end: usize) -> (b: usize)
    requires
        a < end <= s@.len(),
        !is_ws(s@[a as int]),
    ensures
        a <= b < end,
        !is_ws(s@[b as int]),
        forall|j: int| b < j < end ==> is_ws(s@[j]),
{
    let mut j: usize = end - 1;
    while is_ws_char(s.get_char(j))
        invariant
            a <= j < end <= s@.len(),
            !is_ws(s@[a as int]),
            forall|k: int| j < k < end ==> is_ws(s@[k]),
        decreases j,
    {
        j = j - 1;
    }
    j
}

/// Derives a title from note content, as `title_candidate` describes.
pub fn title_from_content(s: &str) -> (r: Option<String>)
    ensures
        match r {
            Some(t) => title_candidate(s@) == Some(t@),
            None => title_candidate(s@) is None,
        },
{
    let n = s.unicode_len();
    let mut start: usize = 0;
    proof {
        assert(s@.subrange(0, n as int) =~= s@);
    }
    loop
        invariant
            0 <= start <= n,
            n == s@.len(),
            title_candidate(s@) == title_candidate(s@.subrange(start as int, n as int)),
        decreases n - start,
    {
        let end = find_line_end(s, start);
        let ghost suffix = s@.subrange(start as int, n as int);
        let ghost line = suffix.subrange(0, (end - start) as int);
        proof {
            lemma_line_break_is(suffix, (end - start) as nat);
            assert(line =~= s@.subrange(start as int, end as int));
        }
        match find_non_ws(s, start, end) {
            None => {
                proof {
                    assert(forall|j: int|
                        0 <= j < line.len() ==> line[j] == s@[start + j] && is_ws(line[j]));
                    assert(is_blank(line));
                }
                if end == n {
                    return None;
                }
                proof {
                    assert(suffix.subrange(end - start + 1, suffix.len() as int) =~= s@.subrange(
                        end + 1,
                        n as int,
                    ));
                }
                start = end + 1;
            },
            Some(a) => {
                let b = rfind_non_ws(s, a, end);
                proof {
                    assert(!is_blank(line)) by {
                        assert(line[a - start] == s@[a as int]);
                    }
                    assert(forall|j: int|
                        0 <= j < line.len() ==> line[j] == s@[start + j]);
                    lemma_ws_prefix_is(line, (a - start) as nat);
                    lemma_ws_suffix_is(line, (end - 1 - b) as nat);
                    assert(trim(line) =~= s@.subrange(a as int, b + 1));
                }
                let tlen = b + 1 - a;
                if tlen > 50 {
                    let mut t = String::from_str(s.substring_char(a, a + 47));
                    t.append("...");
                    proof {
                        reveal_strlit("...");
                        assert("..."@ =~= ellipsis());
                        assert(t@ =~= trim(line).subrange(0, 47) + ellipsis());
                    }
                    return Some(t);
                } else if tlen < 3 {
                    return None;
                } else {
                    let t = String::from_str(s.substring_char(a, b + 1));
                    proof {
                        assert(t@ =~= trim(line));
                    }
                    return Some(t);
                }
            },
        }
    }
}

/// Whether a title matches the default-title pattern: it begins with
/// `"Note 20"`, the shape of an auto-generated date-based title that the
/// user has never renamed.
pub open spec fn default_title(t: Seq<char>) -> bool {
    &&& t.len() >= 7
    &&& t[0] == 'N'
    &&& t[1] == 'o'
    &&& t[2] == 't'
    &&& t[3] == 'e'
    &&& t[4] == ' '
    &&& t[5] == '2'
    &&& t[6] == '0'
}

/// Decides whether `t` matches the default-title pattern.
pub fn is_default_title(t: &str) -> (r: bool)
    ensures
        r == default_title(t@),
{
    let n = t.unicode_len();
    if n < 7 {
        return false;
    }
    t.get_char(0) == 'N' && t.get_char(1) == 'o' && t.get_char(2) == 't' && t.get_char(3) == 'e'
        && t.get_char(4) == ' ' && t.get_char(5) == '2' && t.get_char(6) == '0'
}

/// The character for the decimal digit `d`.
pub open spec fn digit_char(d: int) -> char {
    ((48 + d) as u8) as char
}

/// The decimal representation of `n`, most significant digit first, with no
/// leading zeros (and `0` itself written as one digit).
pub open spec fn dec_rep(n: nat) -> Seq<char>
    decreases n,
{
    if n < 10 {
        seq![digit_char(n as int)]
    } else {
        dec_rep(n / 10).push(digit_char((n % 10) as int))
    }
}

/// Renders `n` in decimal.
pub fn u64_to_string(n: u64) -> (r: String)
    ensures
        r@ == dec_rep(n as nat),
{
    let mut digits: Vec<char> = Vec::new();
    let mut m: u64 = n;
    loop
        invariant_except_break
            (digits@.len() == 0 && m == n) || (digits@.len() > 0 && m > 0 && dec_rep(n as nat)
                == dec_rep(m as nat) + digits@),
        ensures
            dec_rep(n as nat) == digits@,
        decreases m,
    {
        let d: u8 = (m % 10) as u8;
        let c: char = (48 + d) as char;
        let ghost old_digits = digits@;
        let ghost m0 = m;
        digits.insert(0, c);
        proof {
            assert(digits@ =~= seq![c] + old_digits);
        }
        m = m / 10;
        proof {
            if m0 >= 10 {
                assert(dec_rep(m0 as nat) =~= dec_rep((m0 / 10) as nat) + seq![c]);
            } else {
                assert(dec_rep(m0 as nat) =~= seq![c]);
            }
            if old_digits.len() == 0 {
                assert(dec_rep(n as nat) =~= dec_rep(m0 as nat) + old_digits);
            }
            if m0 >= 10 {
                assert(dec_rep(n as nat) =~= dec_rep((m0 / 10) as nat) + digits@);
            } else {
                assert(dec_rep(n as nat) =~= digits@);
            }
        }
        if m == 0 {
            break ;
        }
    }
    let mut out = String::new();
    let mut i: usize = 0;
    while i < digits.len()
        invariant
            0 <= i <= digits@.len(),
            out@ == digits@.take(i as int),
            dec_rep(n as nat) == digits@,
        decreases digits@.len() - i,
    {
        proof {
            assert(digits@.take(i + 1).drop_last() =~= digits@.take(i as int));
        }
        out.push(digits[i]);
        i = i + 1;
    }
    proof {
        assert(digits@.take(digits@.len() as int) =~= digits@);
    }
    out
}

/// Decides whether two pieces of text hold the same characters.
pub fn str_eq(a: &str, b: &str) -> (r: bool)
    ensures
        r == (a@ == b@),
{
    let n = a.unicode_len();
    let m = b.unicode_len();
    if n != m {
        return false;
    }
    let mut i: usize = 0;
    while i < n
        invariant
            0 <= i <= n,
            n == a@.len(),
            n == b@.len(),
            forall|j: int| 0 <= j < i ==> a@[j] == b@[j],
        decreases n - i,
    {
        if a.get_char(i) != b.get_char(i) {
            return false;
        }
        i = i + 1;
    }
    proof {
        assert(a@ =~= b@);
    }
    true
}

/// Everything before `ws_prefix` is whitespace; the character there, if it
/// exists, is not.
proof fn lemma_ws_prefix_bounds(s: Seq<char>)
    ensures
        ws_prefix(s) <= s.len(),
        forall|j: int| 0 <= j < ws_prefix(s) ==> is_ws(s[j]),
        ws_prefix(s) < s.len() ==> !is_ws(s[ws_prefix(s) as int]),
    decreases s.len(),
{
    if s.len() == 0 {
    } else if !is_ws(s[0]) {
    } else {
        let d = s.drop_first();
        lemma_ws_prefix_bounds(d);
        assert forall|j: int| 0 <= j < ws_prefix(s) implies is_ws(s[j]) by {
            if j >= 1 {
                assert(is_ws(d[j - 1]));
                assert(d[j - 1] == s[j]);
            }
        }
    }
}

/// Everything at or after `len - ws_suffix` is whitespace; the character
/// just before, if it exists, is not.
proof fn lemma_ws_suffix_bounds(s: Seq<char>)
    ensures
        ws_suffix(s) <= s.len(),
        forall|j: int| s.len() - ws_suffix(s) <= j < s.len() ==> is_ws(s[j]),
        ws_suffix(s) < s.len() ==> !is_ws(s[s.len() - 1 - ws_suffix(s)]),
    decreases s.len(),
{
    if s.len() == 0 {
    } else if !is_ws(s.last()) {
    } else {
        let d = s.drop_last();
        lemma_ws_suffix_bounds(d);
        assert(forall|j: int| 0 <= j < d.len() ==> d[j] == s[j]);
    }
}

/// Trimming a sequence that is not blank leaves at least one character, and
/// the first and last of them are not whitespace.
proof fn lemma_trim_props(s: Seq<char>)
    requires
        !is_blank(s),
    ensures
        ws_prefix(s) < s.len() - ws_suffix(s),
        trim(s).len() >= 1,
        !is_ws(trim(s)[0]),
        !is_blank(trim(s)),
{
    lemma_ws_prefix_bounds(s);
    lemma_ws_suffix_bounds(s);
    let k = choose|k: int| 0 <= k < s.len() && !is_ws(s[k]);
    assert(ws_prefix(s) <= k);
    assert(k <= s.len() - 1 - ws_suffix(s));
    assert(trim(s)[0] == s[ws_prefix(s) as int]);
}

/// A title candidate is never blank and always 3 to 50 characters long.
pub proof fn lemma_title_candidate_props(s: Seq<char>)
    ensures
        title_candidate(s) matches Some(t) ==> !is_blank(t) && 3 <= t.len() <= 50,
    decreases s.len(),
{
    let lb = line_break(s);
    let line = s.subrange(0, lb as int);
    if !is_blank(line) {
        lemma_trim_props(line);
        let t = trim(line);
        if t.len() > 50 {
            let r = t.subrange(0, 47) + ellipsis();
            assert(!is_ws(r[0]));
            assert(!is_blank(r));
        }
    } else if lb >= s.len() {
    } else {
        lemma_title_candidate_props(s.subrange(lb + 1int, s.len() as int));
    }
}

/// The fixed lead-in of every generated title.
pub open spec fn note_prefix() -> Seq<char> {
    seq!['N', 'o', 't', 'e', ' ']
}

/// The n-th generated title for a date: `"Note {date}"` for n = 1 and
/// `"Note {date} (n)"` from n = 2 on.
pub open spec fn title_for(date: Seq<char>, n: nat) -> Seq<char> {
    if n <= 1 {
        note_prefix() + date
    } else {
        note_prefix() + date + seq![' ', '('] + dec_rep(n) + seq![')']
    }
}

/// Builds the n-th generated title for a date.
pub fn make_title(date: &str, n: u64) -> (r: String)
    requires
        n >= 1,
    ensures
        r@ == title_for(date@, n as nat),
{
    let mut t = String::from_str("Note ");
    t.append(date);
    if n >= 2 {
        t.append(" (");
        let num = u64_to_string(n);
        t.append(num.as_str());
        t.append(")");
    }
    proof {
        reveal_strlit("Note ");
        reveal_strlit(" (");
        reveal_strlit(")");
        assert(t@ =~= title_for(date@, n as nat));
    }
    t
}

/// A decimal representation holds at least one character.
proof fn lemma_dec_rep_len(n: nat)
    ensures
        dec_rep(n).len() >= 1,
    decreases n,
{
    if n >= 10 {
        lemma_dec_rep_len(n / 10);
    }
}

/// Distinct numbers render as distinct digit strings.
proof fn lemma_dec_rep_injective(m: nat, k: nat)
    requires
        m != k,
    ensures
        dec_rep(m) != dec_rep(k),
    decreases m + k,
{
    lemma_dec_rep_len(m);
    lemma_dec_rep_len(k);
    if m < 10 && k < 10 {
        assert(dec_rep(m)[0] != dec_rep(k)[0]);
    } else if m < 10 {
        lemma_dec_rep_len(k / 10);
        assert(dec_rep(k).len() >= 2);
    } else if k < 10 {
        lemma_dec_rep_len(m / 10);
        assert(dec_rep(m).len() >= 2);
    } else {
        assert(m == 10 * (m / 10) + m % 10);
        assert(k == 10 * (k / 10) + k % 10);
        if m % 10 != k % 10 {
            assert(dec_rep(m).last() != dec_rep(k).last());
        } else {
            assert(m / 10 != k / 10);
            lemma_dec_rep_injective(m / 10, k / 10);
            if dec_rep(m) == dec_rep(k) {
                assert(dec_rep(m).drop_last() =~= dec_rep(m / 10));
                assert(dec_rep(k).drop_last() =~= dec_rep(k / 10));
                assert(false);
            }
        }
    }
}

/// For one date, distinct indices give distinct generated titles.
pub proof fn lemma_title_for_injective(date: Seq<char>, m: nat, k: nat)
    requires
        m >= 1,
        k >= 1,
        m != k,
    ensures
        title_for(date, m) != title_for(date, k),
{
    lemma_dec_rep_len(m);
    lemma_dec_rep_len(k);
    if m <= 1 || k <= 1 {
        assert(title_for(date, m).len() != title_for(date, k).len());
    } else {
        lemma_dec_rep_injective(m, k);
        if title_for(date, m) == title_for(date, k) {
            let pre = note_prefix() + date + seq![' ', '('];
            let lm = dec_rep(m).len() as int;
            let lk = dec_rep(k).len() as int;
            assert(title_for(date, m).len() == pre.len() + lm + 1);
            assert(title_for(date, k).len() == pre.len() + lk + 1);
            assert(lm == lk);
            assert(dec_rep(m) =~= title_for(date, m).subrange(
                pre.len() as int,
                pre.len() + lm,
            ));
            assert(dec_rep(k) =~= title_for(date, k).subrange(
                pre.len() as int,
                pre.len() + lk,
            ));
            assert(false);
        }
    }
}

} // verus!
