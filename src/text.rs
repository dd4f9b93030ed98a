use vstd::prelude::*;
use vstd::std_specs::iter::IteratorSpec;

verus! {

/// The largest value of an `i32`.
pub const I32_MAX: u64 = 0x7fff_ffff;

/// Screen size used when no probe gives one.
pub const DEFAULT_WIDTH: i32 = 1920;

/// Screen size used when no probe gives one.
pub const DEFAULT_HEIGHT: i32 = 1080;

/// Unicode `White_Space`, the class that `char::is_whitespace` tests.
pub open spec fn is_ws(c: char) -> bool {
    ('\u{9}' <= c && c <= '\u{d}') || c == ' ' || c == '\u{85}' || c == '\u{a0}' || c
        == '\u{1680}' || ('\u{2000}' <= c && c <= '\u{200a}') || c == '\u{2028}' || c
        == '\u{2029}' || c == '\u{202f}' || c == '\u{205f}' || c == '\u{3000}'
}

pub open spec fn is_digit(c: char) -> bool {
    '0' <= c && c <= '9'
}

pub open spec fn digit_value(c: char) -> int {
    c as int - '0' as int
}

/// Index of the first `c` in `s[i..end]`, or `end` when there is none.
pub open spec fn find_in(s: Seq<char>, c: char, i: int, end: int) -> int
    decreases end - i,
{
    if i >= end {
        end
    } else if s[i] == c {
        i
    } else {
        find_in(s, c, i + 1, end)
    }
}

/// Index of the first whitespace in `s[i..end]`, or `end` when there is none.
pub open spec fn word_end(s: Seq<char>, i: int, end: int) -> int
    decreases end - i,
{
    if i >= end {
        end
    } else if is_ws(s[i]) {
        i
    } else {
        word_end(s, i + 1, end)
    }
}

/// Index of the first digit in `s[i..end]`, or `end` when there is none.
pub open spec fn first_digit(s: Seq<char>, i: int, end: int) -> int
    decreases end - i,
{
    if i >= end {
        end
    } else if is_digit(s[i]) {
        i
    } else {
        first_digit(s, i + 1, end)
    }
}

/// One past the last digit in `s[start..j]`, or `start` when there is none.
pub open spec fn after_last_digit(s: Seq<char>, start: int, j: int) -> int
    decreases j - start,
{
    if j <= start {
        start
    } else if is_digit(s[j - 1]) {
        j
    } else {
        after_last_digit(s, start, j - 1)
    }
}

/// The decimal value of the digits `s[a..b]`.
pub open spec fn dec_value(s: Seq<char>, a: int, b: int) -> int
    decreases b - a,
{
    if b <= a {
        0
    } else {
        dec_value(s, a, b - 1) * 10 + digit_value(s[b - 1])
    }
}

pub open spec fn all_digits(s: Seq<char>, a: int, b: int) -> bool {
    forall|k: int| a <= k < b ==> is_digit(#[trigger] s[k])
}

/// `s[a..b]` read as an `i32` in decimal, with an optional leading `+`, when
/// it denotes a positive value.
pub open spec fn positive_in(s: Seq<char>, a: int, b: int) -> Option<int> {
    let d = if a < b && s[a] == '+' {
        a + 1
    } else {
        a
    };
    if d < b && all_digits(s, d, b) && 0 < dec_value(s, d, b) <= I32_MAX {
        Some(dec_value(s, d, b))
    } else {
        None
    }
}

/// The size that the word `s[a..b]` states as `WIDTHxHEIGHT`: it is split at
/// its first `x`, each side stripped of the non-digits at both ends, and both
/// sides must be positive `i32` values.
pub open spec fn word_size(s: Seq<char>, a: int, b: int) -> Option<(int, int)> {
    let k = find_in(s, 'x', a, b);
    if k >= b {
        None
    } else {
        match (
            positive_in(s, first_digit(s, a, k), after_last_digit(s, a, k)),
            positive_in(s, first_digit(s, k + 1, b), after_last_digit(s, k + 1, b)),
        ) {
            (Some(w), Some(h)) => Some((w, h)),
            _ => None,
        }
    }
}

pub proof fn lemma_word_end_bounds(s: Seq<char>, i: int, end: int)
    requires
        i <= end,
    ensures
        i <= word_end(s, i, end) <= end,
    decreases end - i,
{
    if i < end && !is_ws(s[i]) {
        lemma_word_end_bounds(s, i + 1, end);
    }
}

pub proof fn lemma_find_in_bounds(s: Seq<char>, c: char, i: int, end: int)
    requires
        i <= end,
    ensures
        i <= find_in(s, c, i, end) <= end,
    decreases end - i,
{
    if i < end && s[i] != c {
        lemma_find_in_bounds(s, c, i + 1, end);
    }
}

/// The first size stated by a word of `s[i..end]`, words being maximal runs
/// of non-whitespace.
pub open spec fn words_from(s: Seq<char>, i: int, end: int) -> Option<(int, int)>
    decreases end - i,
    via words_from_decreases
{
    if i >= end {
        None
    } else if is_ws(s[i]) {
        words_from(s, i + 1, end)
    } else {
        let e = word_end(s, i + 1, end);
        match word_size(s, i, e) {
            Some(p) => Some(p),
            None => words_from(s, e, end),
        }
    }
}

#[via_fn]
proof fn words_from_decreases(s: Seq<char>, i: int, end: int) {
    if i < end && !is_ws(s[i]) {
        lemma_word_end_bounds(s, i + 1, end);
    }
}

/// Index of the first occurrence of `pat` starting in `s[i..]` and ending
/// by `end`.
pub open spec fn find_sub(s: Seq<char>, pat: Seq<char>, i: int, end: int) -> Option<int>
    decreases end + 1 - i,
{
    if i + pat.len() > end {
        None
    } else if s.subrange(i, i + pat.len()) == pat {
        Some(i)
    } else {
        find_sub(s, pat, i + 1, end)
    }
}

/// Whether the line `s[a..b]` describes an output: it holds " connected" or
/// "current".
pub open spec fn line_qualifies(s: Seq<char>, a: int, b: int) -> bool {
    find_sub(s, " connected"@, a, b) is Some || find_sub(s, "current"@, a, b) is Some
}

/// The first size found in the qualifying lines of `s[i..]`.
pub open spec fn lines_from(s: Seq<char>, i: int) -> Option<(int, int)>
    decreases s.len() + 1 - i,
    via lines_from_decreases
{
    if i >= s.len() {
        None
    } else {
        let e = find_in(s, '\n', i, s.len() as int);
        let found = if line_qualifies(s, i, e) {
            words_from(s, i, e)
        } else {
            None
        };
        match found {
            Some(p) => Some(p),
            None => lines_from(s, e + 1),
        }
    }
}

#[via_fn]
proof fn lines_from_decreases(s: Seq<char>, i: int) {
    if i < s.len() {
        lemma_find_in_bounds(s, '\n', i, s.len() as int);
    }
}

/// The screen size stated in the output of `xrandr` or `wlr-randr`.
pub open spec fn randr_size(s: Seq<char>) -> Option<(int, int)> {
    lines_from(s, 0)
}

/// The characters of a string.
pub fn chars_of(s: &str) -> (r: Vec<char>)
    ensures
        r@ == s@,
{
    let mut it = s.chars();
    let mut out: Vec<char> = Vec::new();
    loop
        invariant
            out@ + it.remaining() == s@,
            it.decrease() is Some,
        ensures
            out@ == s@,
        decreases it.decrease()->0,
    {
        match it.next() {
            Some(c) => {
                out.push(c);
            },
            None => {
                assert(it.remaining().len() == 0);
                assert(out@ =~= out@ + it.remaining());
                break ;
            },
        }
    }
    out
}

fn char_is_ws(c: char) -> (r: bool)
    ensures
        r == is_ws(c),
{
    ('\u{9}' <= c && c <= '\u{d}') || c == ' ' || c == '\u{85}' || c == '\u{a0}' || c
        == '\u{1680}' || ('\u{2000}' <= c && c <= '\u{200a}') || c == '\u{2028}' || c
        == '\u{2029}' || c == '\u{202f}' || c == '\u{205f}' || c == '\u{3000}'
}

fn exec_find_in(cs: &Vec<char>, c: char, start: usize, end: usize) -> (r: usize)
    requires
        start <= end <= cs@.len(),
    ensures
        r as int == find_in(cs@, c, start as int, end as int),
{
    let mut i = start;
    while i < end
        invariant
            start <= i <= end <= cs@.len(),
            find_in(cs@, c, start as int, end as int) == find_in(cs@, c, i as int, end as int),
        decreases end - i,
    {
        if cs[i] == c {
            return i;
        }
        i = i + 1;
    }
    i
}

fn exec_word_end(cs: &Vec<char>, start: usize, end: usize) -> (r: usize)
    requires
        start <= end <= cs@.len(),
    ensures
        r as int == word_end(cs@, start as int, end as int),
{
    let mut i = start;
    while i < end
        invariant
            start <= i <= end <= cs@.len(),
            word_end(cs@, start as int, end as int) == word_end(cs@, i as int, end as int),
        decreases end - i,
    {
        if char_is_ws(cs[i]) {
            return i;
        }
        i = i + 1;
    }
    i
}

fn exec_first_digit(cs: &Vec<char>, start: usize, end: usize) -> (r: usize)
    requires
        start <= end <= cs@.len(),
    ensures
        r as int == first_digit(cs@, start as int, end as int),
{
    let mut i = start;
    while i < end
        invariant
            start <= i <= end <= cs@.len(),
            first_digit(cs@, start as int, end as int) == first_digit(cs@, i as int, end as int),
        decreases end - i,
    {
        if '0' <= cs[i] && cs[i] <= '9' {
            return i;
        }
        i = i + 1;
    }
    i
}

fn exec_after_last_digit(cs: &Vec<char>, start: usize, end: usize) -> (r: usize)
    requires
        start <= end <= cs@.len(),
    ensures
        r as int == after_last_digit(cs@, start as int, end as int),
{
    let mut j = end;
    while j > start
        invariant
            start <= j <= end <= cs@.len(),
            after_last_digit(cs@, start as int, end as int) == after_last_digit(
                cs@,
                start as int,
                j as int,
            ),
        decreases j - start,
    {
        if '0' <= cs[j - 1] && cs[j - 1] <= '9' {
            return j;
        }
        j = j - 1;
    }
    j
}

/// Reads `cs[a..b]` as a positive `i32` (see `positive_in`).
fn exec_positive_in(cs: &Vec<char>, a: usize, b: usize) -> (r: Option<i32>)
    requires
        a <= b <= cs@.len(),
    ensures
        match r {
            Some(v) => positive_in(cs@, a as int, b as int) == Some(v as int),
            None => positive_in(cs@, a as int, b as int) is None,
        },
{
    let d = if a < b && cs[a] == '+' {
        a + 1
    } else {
        a
    };
    if d >= b {
        return None;
    }
    let mut v: u64 = 0;
    let mut k = d;
    while k < b
        invariant
            d <= k <= b <= cs@.len(),
            d == if a < b && cs@[a as int] == '+' {
                a + 1
            } else {
                a as int
            },
            all_digits(cs@, d as int, k as int),
            dec_value(cs@, d as int, k as int) >= 0,
            v as int == if dec_value(cs@, d as int, k as int) > I32_MAX {
                I32_MAX + 1
            } else {
                dec_value(cs@, d as int, k as int)
            },
        decreases b - k,
    {
        let c = cs[k];
        if !('0' <= c && c <= '9') {
            assert(!all_digits(cs@, d as int, b as int));
            return None;
        }
        let digit = (c as u32 - '0' as u32) as u64;
        let next = v * 10 + digit;
        v = if next > I32_MAX {
            I32_MAX + 1
        } else {
            next
        };
        k = k + 1;
    }
    if v == 0 || v > I32_MAX {
        None
    } else {
        Some(v as i32)
    }
}

fn exec_word_size(cs: &Vec<char>, a: usize, b: usize) -> (r: Option<(i32, i32)>)
    requires
        a <= b <= cs@.len(),
    ensures
        match r {
            Some((w, h)) => word_size(cs@, a as int, b as int) == Some((w as int, h as int)),
            None => word_size(cs@, a as int, b as int) is None,
        },
{
    let k = exec_find_in(cs, 'x', a, b);
    proof {
        lemma_find_in_bounds(cs@, 'x', a as int, b as int);
    }
    if k >= b {
        return None;
    }
    let l0 = exec_first_digit(cs, a, k);
    let l1 = exec_after_last_digit(cs, a, k);
    let r0 = exec_first_digit(cs, k + 1, b);
    let r1 = exec_after_last_digit(cs, k + 1, b);
    proof {
        lemma_first_digit_bounds(cs@, a as int, k as int);
        lemma_after_last_digit_bounds(cs@, a as int, k as int);
        lemma_first_digit_bounds(cs@, k + 1, b as int);
        lemma_after_last_digit_bounds(cs@, k + 1, b as int);
    }
    let w = if l0 <= l1 {
        exec_positive_in(cs, l0, l1)
    } else {
        None
    };
    let h = if r0 <= r1 {
        exec_positive_in(cs, r0, r1)
    } else {
        None
    };
    match (w, h) {
        (Some(w), Some(h)) => Some((w, h)),
        _ => None,
    }
}

pub proof fn lemma_first_digit_bounds(s: Seq<char>, i: int, end: int)
    requires
        i <= end,
    ensures
        i <= first_digit(s, i, end) <= end,
    decreases end - i,
{
    if i < end && !is_digit(s[i]) {
        lemma_first_digit_bounds(s, i + 1, end);
    }
}

pub proof fn lemma_after_last_digit_bounds(s: Seq<char>, start: int, j: int)
    requires
        start <= j,
    ensures
        start <= after_last_digit(s, start, j) <= j,
    decreases j - start,
{
    if j > start && !is_digit(s[j - 1]) {
        lemma_after_last_digit_bounds(s, start, j - 1);
    }
}

/// Index of the first non-whitespace in `s[i..end]`, or `end` when there is none.
pub open spec fn lead_ws(s: Seq<char>, i: int, end: int) -> int
    decreases end - i,
{
    if i >= end {
        end
    } else if !is_ws(s[i]) {
        i
    } else {
        lead_ws(s, i + 1, end)
    }
}

/// One past the last non-whitespace in `s[start..j]`, or `start` when there is none.
pub open spec fn trail_ws(s: Seq<char>, start: int, j: int) -> int
    decreases j - start,
{
    if j <= start {
        start
    } else if !is_ws(s[j - 1]) {
        j
    } else {
        trail_ws(s, start, j - 1)
    }
}

/// `s[a..b]` without whitespace at either end.
pub open spec fn trim_ws(s: Seq<char>, a: int, b: int) -> Seq<char> {
    let l = lead_ws(s, a, b);
    let t = trail_ws(s, a, b);
    if l < t {
        s.subrange(l, t)
    } else {
        seq![]
    }
}

/// The text that `xprop -root _NET_ACTIVE_WINDOW` prints before the window id.
pub open spec fn window_id_marker() -> Seq<char> {
    "window id # "@
}

/// The active window's id in the output of `xprop -root _NET_ACTIVE_WINDOW`:
/// what follows the first "window id # ", trimmed.
pub open spec fn spec_active_window_id(s: Seq<char>) -> Option<Seq<char>> {
    match find_sub(s, window_id_marker(), 0, s.len() as int) {
        Some(p) => Some(trim_ws(s, p + window_id_marker().len(), s.len() as int)),
        None => None,
    }
}

/// The window-state atom that marks a fullscreen window.
pub open spec fn fullscreen_atom() -> Seq<char> {
    "_NET_WM_STATE_FULLSCREEN"@
}

/// Whether `t` occurs in `s`.
pub open spec fn has_sub(s: Seq<char>, t: Seq<char>) -> bool {
    find_sub(s, t, 0, s.len() as int) is Some
}

/// Relies on `String::push`, which appends one character.
#[verifier::external_body]
fn push_char(s: &mut String, c: char)
    ensures
        final(s)@ == old(s)@.push(c),
{
    s.push(c);
}

fn matches_at(cs: &Vec<char>, pat: &Vec<char>, j: usize) -> (r: bool)
    requires
        j + pat@.len() <= cs@.len(),
    ensures
        r == (cs@.subrange(j as int, j + pat@.len()) == pat@),
{
    let n = cs.len();
    let mut k: usize = 0;
    while k < pat.len()
        invariant
            n == cs@.len(),
            j + pat@.len() <= cs@.len(),
            0 <= k <= pat@.len(),
            forall|t: int| 0 <= t < k ==> cs@[j + t] == pat@[t],
        decreases pat@.len() - k,
    {
        if cs[j + k] != pat[k] {
            assert(cs@.subrange(j as int, j + pat@.len())[k as int] != pat@[k as int]);
            return false;
        }
        k = k + 1;
    }
    assert(cs@.subrange(j as int, j + pat@.len()) =~= pat@);
    true
}

fn exec_find_sub(cs: &Vec<char>, pat: &Vec<char>, start: usize, end: usize) -> (r: Option<usize>)
    requires
        start <= end <= cs@.len(),
    ensures
        match r {
            Some(p) => find_sub(cs@, pat@, start as int, end as int) == Some(p as int),
            None => find_sub(cs@, pat@, start as int, end as int) is None,
        },
{
    if pat.len() > end {
        return None;
    }
    let last = end - pat.len();
    let mut j = start;
    while j <= last
        invariant
            start <= j,
            last + pat@.len() == end,
            end <= cs@.len(),
            find_sub(cs@, pat@, start as int, end as int) == find_sub(cs@, pat@, j as int, end as int),
        decreases last + 1 - j,
    {
        if matches_at(cs, pat, j) {
            return Some(j);
        }
        if j >= last {
            assert(find_sub(cs@, pat@, j + 1, end as int) is None);
            return None;
        }
        j = j + 1;
    }
    None
}

fn exec_words_from(cs: &Vec<char>, start: usize, end: usize) -> (r: Option<(i32, i32)>)
    requires
        start <= end <= cs@.len(),
    ensures
        match r {
            Some((w, h)) => words_from(cs@, start as int, end as int) == Some((w as int, h as int)),
            None => words_from(cs@, start as int, end as int) is None,
        },
{
    let mut i = start;
    while i < end
        invariant
            start <= i <= end <= cs@.len(),
            words_from(cs@, start as int, end as int) == words_from(cs@, i as int, end as int),
        decreases end - i,
    {
        if char_is_ws(cs[i]) {
            i = i + 1;
        } else {
            let e = exec_word_end(cs, i + 1, end);
            proof {
                lemma_word_end_bounds(cs@, i + 1, end as int);
            }
            match exec_word_size(cs, i, e) {
                Some(p) => {
                    return Some(p);
                },
                None => {
                    i = e;
                },
            }
        }
    }
    None
}

/// Finds the screen size in the output of `xrandr` or `wlr-randr`: the first
/// word of the form `WIDTHxHEIGHT`, with positive sides, on a line that
/// holds " connected" or "current".
pub fn parse_randr_output(output: &str) -> (r: Option<(i32, i32)>)
    ensures
        match r {
            Some((w, h)) => randr_size(output@) == Some((w as int, h as int)),
            None => randr_size(output@) is None,
        },
{
    let cs = chars_of(output);
    let connected = chars_of(" connected");
    let current = chars_of("current");
    let n = cs.len();
    let mut i: usize = 0;
    while i < n
        invariant
            i <= n == cs@.len(),
            cs@ == output@,
            connected@ == " connected"@,
            current@ == "current"@,
            randr_size(output@) == lines_from(cs@, i as int),
        decreases n - i,
    {
        let e = exec_find_in(&cs, '\n', i, n);
        proof {
            lemma_find_in_bounds(cs@, '\n', i as int, n as int);
        }
        let qualifies = exec_find_sub(&cs, &connected, i, e).is_some() || exec_find_sub(
            &cs,
            &current,
            i,
            e,
        ).is_some();
        if qualifies {
            if let Some(p) = exec_words_from(&cs, i, e) {
                return Some(p);
            }
        }
        if e >= n {
            assert(lines_from(cs@, e + 1) is None);
            return None;
        }
        i = e + 1;
    }
    None
}

/// Reads a screen dimension: a positive `i32` in decimal, with an optional
/// leading `+`.
pub fn parse_dimension(s: &str) -> (r: Option<i32>)
    ensures
        match r {
            Some(v) => positive_in(s@, 0, s@.len() as int) == Some(v as int),
            None => positive_in(s@, 0, s@.len() as int) is None,
        },
{
    let cs = chars_of(s);
    exec_positive_in(&cs, 0, cs.len())
}

/// The screen size chosen from the probes, in order: the width and height
/// overrides when both are positive numbers, then the output of
/// `wlr-randr`, then that of `xrandr`, then the default.
pub open spec fn spec_screen_size(
    env_width: Option<Seq<char>>,
    env_height: Option<Seq<char>>,
    wlr_randr: Option<Seq<char>>,
    xrandr: Option<Seq<char>>,
) -> (int, int) {
    let from_env = match (env_width, env_height) {
        (Some(w), Some(h)) => match (
            positive_in(w, 0, w.len() as int),
            positive_in(h, 0, h.len() as int),
        ) {
            (Some(a), Some(b)) => Some((a, b)),
            _ => None,
        },
        _ => None,
    };
    let from_wlr = match wlr_randr {
        Some(o) => randr_size(o),
        None => None,
    };
    let from_x = match xrandr {
        Some(o) => randr_size(o),
        None => None,
    };
    if from_env is Some {
        from_env->0
    } else if from_wlr is Some {
        from_wlr->0
    } else if from_x is Some {
        from_x->0
    } else {
        (DEFAULT_WIDTH as int, DEFAULT_HEIGHT as int)
    }
}

pub open spec fn opt_view(s: Option<&str>) -> Option<Seq<char>> {
    match s {
        Some(t) => Some(t@),
        None => None,
    }
}

/// Chooses the screen size from the override values and the output of the
/// randr tools (`None` where a probe gave nothing). Never fails: both sides
/// of the result are positive.
pub fn detect_screen_size(
    env_width: Option<&str>,
    env_height: Option<&str>,
    wlr_randr: Option<&str>,
    xrandr: Option<&str>,
) -> (r: (i32, i32))
    ensures
        (r.0 as int, r.1 as int) == spec_screen_size(
            opt_view(env_width),
            opt_view(env_height),
            opt_view(wlr_randr),
            opt_view(xrandr),
        ),
        r.0 > 0,
        r.1 > 0,
{
    if let (Some(w), Some(h)) = (env_width, env_height) {
        if let (Some(a), Some(b)) = (parse_dimension(w), parse_dimension(h)) {
            return (a, b);
        }
    }
    if let Some(o) = wlr_randr {
        if let Some(p) = parse_randr_output(o) {
            proof {
                lemma_randr_positive(o@);
            }
            return p;
        }
    }
    if let Some(o) = xrandr {
        if let Some(p) = parse_randr_output(o) {
            proof {
                lemma_randr_positive(o@);
            }
            return p;
        }
    }
    (DEFAULT_WIDTH, DEFAULT_HEIGHT)
}

/// A size found in randr output has positive sides.
pub proof fn lemma_randr_positive(s: Seq<char>)
    ensures
        randr_size(s) matches Some(p) ==> p.0 > 0 && p.1 > 0,
{
    lemma_lines_positive(s, 0);
}

proof fn lemma_lines_positive(s: Seq<char>, i: int)
    ensures
        lines_from(s, i) matches Some(p) ==> p.0 > 0 && p.1 > 0,
    decreases s.len() + 1 - i,
{
    if i < s.len() {
        let e = find_in(s, '\n', i, s.len() as int);
        lemma_find_in_bounds(s, '\n', i, s.len() as int);
        lemma_words_positive(s, i, e);
        lemma_lines_positive(s, e + 1);
    }
}

proof fn lemma_words_positive(s: Seq<char>, i: int, end: int)
    ensures
        words_from(s, i, end) matches Some(p) ==> p.0 > 0 && p.1 > 0,
    decreases end - i,
{
    if i < end {
        if is_ws(s[i]) {
            lemma_words_positive(s, i + 1, end);
        } else {
            let e = word_end(s, i + 1, end);
            lemma_word_end_bounds(s, i + 1, end);
            lemma_words_positive(s, e, end);
        }
    }
}

/// Extracts the active window's id from the output of
/// `xprop -root _NET_ACTIVE_WINDOW`.
pub fn active_window_id(xprop_output: &str) -> (r: Option<String>)
    ensures
        match r {
            Some(id) => spec_active_window_id(xprop_output@) == Some(id@),
            None => spec_active_window_id(xprop_output@) is None,
        },
{
    let cs = chars_of(xprop_output);
    let marker = chars_of("window id # ");
    let n = cs.len();
    match exec_find_sub(&cs, &marker, 0, n) {
        None => None,
        Some(p) => {
            proof {
                lemma_find_sub_bounds(cs@, marker@, 0, n as int);
            }
            let start = p + marker.len();
            let mut l = start;
            while l < n && char_is_ws(cs[l])
                invariant
                    start <= l <= n == cs@.len(),
                    lead_ws(cs@, start as int, n as int) == lead_ws(cs@, l as int, n as int),
                decreases n - l,
            {
                l = l + 1;
            }
            assert(lead_ws(cs@, l as int, n as int) == l);
            let mut t = n;
            while t > start && char_is_ws(cs[t - 1])
                invariant
                    start <= t <= n == cs@.len(),
                    trail_ws(cs@, start as int, n as int) == trail_ws(cs@, start as int, t as int),
                decreases t - start,
            {
                t = t - 1;
            }
            assert(trail_ws(cs@, start as int, t as int) == t);
            let mut id = String::new();
            if l < t {
                let mut k = l;
                while k < t
                    invariant
                        l <= k <= t <= n == cs@.len(),
                        id@ == cs@.subrange(l as int, k as int),
                    decreases t - k,
                {
                    push_char(&mut id, cs[k]);
                    assert(cs@.subrange(l as int, k + 1) =~= cs@.subrange(l as int, k as int).push(cs@[k as int]));
                    k = k + 1;
                }
            } else {
                assert(id@ =~= seq![]);
            }
            Some(id)
        },
    }
}

proof fn lemma_find_sub_bounds(s: Seq<char>, pat: Seq<char>, i: int, end: int)
    ensures
        find_sub(s, pat, i, end) matches Some(p) ==> i <= p && p + pat.len() <= end,
    decreases end + 1 - i,
{
    if i + pat.len() <= end && s.subrange(i, i + pat.len()) != pat {
        lemma_find_sub_bounds(s, pat, i + 1, end);
    }
}

/// A fullscreen window is active when the first output names an active
/// window and the second holds the fullscreen atom.
pub open spec fn spec_check_fullscreen(active_window: Option<Seq<char>>, window_state: Option<Seq<char>>) -> bool {
    match (active_window, window_state) {
        (Some(a), Some(w)) => spec_active_window_id(a) is Some && has_sub(w, fullscreen_atom()),
        _ => false,
    }
}

/// Whether a fullscreen window is active, from the output of
/// `xprop -root _NET_ACTIVE_WINDOW` and of `xprop -id <id> _NET_WM_STATE`
/// (`None` where the command could not run).
pub fn check_fullscreen(active_window: Option<&str>, window_state: Option<&str>) -> (r: bool)
    ensures
        r == spec_check_fullscreen(opt_view(active_window), opt_view(window_state)),
{
    match active_window {
        None => false,
        Some(a) => {
            if active_window_id(a).is_none() {
                return false;
            }
            match window_state {
                None => false,
                Some(w) => {
                    let cs = chars_of(w);
                    let atom = chars_of("_NET_WM_STATE_FULLSCREEN");
                    exec_find_sub(&cs, &atom, 0, cs.len()).is_some()
                },
            }
        },
    }
}

} // verus!
