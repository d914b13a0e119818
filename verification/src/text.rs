//! Character-level text helpers shared by the summary formatters and parsers.

use vstd::prelude::*;

verus! {

/// `String::push` appends one character at the end of the string.
pub assume_specification[ String::push ](s: &mut String, ch: char)
    ensures
        final(s)@ == old(s)@.push(ch),
;

/// The characters that carry the Unicode `White_Space` property, which is the
/// set that `char::is_whitespace` (and so `str::trim` and
/// `str::split_whitespace`) treats as blank.
pub open spec fn is_white_space(c: char) -> bool {
    let u = c as u32;
    ||| (0x9 <= u && u <= 0xd)
    ||| u == 0x20
    ||| u == 0x85
    ||| u == 0xa0
    ||| u == 0x1680
    ||| (0x2000 <= u && u <= 0x200a)
    ||| u == 0x2028
    ||| u == 0x2029
    ||| u == 0x202f
    ||| u == 0x205f
    ||| u == 0x3000
}

/// Tests the Unicode `White_Space` property of one character.
pub fn is_white_space_char(c: char) -> (r: bool)
    ensures
        r == is_white_space(c),
{
    let u = c as u32;
    (0x9 <= u && u <= 0xd) || u == 0x20 || u == 0x85 || u == 0xa0 || u == 0x1680 || (0x2000 <= u
        && u <= 0x200a) || u == 0x2028 || u == 0x2029 || u == 0x202f || u == 0x205f || u == 0x3000
}

/// The text with its leading white space removed.
pub open spec fn trim_start(s: Seq<char>) -> Seq<char>
    decreases s.len(),
{
    if s.len() > 0 && is_white_space(s[0]) {
        trim_start(s.drop_first())
    } else {
        s
    }
}

/// The text with its trailing white space removed.
pub open spec fn trim_end(s: Seq<char>) -> Seq<char>
    decreases s.len(),
{
    if s.len() > 0 && is_white_space(s.last()) {
        trim_end(s.drop_last())
    } else {
        s
    }
}

/// The text with white space removed at both ends, as `str::trim` gives it.
pub open spec fn trim(s: Seq<char>) -> Seq<char> {
    trim_end(trim_start(s))
}

/// Copies the characters of a string slice into a vector.
pub fn chars_of(s: &str) -> (v: Vec<char>)
    ensures
        v@ == s@,
{
    let mut v: Vec<char> = Vec::new();
    for c in it: s.chars()
        invariant
            v@ == it.seq().take(it.index() as int),
    {
        v.push(c);
    }
    v
}


/// Builds a string from a sequence of characters.
pub fn string_from_chars(v: &[char]) -> (s: String)
    ensures
        s@ == v@,
{
    let mut s = String::new();
    let mut i: usize = 0;
    while i < v.len()
        invariant
            0 <= i <= v.len(),
            s@ == v@.take(i as int),
        decreases v.len() - i,
    {
        s.push(v[i]);
        i = i + 1;
    }
    assert(v@.take(v.len() as int) =~= v@);
    s
}

/// Appends the characters of `t` to `s`.
pub fn push_str(s: &mut String, t: &str)
    ensures
        final(s)@ == old(s)@ + t@,
{
    let cs = chars_of(t);
    let mut i: usize = 0;
    while i < cs.len()
        invariant
            0 <= i <= cs.len(),
            cs@ == t@,
            s@ == old(s)@ + t@.take(i as int),
        decreases cs.len() - i,
    {
        s.push(cs[i]);
        i = i + 1;
    }
}

/// A copy of the string slice as an owned string.
pub fn owned(t: &str) -> (s: String)
    ensures
        s@ == t@,
{
    let mut s = String::new();
    push_str(&mut s, t);
    s
}

/// The decimal digit character for a value below ten.
pub open spec fn digit_char(d: nat) -> char {
    if d == 0 { '0' }
    else if d == 1 { '1' }
    else if d == 2 { '2' }
    else if d == 3 { '3' }
    else if d == 4 { '4' }
    else if d == 5 { '5' }
    else if d == 6 { '6' }
    else if d == 7 { '7' }
    else if d == 8 { '8' }
    else { '9' }
}

/// The decimal representation of a natural number, without leading zeros, as
/// `Display` writes an unsigned integer.
pub open spec fn decimal(n: nat) -> Seq<char>
    decreases n,
{
    if n < 10 {
        seq![digit_char(n)]
    } else {
        decimal(n / 10).push(digit_char(n % 10))
    }
}

fn digit_char_exec(d: u128) -> (c: char)
    requires
        d < 10,
    ensures
        c == digit_char(d as nat),
{
    if d == 0 { '0' }
    else if d == 1 { '1' }
    else if d == 2 { '2' }
    else if d == 3 { '3' }
    else if d == 4 { '4' }
    else if d == 5 { '5' }
    else if d == 6 { '6' }
    else if d == 7 { '7' }
    else if d == 8 { '8' }
    else { '9' }
}

/// Appends the decimal representation of `n` to `s`.
pub fn push_decimal(s: &mut String, n: u128)
    ensures
        final(s)@ == old(s)@ + decimal(n as nat),
    decreases n,
{
    if n < 10 {
        s.push(digit_char_exec(n));
    } else {
        push_decimal(s, n / 10);
        s.push(digit_char_exec(n % 10));
    }
}

/// The decimal representation of `n` as a string.
pub fn decimal_string(n: u128) -> (s: String)
    ensures
        s@ == decimal(n as nat),
{
    let mut s = String::new();
    push_decimal(&mut s, n);
    s
}


proof fn lemma_trim_start_skips(s: Seq<char>, i: int)
    requires
        0 <= i <= s.len(),
        forall|k: int| 0 <= k < i ==> is_white_space(#[trigger] s[k]),
    ensures
        trim_start(s) == trim_start(s.subrange(i, s.len() as int)),
    decreases i,
{
    if i == 0 {
        assert(s.subrange(0, s.len() as int) =~= s);
    } else {
        lemma_trim_start_skips(s, i - 1);
        let t = s.subrange(i - 1, s.len() as int);
        assert(t.drop_first() =~= s.subrange(i, s.len() as int));
    }
}

proof fn lemma_trim_end_skips(s: Seq<char>, j: int)
    requires
        0 <= j <= s.len(),
        forall|k: int| j <= k < s.len() ==> is_white_space(#[trigger] s[k]),
    ensures
        trim_end(s) == trim_end(s.subrange(0, j)),
    decreases s.len() - j,
{
    if j == s.len() {
        assert(s.subrange(0, j) =~= s);
    } else {
        lemma_trim_end_skips(s, j + 1);
        let t = s.subrange(0, j + 1);
        assert(t.drop_last() =~= s.subrange(0, j));
    }
}

/// The characters of `v` with white space removed at both ends.
pub fn trim_chars(v: &[char]) -> (r: Vec<char>)
    ensures
        r@ == trim(v@),
{
    let mut i: usize = 0;
    while i < v.len() && is_white_space_char(v[i])
        invariant
            0 <= i <= v.len(),
            forall|k: int| 0 <= k < i ==> is_white_space(#[trigger] v@[k]),
        decreases v.len() - i,
    {
        i = i + 1;
    }
    proof {
        lemma_trim_start_skips(v@, i as int);
    }
    let ghost t = v@.subrange(i as int, v@.len() as int);
    let mut j: usize = v.len();
    while j > i && is_white_space_char(v[j - 1])
        invariant
            i <= j <= v.len(),
            t == v@.subrange(i as int, v@.len() as int),
            forall|k: int| j <= k < v.len() ==> is_white_space(#[trigger] v@[k]),
        decreases j,
    {
        j = j - 1;
    }
    proof {
        assert forall|k: int| j - i <= k < t.len() implies is_white_space(#[trigger] t[k]) by {
        }
        lemma_trim_end_skips(t, j - i);
    }
    let mut r: Vec<char> = Vec::new();
    let mut k: usize = i;
    while k < j
        invariant
            i <= k <= j <= v.len(),
            r@ =~= v@.subrange(i as int, k as int),
        decreases j - k,
    {
        r.push(v[k]);
        k = k + 1;
    }
    r
}

/// The characters that become `_` in a summary value: space, tab, carriage
/// return, line feed, `|` and `,`.
pub open spec fn is_summary_separator(c: char) -> bool {
    c == ' ' || c == '\t' || c == '\r' || c == '\n' || c == '|' || c == ','
}

/// A summary value with each separator character replaced by `_`, so that it
/// stays one `key=value` word of a summary line.
pub open spec fn sanitized(s: Seq<char>) -> Seq<char> {
    s.map_values(|c: char| if is_summary_separator(c) { '_' } else { c })
}

/// Replaces each separator character of `value` by `_`.
pub fn sanitize_summary_value(value: &str) -> (r: String)
    ensures
        r@ == sanitized(value@),
{
    let cs = chars_of(value);
    let mut r = String::new();
    let mut i: usize = 0;
    while i < cs.len()
        invariant
            0 <= i <= cs.len(),
            cs@ == value@,
            r@ =~= sanitized(value@.take(i as int)),
        decreases cs.len() - i,
    {
        let c = cs[i];
        if c == ' ' || c == '\t' || c == '\r' || c == '\n' || c == '|' || c == ',' {
            r.push('_');
        } else {
            r.push(c);
        }
        i = i + 1;
    }
    r
}

/// How a text is cut into parts: at each `;`, or at each white-space
/// character.
pub enum Separator {
    Semicolon,
    WhiteSpace,
}

/// Whether `c` separates parts under `sep`.
pub open spec fn separates(sep: Separator, c: char) -> bool {
    match sep {
        Separator::Semicolon => c == ';',
        Separator::WhiteSpace => is_white_space(c),
    }
}

/// The parts of `s` between separators, empty ones included, as `str::split`
/// yields them: a text without separators is one part, and each separator
/// starts a new one.
pub open spec fn split_parts(s: Seq<char>, sep: Separator) -> Seq<Seq<char>>
    decreases s.len(),
{
    if s.len() == 0 {
        seq![Seq::<char>::empty()]
    } else {
        let rest = split_parts(s.drop_last(), sep);
        if separates(sep, s.last()) {
            rest.push(Seq::<char>::empty())
        } else {
            rest.update(rest.len() - 1, rest.last().push(s.last()))
        }
    }
}

proof fn lemma_split_parts_nonempty(s: Seq<char>, sep: Separator)
    ensures
        split_parts(s, sep).len() >= 1,
    decreases s.len(),
{
    if s.len() > 0 {
        lemma_split_parts_nonempty(s.drop_last(), sep);
    }
}

/// The `;`-separated entries of a script, each trimmed, the empty ones left
/// out.
pub open spec fn semicolon_tokens(s: Seq<char>) -> Seq<Seq<char>> {
    trimmed_nonempty(split_parts(s, Separator::Semicolon))
}

/// Each part trimmed, the parts left empty dropped.
pub open spec fn trimmed_nonempty(parts: Seq<Seq<char>>) -> Seq<Seq<char>> {
    parts.map_values(|t: Seq<char>| trim(t)).filter(|t: Seq<char>| t.len() > 0)
}

/// The non-empty parts.
pub open spec fn nonempty(parts: Seq<Seq<char>>) -> Seq<Seq<char>> {
    parts.filter(|t: Seq<char>| t.len() > 0)
}

/// The white-space separated words of a text, as `str::split_whitespace`
/// yields them.
pub open spec fn words(s: Seq<char>) -> Seq<Seq<char>> {
    nonempty(split_parts(s, Separator::WhiteSpace))
}

fn separates_exec(sep: &Separator, c: char) -> (r: bool)
    ensures
        r == separates(*sep, c),
{
    match sep {
        Separator::Semicolon => c == ';',
        Separator::WhiteSpace => is_white_space_char(c),
    }
}

/// The character sequences held by a sequence of character vectors.
pub open spec fn views_of(r: Seq<Vec<char>>) -> Seq<Seq<char>> {
    r.map_values(|x: Vec<char>| x@)
}

/// Cuts `v` into the parts between separators.
pub fn split_chars(v: &[char], sep: Separator) -> (r: Vec<Vec<char>>)
    ensures
        views_of(r@) =~= split_parts(v@, sep),
{
    let mut done: Vec<Vec<char>> = Vec::new();
    let mut cur: Vec<char> = Vec::new();
    let mut i: usize = 0;
    while i < v.len()
        invariant
            0 <= i <= v.len(),
            split_parts(v@.take(i as int), sep) =~= views_of(done@).push(cur@),
        decreases v.len() - i,
    {
        let c = v[i];
        let ghost before = views_of(done@);
        let ghost cur_before = cur@;
        proof {
            assert(v@.take(i + 1).drop_last() =~= v@.take(i as int));
        }
        if separates_exec(&sep, c) {
            let finished = cur;
            done.push(finished);
            cur = Vec::new();
        } else {
            cur.push(c);
        }
        i = i + 1;
    }
    assert(v@.take(v.len() as int) =~= v@);
    let ghost before = views_of(done@);
    let ghost cur_before = cur@;
    done.push(cur);
    done
}


proof fn lemma_trimmed_nonempty_push(q: Seq<Seq<char>>, x: Seq<char>)
    ensures
        trimmed_nonempty(q.push(x)) == if trim(x).len() > 0 {
            trimmed_nonempty(q).push(trim(x))
        } else {
            trimmed_nonempty(q)
        },
{
    let m = q.push(x).map_values(|t: Seq<char>| trim(t));
    reveal(Seq::filter);
    assert(m.drop_last() =~= q.map_values(|t: Seq<char>| trim(t)));
}

proof fn lemma_nonempty_push(q: Seq<Seq<char>>, x: Seq<char>)
    ensures
        nonempty(q.push(x)) == if x.len() > 0 {
            nonempty(q).push(x)
        } else {
            nonempty(q)
        },
{
    reveal(Seq::filter);
    assert(q.push(x).drop_last() =~= q);
}

/// The character sequences held by a sequence of strings.
pub open spec fn string_views(r: Seq<String>) -> Seq<Seq<char>> {
    r.map_values(|x: String| x@)
}

/// The `;`-separated entries of a script, each trimmed, empty entries left
/// out.
pub fn semicolon_separated_entries(script: &str) -> (r: Vec<String>)
    ensures
        string_views(r@) =~= semicolon_tokens(script@),
{
    let cs = chars_of(script);
    let parts = split_chars(cs.as_slice(), Separator::Semicolon);
    let ghost all = split_parts(script@, Separator::Semicolon);
    let mut out: Vec<String> = Vec::new();
    let mut k: usize = 0;
    assert(all.take(0) =~= Seq::<Seq<char>>::empty());
    proof {
        reveal(Seq::filter);
    }
    while k < parts.len()
        invariant
            0 <= k <= parts.len(),
            views_of(parts@) =~= all,
            all == split_parts(script@, Separator::Semicolon),
            string_views(out@) =~= trimmed_nonempty(all.take(k as int)),
        decreases parts.len() - k,
    {
        let t = trim_chars(parts[k].as_slice());
        assert(parts@[k as int]@ == all[k as int]);
        proof {
            assert(all.take(k + 1) =~= all.take(k as int).push(all[k as int]));
            lemma_trimmed_nonempty_push(all.take(k as int), all[k as int]);
        }
        if t.len() > 0 {
            let ghost before = string_views(out@);
            out.push(string_from_chars(t.as_slice()));
        }
        k = k + 1;
    }
    assert(all.take(parts.len() as int) =~= all);
    out
}

/// The white-space separated words of `v`.
pub fn words_of(v: &[char]) -> (r: Vec<Vec<char>>)
    ensures
        views_of(r@) =~= words(v@),
{
    let parts = split_chars(v, Separator::WhiteSpace);
    let ghost all = split_parts(v@, Separator::WhiteSpace);
    let mut out: Vec<Vec<char>> = Vec::new();
    let mut k: usize = 0;
    proof {
        reveal(Seq::filter);
    }
    while k < parts.len()
        invariant
            0 <= k <= parts.len(),
            views_of(parts@) =~= all,
            views_of(out@) =~= nonempty(all.take(k as int)),
        decreases parts.len() - k,
    {
        assert(parts@[k as int]@ == all[k as int]);
        proof {
            assert(all.take(k + 1) =~= all.take(k as int).push(all[k as int]));
            lemma_nonempty_push(all.take(k as int), all[k as int]);
        }
        if parts[k].len() > 0 {
            let ghost before = views_of(out@);
            let w = parts[k].clone();
            out.push(w);
        }
        k = k + 1;
    }
    assert(all.take(parts.len() as int) =~= all);
    out
}


/// Whether two character sequences are equal.
pub fn chars_eq(a: &[char], b: &[char]) -> (r: bool)
    ensures
        r == (a@ == b@),
{
    if a.len() != b.len() {
        return false;
    }
    let mut i: usize = 0;
    while i < a.len()
        invariant
            0 <= i <= a.len(),
            a.len() == b.len(),
            forall|k: int| 0 <= k < i ==> a@[k] == b@[k],
        decreases a.len() - i,
    {
        if a[i] != b[i] {
            return false;
        }
        i = i + 1;
    }
    assert(a@ =~= b@);
    true
}

/// Whether two string slices hold the same characters.
pub fn str_eq(a: &str, b: &str) -> (r: bool)
    ensures
        r == (a@ == b@),
{
    let x = chars_of(a);
    let y = chars_of(b);
    chars_eq(x.as_slice(), y.as_slice())
}

/// Whether a text is empty once trimmed.
pub fn is_blank(s: &str) -> (r: bool)
    ensures
        r == (trim(s@).len() == 0),
{
    let cs = chars_of(s);
    let t = trim_chars(cs.as_slice());
    t.len() == 0
}

/// Whether `p` is a prefix of `s`.
pub open spec fn has_prefix(s: Seq<char>, p: Seq<char>) -> bool {
    p.len() <= s.len() && s.subrange(0, p.len() as int) == p
}

/// Whether the characters of `p` start `s`.
pub fn chars_start_with(s: &[char], p: &[char]) -> (r: bool)
    ensures
        r == has_prefix(s@, p@),
{
    if p.len() > s.len() {
        return false;
    }
    let mut i: usize = 0;
    while i < p.len()
        invariant
            0 <= i <= p.len() <= s.len(),
            forall|k: int| 0 <= k < i ==> s@[k] == p@[k],
        decreases p.len() - i,
    {
        if s[i] != p[i] {
            return false;
        }
        i = i + 1;
    }
    assert(s@.subrange(0, p@.len() as int) =~= p@);
    true
}

/// The characters of `s` from index `start` on.
pub fn chars_from(s: &[char], start: usize) -> (r: Vec<char>)
    requires
        start <= s.len(),
    ensures
        r@ == s@.subrange(start as int, s@.len() as int),
{
    let mut r: Vec<char> = Vec::new();
    let mut k: usize = start;
    while k < s.len()
        invariant
            start <= k <= s.len(),
            r@ =~= s@.subrange(start as int, k as int),
        decreases s.len() - k,
    {
        r.push(s[k]);
        k = k + 1;
    }
    r
}

/// Appends the characters of `t` to `s`.
pub fn push_chars(s: &mut String, t: &[char])
    ensures
        final(s)@ == old(s)@ + t@,
{
    let mut i: usize = 0;
    while i < t.len()
        invariant
            0 <= i <= t.len(),
            s@ =~= old(s)@ + t@.take(i as int),
        decreases t.len() - i,
    {
        s.push(t[i]);
        i = i + 1;
    }
}

/// `true` or `false`, as `Display` writes a `bool`.
pub open spec fn bool_text(b: bool) -> Seq<char> {
    if b { "true"@ } else { "false"@ }
}

/// Appends `true` or `false` to `s`.
pub fn push_bool(s: &mut String, b: bool)
    ensures
        final(s)@ == old(s)@ + bool_text(b),
{
    if b {
        push_str(s, "true");
    } else {
        push_str(s, "false");
    }
}


/// An optional number as a summary writes it: its decimal digits, or `none`.
pub open spec fn optional_decimal(o: Option<nat>) -> Seq<char> {
    match o {
        Some(n) => decimal(n),
        None => "none"@,
    }
}

/// An optional flag as a summary writes it: `true`, `false` or `none`.
pub open spec fn optional_bool_text(o: Option<bool>) -> Seq<char> {
    match o {
        Some(b) => bool_text(b),
        None => "none"@,
    }
}

/// Widens an optional `u32` to a natural number.
pub open spec fn opt_u32(o: Option<u32>) -> Option<nat> {
    match o {
        Some(n) => Some(n as nat),
        None => None,
    }
}

/// Widens an optional `u64` to a natural number.
pub open spec fn opt_u64(o: Option<u64>) -> Option<nat> {
    match o {
        Some(n) => Some(n as nat),
        None => None,
    }
}

/// Widens an optional `u128` to a natural number.
pub open spec fn opt_u128(o: Option<u128>) -> Option<nat> {
    match o {
        Some(n) => Some(n as nat),
        None => None,
    }
}

/// Widens an optional `usize` to a natural number.
pub open spec fn opt_usize(o: Option<usize>) -> Option<nat> {
    match o {
        Some(n) => Some(n as nat),
        None => None,
    }
}

/// Appends an optional number, or `none`.
pub fn push_optional_u128(s: &mut String, value: Option<u128>)
    ensures
        final(s)@ == old(s)@ + optional_decimal(opt_u128(value)),
{
    match value {
        Some(n) => push_decimal(s, n),
        None => push_str(s, "none"),
    }
}

/// An optional `u32`, or `none`.
pub fn format_optional_u32(value: Option<u32>) -> (r: String)
    ensures
        r@ == optional_decimal(opt_u32(value)),
{
    let mut s = String::new();
    match value {
        Some(n) => push_decimal(&mut s, n as u128),
        None => push_str(&mut s, "none"),
    }
    s
}

/// An optional `u64`, or `none`.
pub fn format_optional_u64(value: Option<u64>) -> (r: String)
    ensures
        r@ == optional_decimal(opt_u64(value)),
{
    let mut s = String::new();
    match value {
        Some(n) => push_decimal(&mut s, n as u128),
        None => push_str(&mut s, "none"),
    }
    s
}

/// An optional `u128`, or `none`.
pub fn format_optional_u128(value: Option<u128>) -> (r: String)
    ensures
        r@ == optional_decimal(opt_u128(value)),
{
    let mut s = String::new();
    push_optional_u128(&mut s, value);
    s
}

/// An optional `usize`, or `none`.
pub fn format_optional_usize(value: Option<usize>) -> (r: String)
    ensures
        r@ == optional_decimal(opt_usize(value)),
{
    let mut s = String::new();
    match value {
        Some(n) => push_decimal(&mut s, n as u128),
        None => push_str(&mut s, "none"),
    }
    s
}

/// An optional flag, or `none`.
pub fn format_optional_bool(value: Option<bool>) -> (r: String)
    ensures
        r@ == optional_bool_text(value),
{
    let mut s = String::new();
    match value {
        Some(b) => push_bool(&mut s, b),
        None => push_str(&mut s, "none"),
    }
    s
}

/// A sanitized value keeps its length, holds no separator character, so it
/// stays one `key=value` word of a summary line, and sanitizing it again
/// changes nothing.
pub proof fn law_sanitized_value_is_one_word(s: Seq<char>)
    ensures
        sanitized(s).len() == s.len(),
        forall|i: int| 0 <= i < s.len() ==> !is_summary_separator(#[trigger] sanitized(s)[i]),
        sanitized(sanitized(s)) == sanitized(s),
{
}

/// No entry of a `;`-separated script is empty.
pub proof fn law_script_entries_are_nonempty(s: Seq<char>)
    ensures
        forall|i: int|
            0 <= i < semicolon_tokens(s).len() ==> (#[trigger] semicolon_tokens(s)[i]).len() > 0,
{
    let trimmed = split_parts(s, Separator::Semicolon).map_values(|t: Seq<char>| trim(t));
    let pred = |t: Seq<char>| t.len() > 0;
    assert forall|i: int| 0 <= i < semicolon_tokens(s).len() implies (#[trigger] semicolon_tokens(
        s,
    )[i]).len() > 0 by {
        trimmed.lemma_filter_pred(pred, i);
    }
}

proof fn lemma_split_parts_leading_separator(s: Seq<char>, sep: Separator)
    requires
        s.len() > 0,
        separates(sep, s[0]),
    ensures
        split_parts(s, sep) == seq![Seq::<char>::empty()] + split_parts(s.drop_first(), sep),
    decreases s.len(),
{
    let e = seq![Seq::<char>::empty()];
    if s.len() == 1 {
        assert(s.drop_last() =~= Seq::<char>::empty());
        assert(s.drop_first() =~= Seq::<char>::empty());
        assert(split_parts(s, sep) =~= e + split_parts(s.drop_first(), sep));
    } else {
        let d = s.drop_last();
        let t = s.drop_first();
        lemma_split_parts_leading_separator(d, sep);
        lemma_split_parts_nonempty(d.drop_first(), sep);
        assert(t.drop_last() =~= d.drop_first());
        assert(t.last() == s.last());
        let p = split_parts(d.drop_first(), sep);
        if separates(sep, s.last()) {
            assert((e + p).push(Seq::<char>::empty()) =~= e + p.push(Seq::<char>::empty()));
        } else {
            assert((e + p).update((e + p).len() - 1, (e + p).last().push(s.last())) =~= e
                + p.update(p.len() - 1, p.last().push(s.last())));
        }
    }
}

proof fn lemma_nonempty_after_empty(p: Seq<Seq<char>>)
    ensures
        nonempty(seq![Seq::<char>::empty()] + p) == nonempty(p),
    decreases p.len(),
{
    let e = seq![Seq::<char>::empty()];
    if p.len() == 0 {
        assert(e + p =~= Seq::<Seq<char>>::empty().push(Seq::<char>::empty()));
        lemma_nonempty_push(Seq::<Seq<char>>::empty(), Seq::<char>::empty());
        reveal(Seq::filter);
        assert(nonempty(p) =~= Seq::<Seq<char>>::empty());
    } else {
        lemma_nonempty_after_empty(p.drop_last());
        assert(e + p =~= (e + p.drop_last()).push(p.last()));
        assert(p =~= p.drop_last().push(p.last()));
        lemma_nonempty_push(e + p.drop_last(), p.last());
        lemma_nonempty_push(p.drop_last(), p.last());
    }
}

proof fn lemma_words_trim_start(s: Seq<char>)
    ensures
        words(trim_start(s)) == words(s),
    decreases s.len(),
{
    if s.len() > 0 && is_white_space(s[0]) {
        lemma_words_trim_start(s.drop_first());
        lemma_split_parts_leading_separator(s, Separator::WhiteSpace);
        lemma_nonempty_after_empty(split_parts(s.drop_first(), Separator::WhiteSpace));
    }
}

proof fn lemma_words_trim_end(s: Seq<char>)
    ensures
        words(trim_end(s)) == words(s),
    decreases s.len(),
{
    if s.len() > 0 && is_white_space(s.last()) {
        lemma_words_trim_end(s.drop_last());
        lemma_nonempty_push(split_parts(s.drop_last(), Separator::WhiteSpace), Seq::<char>::empty());
    }
}

/// White space at either end of a text does not change its words: the
/// words of the trimmed text are those of the text.
pub proof fn law_words_ignore_surrounding_white_space(s: Seq<char>)
    ensures
        words(trim(s)) == words(s),
{
    lemma_words_trim_start(s);
    lemma_words_trim_end(trim_start(s));
}

} // verus!
