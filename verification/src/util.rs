//! Small agent-side utilities: provider API URLs, color specifications,
//! and the captured-output format of executed commands.

use vstd::prelude::*;

use crate::config::ModelProvider;
use crate::error::AppError;
use crate::error::AppErrorView;

verus! {

/// The default API URL of each provider; the GCP URL names the model.
pub open spec fn spec_api_url_for_provider(provider: ModelProvider, model: Seq<char>) -> Seq<char> {
    match provider {
        ModelProvider::OpenAI => "https://api.openai.com/v1/chat/completions"@,
        ModelProvider::Anthropic => "https://api.anthropic.com/v1/messages"@,
        ModelProvider::GCP => "https://generativelanguage.googleapis.com/v1beta/models/"@ + model
            + ":generateContent"@,
    }
}

/// The default API URL for a provider and model.
pub fn api_url_for_provider(provider: ModelProvider, model: &str) -> (r: String)
    ensures
        r@ == spec_api_url_for_provider(provider, model@),
{
    match provider {
        ModelProvider::OpenAI => "https://api.openai.com/v1/chat/completions".to_owned(),
        ModelProvider::Anthropic => "https://api.anthropic.com/v1/messages".to_owned(),
        ModelProvider::GCP => {
            let mut s = "https://generativelanguage.googleapis.com/v1beta/models/".to_owned();
            s.append(model);
            s.append(":generateContent");
            s
        },
    }
}

/// The format a tool result presents captured output in: both streams,
/// labelled.
pub open spec fn spec_exec_output(out: Seq<char>, err: Seq<char>) -> Seq<char> {
    "STDOUT:\n"@ + out + "\nSTDERR:\n"@ + err
}

/// Put captured standard output and standard error into the tool result
/// format.
pub fn format_exec_output(out: &str, err: &str) -> (r: String)
    ensures
        r@ == spec_exec_output(out@, err@),
{
    let mut s = "STDOUT:\n".to_owned();
    s.append(out);
    s.append("\nSTDERR:\n");
    s.append(err);
    s
}

/// Whether a character counts as white space, as the trimming of values
/// treats it.
pub open spec fn spec_is_wspace(c: char) -> bool {
    c == ' ' || c == '\t' || c == '\n' || c == '\r' || c == '\u{000b}' || c == '\u{000c}' || c
        == '\u{0085}' || c == '\u{00a0}' || c == '\u{1680}' || ('\u{2000}' <= c && c <= '\u{200a}')
        || c == '\u{2028}' || c == '\u{2029}' || c == '\u{202f}' || c == '\u{205f}' || c
        == '\u{3000}'
}

/// Whether a character counts as white space.
pub fn is_wspace(c: char) -> (r: bool)
    ensures
        r == spec_is_wspace(c),
{
    c == ' ' || c == '\t' || c == '\n' || c == '\r' || c == '\u{000b}' || c == '\u{000c}' || c
        == '\u{0085}' || c == '\u{00a0}' || c == '\u{1680}' || ('\u{2000}' <= c && c <= '\u{200a}')
        || c == '\u{2028}' || c == '\u{2029}' || c == '\u{202f}' || c == '\u{205f}' || c
        == '\u{3000}'
}

/// A sequence without its leading white space.
pub open spec fn trim_front(s: Seq<char>) -> Seq<char>
    decreases s.len(),
{
    if s.len() > 0 && spec_is_wspace(s[0]) {
        trim_front(s.drop_first())
    } else {
        s
    }
}

/// A sequence without its trailing white space.
pub open spec fn trim_back(s: Seq<char>) -> Seq<char>
    decreases s.len(),
{
    if s.len() > 0 && spec_is_wspace(s.last()) {
        trim_back(s.drop_last())
    } else {
        s
    }
}

/// A sequence without leading and trailing white space.
pub open spec fn spec_trim(s: Seq<char>) -> Seq<char> {
    trim_back(trim_front(s))
}

/// The characters of a string, as a vector.
pub fn chars_of(s: &str) -> (r: Vec<char>)
    ensures
        r@ == s@,
{
    let n = s.unicode_len();
    let mut out: Vec<char> = Vec::new();
    for i in 0..n
        invariant
            n == s@.len(),
            out@.len() == i,
            forall|j: int| 0 <= j < i ==> out@[j] == s@[j],
    {
        out.push(s.get_char(i));
    }
    proof {
        assert(out@ =~= s@);
    }
    out
}

/// Dropping a white prefix moves `trim_front` along.
proof fn lemma_trim_front_skip(s: Seq<char>, i: int)
    requires
        0 <= i <= s.len(),
        forall|j: int| 0 <= j < i ==> spec_is_wspace(s[j]),
    ensures
        trim_front(s) == trim_front(s.skip(i)),
    decreases i,
{
    if i == 0 {
        assert(s.skip(0) =~= s);
    } else {
        assert(s.drop_first().skip(i - 1) =~= s.skip(i));
        assert forall|j: int| 0 <= j < i - 1 implies spec_is_wspace(s.drop_first()[j]) by {
            assert(s.drop_first()[j] == s[j + 1]);
        }
        lemma_trim_front_skip(s.drop_first(), i - 1);
    }
}

/// Dropping a white suffix moves `trim_back` along.
proof fn lemma_trim_back_take(s: Seq<char>, i: int)
    requires
        0 <= i <= s.len(),
        forall|j: int| i <= j < s.len() ==> spec_is_wspace(s[j]),
    ensures
        trim_back(s) == trim_back(s.take(i)),
    decreases s.len() - i,
{
    if i == s.len() {
        assert(s.take(i) =~= s);
    } else {
        assert(s.drop_last() =~= s.take(s.len() - 1));
        lemma_trim_back_take(s.take(s.len() - 1), i);
        assert(s.take(s.len() - 1).take(i) =~= s.take(i));
    }
}

/// The trimmed copy of a character vector.
pub fn trim_chars(v: &Vec<char>) -> (r: Vec<char>)
    ensures
        r@ == spec_trim(v@),
{
    let n = v.len();
    let mut start: usize = 0;
    while start < n && is_wspace(v[start])
        invariant
            n == v@.len(),
            0 <= start <= n,
            forall|j: int| 0 <= j < start ==> spec_is_wspace(v@[j]),
        decreases n - start,
    {
        start = start + 1;
    }
    proof {
        lemma_trim_front_skip(v@, start as int);
        assert(trim_front(v@) == v@.skip(start as int));
    }
    let mut end: usize = n;
    while end > start && is_wspace(v[end - 1])
        invariant
            n == v@.len(),
            start <= end <= n,
            trim_front(v@) == v@.skip(start as int),
            forall|j: int| end <= j < n ==> spec_is_wspace(v@[j]),
        decreases end,
    {
        end = end - 1;
    }
    proof {
        let t = v@.skip(start as int);
        assert forall|j: int| end - start <= j < t.len() implies spec_is_wspace(t[j]) by {
            assert(t[j] == v@[j + start]);
        }
        lemma_trim_back_take(t, end - start);
        assert(t.take(end - start) =~= v@.subrange(start as int, end as int));
        if end > start {
            assert(!spec_is_wspace(t.take(end - start).last()));
        }
    }
    let mut out: Vec<char> = Vec::new();
    let mut i: usize = start;
    while i < end
        invariant
            start <= i <= end <= n,
            n == v@.len(),
            out@.len() == i - start,
            forall|j: int| 0 <= j < i - start ==> out@[j] == v@[j + start],
        decreases end - i,
    {
        out.push(v[i]);
        i = i + 1;
    }
    proof {
        assert(out@ =~= v@.subrange(start as int, end as int));
    }
    out
}

/// The trimmed slice of a string.
pub fn str_trim<'a>(s: &'a str) -> (r: &'a str)
    ensures
        r@ == spec_trim(s@),
{
    let n = s.unicode_len();
    let mut start: usize = 0;
    while start < n && is_wspace(s.get_char(start))
        invariant
            n == s@.len(),
            0 <= start <= n,
            forall|j: int| 0 <= j < start ==> spec_is_wspace(s@[j]),
        decreases n - start,
    {
        start = start + 1;
    }
    proof {
        lemma_trim_front_skip(s@, start as int);
        assert(trim_front(s@) == s@.skip(start as int));
    }
    let mut end: usize = n;
    while end > start && is_wspace(s.get_char(end - 1))
        invariant
            n == s@.len(),
            start <= end <= n,
            trim_front(s@) == s@.skip(start as int),
            forall|j: int| end <= j < n ==> spec_is_wspace(s@[j]),
        decreases end,
    {
        end = end - 1;
    }
    proof {
        let t = s@.skip(start as int);
        assert forall|j: int| end - start <= j < t.len() implies spec_is_wspace(t[j]) by {
            assert(t[j] == s@[j + start]);
        }
        lemma_trim_back_take(t, end - start);
        assert(t.take(end - start) =~= s@.subrange(start as int, end as int));
        if end > start {
            assert(!spec_is_wspace(t.take(end - start).last()));
        }
    }
    s.substring_char(start, end)
}

/// The pieces of a sequence split on a separator: always at least one
/// piece, an empty piece between adjacent separators.
pub open spec fn spec_split(s: Seq<char>, sep: char) -> Seq<Seq<char>>
    decreases s.len(),
{
    if s.len() == 0 {
        seq![Seq::<char>::empty()]
    } else if s[0] == sep {
        seq![Seq::<char>::empty()] + spec_split(s.drop_first(), sep)
    } else {
        let rest = spec_split(s.drop_first(), sep);
        seq![seq![s[0]] + rest[0]] + rest.drop_first()
    }
}

/// A split always yields at least one piece.
pub proof fn lemma_split_len(s: Seq<char>, sep: char)
    ensures
        spec_split(s, sep).len() >= 1,
    decreases s.len(),
{
    if s.len() > 0 {
        lemma_split_len(s.drop_first(), sep);
    }
}

/// The views of a list of character vectors.
pub open spec fn char_vecs_view(vs: Seq<Vec<char>>) -> Seq<Seq<char>> {
    vs.map_values(|v: Vec<char>| v@)
}

/// Split a character vector on a separator, from a starting position.
fn split_from(v: &Vec<char>, from: usize, sep: char) -> (r: Vec<Vec<char>>)
    requires
        from <= v@.len(),
    ensures
        char_vecs_view(r@) == spec_split(v@.skip(from as int), sep),
        r@.len() >= 1,
    decreases v@.len() - from,
{
    proof {
        lemma_split_len(v@.skip(from as int), sep);
    }
    if from == v.len() {
        let mut r: Vec<Vec<char>> = Vec::new();
        r.push(Vec::new());
        proof {
            assert(v@.skip(from as int) =~= Seq::<char>::empty());
            assert(char_vecs_view(r@) =~= spec_split(v@.skip(from as int), sep));
        }
        r
    } else {
        let c = v[from];
        proof {
            assert(v@.skip(from as int)[0] == v@[from as int]);
            assert(v@.skip(from as int).drop_first() =~= v@.skip(from as int + 1));
        }
        if c == sep {
            let rest = split_from(v, from + 1, sep);
            let mut r: Vec<Vec<char>> = Vec::new();
            r.push(Vec::new());
            let mut rest = rest;
            r.append(&mut rest);
            proof {
                assert(char_vecs_view(r@) =~= spec_split(v@.skip(from as int), sep));
            }
            r
        } else {
            let mut rest = split_from(v, from + 1, sep);
            let ghost rv = rest@;
            let first = rest.remove(0);
            let mut piece: Vec<char> = Vec::new();
            piece.push(c);
            let mut first = first;
            piece.append(&mut first);
            let mut r: Vec<Vec<char>> = Vec::new();
            r.push(piece);
            let mut rest = rest;
            r.append(&mut rest);
            proof {
                let whole = spec_split(v@.skip(from as int), sep);
                let sub = spec_split(v@.skip(from as int + 1), sep);
                assert(piece@ =~= seq![v@[from as int]] + sub[0]);
                assert(char_vecs_view(r@) =~= whole);
            }
            r
        }
    }
}

/// Split a character vector on a separator.
pub fn split_chars(v: &Vec<char>, sep: char) -> (r: Vec<Vec<char>>)
    ensures
        char_vecs_view(r@) == spec_split(v@, sep),
        r@.len() >= 1,
{
    let r = split_from(v, 0, sep);
    proof {
        assert(v@.skip(0) =~= v@);
    }
    r
}

/// Whether a character is a decimal digit.
pub open spec fn spec_is_digit(c: char) -> bool {
    '0' <= c && c <= '9'
}

/// The value of a digit sequence read in base ten.
pub open spec fn digits_val(s: Seq<char>) -> int
    decreases s.len(),
{
    if s.len() == 0 {
        0
    } else {
        digits_val(s.drop_last()) * 10 + (s.last() as int - '0' as int)
    }
}

/// Whether every character is a decimal digit.
pub open spec fn all_digits(s: Seq<char>) -> bool {
    forall|i: int| 0 <= i < s.len() ==> spec_is_digit(s[i])
}

/// What parsing an unsigned byte from text yields: an optional plus sign,
/// then at least one digit, with a value up to 255.
pub open spec fn spec_parse_u8(s: Seq<char>) -> Option<u8> {
    let body = if s.len() > 0 && s[0] == '+' {
        s.drop_first()
    } else {
        s
    };
    if body.len() > 0 && all_digits(body) && digits_val(body) <= 255 {
        Some(digits_val(body) as u8)
    } else {
        None
    }
}

/// Parse an unsigned byte from characters.
pub fn parse_u8_chars(v: &Vec<char>) -> (r: Option<u8>)
    ensures
        r == spec_parse_u8(v@),
{
    let n = v.len();
    let start: usize = if n > 0 && v[0] == '+' {
        1
    } else {
        0
    };
    let ghost body = if v@.len() > 0 && v@[0] == '+' {
        v@.drop_first()
    } else {
        v@
    };
    proof {
        assert(body =~= v@.subrange(start as int, n as int));
    }
    if n == start {
        return None;
    }
    let mut acc: u32 = 0;
    let mut i: usize = start;
    while i < n
        invariant
            start <= i <= n,
            n == v@.len(),
            body == v@.subrange(start as int, n as int),
            body == (if v@.len() > 0 && v@[0] == '+' {
                v@.drop_first()
            } else {
                v@
            }),
            start == (if v@.len() > 0 && v@[0] == '+' {
                1int
            } else {
                0int
            }),
            body.len() == n - start,
            forall|j: int| 0 <= j < i - start ==> spec_is_digit(body[j]),
            acc == (if digits_val(body.take(i - start)) <= 255 {
                digits_val(body.take(i - start))
            } else {
                256int
            }),
        decreases n - i,
    {
        let c = v[i];
        if c < '0' || c > '9' {
            proof {
                assert(body[i - start] == v@[i as int]);
                assert(!spec_is_digit(body[i - start]));
                assert(!all_digits(body)) by {
                    assert(0 <= i - start < body.len() && !spec_is_digit(body[i - start]));
                }
                assert(spec_parse_u8(v@) is None);
            }
            return None;
        }
        let d: u32 = (c as u32) - ('0' as u32);
        proof {
            assert(body.take(i + 1 - start).drop_last() =~= body.take(i - start));
            assert(body.take(i + 1 - start).last() == v@[i as int]);
        }
        if acc > 255 {
            acc = 256;
        } else {
            acc = acc * 10 + d;
            if acc > 255 {
                acc = 256;
            }
        }
        i = i + 1;
        proof {
            if digits_val(body.take(i - start)) > 255 {
                assert(acc == 256);
            }
        }
    }
    proof {
        assert(body.take(n - start) =~= body);
        assert(all_digits(body));
    }
    if acc <= 255 {
        Some(acc as u8)
    } else {
        None
    }
}

/// What parsing a color triple yields: a parenthesized list of exactly
/// three bytes, each allowed surrounding white space.
pub open spec fn spec_parse_color(s: Seq<char>) -> Option<Seq<u8>> {
    if s.len() >= 2 && s[0] == '(' && s.last() == ')' {
        let items = spec_split(s.subrange(1, s.len() - 1), ',');
        if items.len() == 3 && spec_parse_u8(spec_trim(items[0])) is Some && spec_parse_u8(
            spec_trim(items[1]),
        ) is Some && spec_parse_u8(spec_trim(items[2])) is Some {
            Some(
                seq![
                    spec_parse_u8(spec_trim(items[0]))->0,
                    spec_parse_u8(spec_trim(items[1]))->0,
                    spec_parse_u8(spec_trim(items[2]))->0,
                ],
            )
        } else {
            None
        }
    } else {
        None
    }
}

/// Parse one color triple, `(r, g, b)`. Any deviation is a color format
/// error.
pub fn parse_color(s: &str) -> (r: Result<[u8; 3], AppError>)
    ensures
        match r {
            Ok(c) => spec_parse_color(s@) == Some(c@),
            Err(e) => spec_parse_color(s@) is None && e@ == AppErrorView::ColorParseError,
        },
{
    let v = chars_of(s);
    parse_color_chars(&v)
}

/// Parse one color triple from characters.
pub fn parse_color_chars(v: &Vec<char>) -> (r: Result<[u8; 3], AppError>)
    ensures
        match r {
            Ok(c) => spec_parse_color(v@) == Some(c@),
            Err(e) => spec_parse_color(v@) is None && e@ == AppErrorView::ColorParseError,
        },
{
    let n = v.len();
    if !(n >= 2 && v[0] == '(' && v[n - 1] == ')') {
        return Err(AppError::ColorParseError);
    }
    let mut inner: Vec<char> = Vec::new();
    let mut i: usize = 1;
    while i < n - 1
        invariant
            1 <= i <= n - 1,
            n == v@.len(),
            inner@.len() == i - 1,
            forall|j: int| 0 <= j < i - 1 ==> inner@[j] == v@[j + 1],
        decreases n - i,
    {
        inner.push(v[i]);
        i = i + 1;
    }
    proof {
        assert(inner@ =~= v@.subrange(1, v@.len() - 1));
    }
    let items = split_chars(&inner, ',');
    if items.len() != 3 {
        return Err(AppError::ColorParseError);
    }
    proof {
        assert(char_vecs_view(items@)[0] == items@[0]@);
        assert(char_vecs_view(items@)[1] == items@[1]@);
        assert(char_vecs_view(items@)[2] == items@[2]@);
    }
    let t0 = trim_chars(&items[0]);
    let t1 = trim_chars(&items[1]);
    let t2 = trim_chars(&items[2]);
    let b0 = match parse_u8_chars(&t0) {
        Some(b) => b,
        None => {
            return Err(AppError::ColorParseError);
        },
    };
    let b1 = match parse_u8_chars(&t1) {
        Some(b) => b,
        None => {
            return Err(AppError::ColorParseError);
        },
    };
    let b2 = match parse_u8_chars(&t2) {
        Some(b) => b,
        None => {
            return Err(AppError::ColorParseError);
        },
    };
    let c: [u8; 3] = [b0, b1, b2];
    proof {
        assert(c@ =~= seq![b0, b1, b2]);
    }
    Ok(c)
}

/// Whether a character is one of the value quotes stripped from around a
/// color list.
pub open spec fn spec_is_quote(c: char) -> bool {
    c == '\'' || c == '"'
}

/// A sequence without leading and trailing quote characters.
pub open spec fn quote_trim_front(s: Seq<char>) -> Seq<char>
    decreases s.len(),
{
    if s.len() > 0 && spec_is_quote(s[0]) {
        quote_trim_front(s.drop_first())
    } else {
        s
    }
}

/// A sequence without trailing quote characters.
pub open spec fn quote_trim_back(s: Seq<char>) -> Seq<char>
    decreases s.len(),
{
    if s.len() > 0 && spec_is_quote(s.last()) {
        quote_trim_back(s.drop_last())
    } else {
        s
    }
}

/// A sequence without quote characters at either end.
pub open spec fn spec_quote_trim(s: Seq<char>) -> Seq<char> {
    quote_trim_back(quote_trim_front(s))
}

/// Dropping a quoted prefix moves `quote_trim_front` along.
proof fn lemma_quote_front_skip(s: Seq<char>, i: int)
    requires
        0 <= i <= s.len(),
        forall|j: int| 0 <= j < i ==> spec_is_quote(s[j]),
    ensures
        quote_trim_front(s) == quote_trim_front(s.skip(i)),
    decreases i,
{
    if i == 0 {
        assert(s.skip(0) =~= s);
    } else {
        assert(s.drop_first().skip(i - 1) =~= s.skip(i));
        assert forall|j: int| 0 <= j < i - 1 implies spec_is_quote(s.drop_first()[j]) by {
            assert(s.drop_first()[j] == s[j + 1]);
        }
        lemma_quote_front_skip(s.drop_first(), i - 1);
    }
}

/// Dropping a quoted suffix moves `quote_trim_back` along.
proof fn lemma_quote_back_take(s: Seq<char>, i: int)
    requires
        0 <= i <= s.len(),
        forall|j: int| i <= j < s.len() ==> spec_is_quote(s[j]),
    ensures
        quote_trim_back(s) == quote_trim_back(s.take(i)),
    decreases s.len() - i,
{
    if i == s.len() {
        assert(s.take(i) =~= s);
    } else {
        assert(s.drop_last() =~= s.take(s.len() - 1));
        lemma_quote_back_take(s.take(s.len() - 1), i);
        assert(s.take(s.len() - 1).take(i) =~= s.take(i));
    }
}

/// The copy of a character vector without quotes at either end.
fn quote_trim_chars(v: &Vec<char>) -> (r: Vec<char>)
    ensures
        r@ == spec_quote_trim(v@),
{
    let n = v.len();
    let mut start: usize = 0;
    while start < n && (v[start] == '\'' || v[start] == '"')
        invariant
            n == v@.len(),
            0 <= start <= n,
            forall|j: int| 0 <= j < start ==> spec_is_quote(v@[j]),
        decreases n - start,
    {
        start = start + 1;
    }
    proof {
        lemma_quote_front_skip(v@, start as int);
        assert(quote_trim_front(v@) == v@.skip(start as int));
    }
    let mut end: usize = n;
    while end > start && (v[end - 1] == '\'' || v[end - 1] == '"')
        invariant
            n == v@.len(),
            start <= end <= n,
            quote_trim_front(v@) == v@.skip(start as int),
            forall|j: int| end <= j < n ==> spec_is_quote(v@[j]),
        decreases end,
    {
        end = end - 1;
    }
    proof {
        let t = v@.skip(start as int);
        assert forall|j: int| end - start <= j < t.len() implies spec_is_quote(t[j]) by {
            assert(t[j] == v@[j + start]);
        }
        lemma_quote_back_take(t, end - start);
        assert(t.take(end - start) =~= v@.subrange(start as int, end as int));
        if end > start {
            assert(!spec_is_quote(t.take(end - start).last()));
        }
    }
    let mut out: Vec<char> = Vec::new();
    let mut i: usize = start;
    while i < end
        invariant
            start <= i <= end <= n,
            n == v@.len(),
            out@.len() == i - start,
            forall|j: int| 0 <= j < i - start ==> out@[j] == v@[j + start],
        decreases end - i,
    {
        out.push(v[i]);
        i = i + 1;
    }
    proof {
        assert(out@ =~= v@.subrange(start as int, end as int));
    }
    out
}

/// What one `fg(...)`/`bg(...)` part contributes, folding over the parts in
/// order: a later color for a lane replaces an earlier one; a part that
/// names no lane, or a malformed triple, fails the whole parse.
pub open spec fn spec_colors_fold(
    parts: Seq<Seq<char>>,
    fg: Option<Seq<u8>>,
    bg: Option<Seq<u8>>,
) -> Option<(Option<Seq<u8>>, Option<Seq<u8>>)>
    decreases parts.len(),
{
    if parts.len() == 0 {
        Some((fg, bg))
    } else {
        let p = spec_trim(parts[0]);
        if crate::strutil::spec_starts_with(p, "bg"@) {
            match spec_parse_color(spec_trim(p.skip(2))) {
                Some(c) => spec_colors_fold(parts.drop_first(), fg, Some(c)),
                None => None,
            }
        } else if crate::strutil::spec_starts_with(p, "fg"@) {
            match spec_parse_color(spec_trim(p.skip(2))) {
                Some(c) => spec_colors_fold(parts.drop_first(), Some(c), bg),
                None => None,
            }
        } else {
            None
        }
    }
}

/// What parsing a whole color option yields: the value is trimmed and
/// unquoted, split on `;`, and each part sets the foreground or the
/// background lane.
pub open spec fn spec_parse_colors(s: Seq<char>) -> Option<(Option<Seq<u8>>, Option<Seq<u8>>)> {
    spec_colors_fold(spec_split(spec_quote_trim(spec_trim(s)), ';'), None, None)
}

/// Peeling one part off the fold.
proof fn lemma_colors_fold_skip(
    parts: Seq<Seq<char>>,
    fg: Option<Seq<u8>>,
    bg: Option<Seq<u8>>,
    i: int,
)
    requires
        0 <= i < parts.len(),
    ensures
        spec_colors_fold(parts.skip(i), fg, bg) == ({
            let p = spec_trim(parts[i]);
            if crate::strutil::spec_starts_with(p, "bg"@) {
                match spec_parse_color(spec_trim(p.skip(2))) {
                    Some(c) => spec_colors_fold(parts.skip(i + 1), fg, Some(c)),
                    None => None,
                }
            } else if crate::strutil::spec_starts_with(p, "fg"@) {
                match spec_parse_color(spec_trim(p.skip(2))) {
                    Some(c) => spec_colors_fold(parts.skip(i + 1), Some(c), bg),
                    None => None,
                }
            } else {
                None
            }
        }),
{
    assert(parts.skip(i)[0] == parts[i]);
    assert(parts.skip(i).drop_first() =~= parts.skip(i + 1));
}

/// Parse foreground and background colors from an option value such as
/// `fg(255,0,123);bg(0,123,255)`.
pub fn parse_colors(s: &str) -> (r: Result<(Option<[u8; 3]>, Option<[u8; 3]>), AppError>)
    ensures
        match r {
            Ok(c) => spec_parse_colors(s@) == Some(
                (
                    match c.0 {
                        Some(x) => Some(x@),
                        None => None,
                    },
                    match c.1 {
                        Some(x) => Some(x@),
                        None => None,
                    },
                ),
            ),
            Err(e) => spec_parse_colors(s@) is None && e@ == AppErrorView::ColorParseError,
        },
{
    let v = chars_of(s);
    let t = trim_chars(&v);
    let u = quote_trim_chars(&t);
    let parts = split_chars(&u, ';');
    let ghost pv = spec_split(u@, ';');
    let mut fg: Option<[u8; 3]> = None;
    let mut bg: Option<[u8; 3]> = None;
    let n = parts.len();
    proof {
        assert(pv.skip(0) =~= pv);
    }
    for i in 0..n
        invariant
            n == parts@.len(),
            pv == spec_split(u@, ';'),
            pv == char_vecs_view(parts@),
            pv.len() == n,
            spec_parse_colors(s@) == spec_colors_fold(pv, None, None),
            spec_colors_fold(pv, None, None) == spec_colors_fold(
                pv.skip(i as int),
                match fg {
                    Some(x) => Some(x@),
                    None => None,
                },
                match bg {
                    Some(x) => Some(x@),
                    None => None,
                },
            ),
    {
        proof {
            lemma_colors_fold_skip(
                pv,
                match fg {
                    Some(x) => Some(x@),
                    None => None,
                },
                match bg {
                    Some(x) => Some(x@),
                    None => None,
                },
                i as int,
            );
            assert(pv[i as int] == parts@[i as int]@);
        }
        let part = trim_chars(&parts[i]);
        let is_bg = part.len() >= 2 && part[0] == 'b' && part[1] == 'g';
        let is_fg = !is_bg && part.len() >= 2 && part[0] == 'f' && part[1] == 'g';
        proof {
            reveal_strlit("bg");
            reveal_strlit("fg");
            assert(crate::strutil::spec_starts_with(part@, "bg"@) == is_bg) by {
                if part@.len() >= 2 {
                    assert(part@.subrange(0, 2)[0] == part@[0]);
                    assert(part@.subrange(0, 2)[1] == part@[1]);
                    if part@[0] == 'b' && part@[1] == 'g' {
                        assert(part@.subrange(0, 2) =~= "bg"@);
                    }
                }
            }
            assert(crate::strutil::spec_starts_with(part@, "fg"@) == is_fg) by {
                if part@.len() >= 2 {
                    assert(part@.subrange(0, 2)[0] == part@[0]);
                    assert(part@.subrange(0, 2)[1] == part@[1]);
                    if part@[0] == 'f' && part@[1] == 'g' {
                        assert(part@.subrange(0, 2) =~= "fg"@);
                    }
                    if part@.subrange(0, 2) == "fg"@ {
                        assert(part@[0] == 'f' && part@[1] == 'g');
                        assert(!is_bg);
                    }
                }
            }
        }
        if !(is_bg || is_fg) {
            return Err(AppError::ColorParseError);
        }
        let mut rgb: Vec<char> = Vec::new();
        let mut j: usize = 2;
        let m = part.len();
        while j < m
            invariant
                2 <= j <= m,
                m == part@.len(),
                m >= 2,
                rgb@.len() == j - 2,
                forall|k: int| 0 <= k < j - 2 ==> rgb@[k] == part@[k + 2],
            decreases m - j,
        {
            rgb.push(part[j]);
            j = j + 1;
        }
        proof {
            assert(rgb@ =~= part@.skip(2));
        }
        let rgb_t = trim_chars(&rgb);
        match parse_color_chars(&rgb_t) {
            Ok(c) => {
                if is_bg {
                    bg = Some(c);
                } else {
                    fg = Some(c);
                }
            },
            Err(e) => {
                return Err(e);
            },
        }
    }
    proof {
        assert(pv.skip(n as int) =~= Seq::<Seq<char>>::empty());
    }
    Ok((fg, bg))
}

} // verus!
