use vstd::prelude::*;
use vstd::string::StringExecFns;
use vstd::string::StrSliceExecFns;
use crate::scrape::ConfigError;

verus! {

/// A line without its carriage return, if it ends in one.
pub open spec fn strip_cr(line: Seq<char>) -> Seq<char> {
    if line.len() > 0 && line.last() == '\r' {
        line.drop_last()
    } else {
        line
    }
}

/// `done` with `line` appended, unless the line is empty once its carriage
/// return is stripped.
pub open spec fn keep_line(done: Seq<Seq<char>>, line: Seq<char>) -> Seq<Seq<char>> {
    if strip_cr(line).len() == 0 {
        done
    } else {
        done.push(strip_cr(line))
    }
}

/// Reading `s` from the start: the lines kept so far, and the line still open.
pub open spec fn scan_lines(s: Seq<char>) -> (Seq<Seq<char>>, Seq<char>)
    decreases s.len(),
{
    if s.len() == 0 {
        (Seq::empty(), Seq::empty())
    } else {
        let (done, open) = scan_lines(s.drop_last());
        if s.last() == '\n' {
            (keep_line(done, open), Seq::empty())
        } else {
            (done, open.push(s.last()))
        }
    }
}

/// The dorks of a list: every non-empty line, in order, without line ends.
pub open spec fn dork_list(s: Seq<char>) -> Seq<Seq<char>> {
    keep_line(scan_lines(s).0, scan_lines(s).1)
}

fn push_line(out: &mut Vec<String>, text: &str, from: usize, to: usize)
    requires
        from <= to <= text@.len(),
    ensures
        final(out).deep_view() == keep_line(old(out).deep_view(), text@.subrange(from as int, to as int)),
{
    let ghost line = text@.subrange(from as int, to as int);
    let mut end = to;
    if to > from && text.get_char(to - 1) == '\r' {
        end = to - 1;
    }
    assert(text@.subrange(from as int, end as int) =~= strip_cr(line));
    if end > from {
        let ghost before = out.deep_view();
        out.push(String::from_str(text.substring_char(from, end)));
        assert(out.deep_view() =~= before.push(strip_cr(line)));
    }
}

/// Splits a dork list into its dorks: every non-empty line, in order, with
/// `\n` or `\r\n` line ends removed.
pub fn dork_lines(text: &str) -> (r: Vec<String>)
    ensures
        r.deep_view() == dork_list(text@),
{
    let n = text.unicode_len();
    let mut out: Vec<String> = Vec::new();
    let mut start: usize = 0;
    let mut i: usize = 0;
    assert(out.deep_view() =~= Seq::<Seq<char>>::empty());
    assert(text@.subrange(0, 0) =~= Seq::<char>::empty());
    while i < n
        invariant
            0 <= start <= i <= n,
            n == text@.len(),
            scan_lines(text@.subrange(0, i as int)) == (
                out.deep_view(),
                text@.subrange(start as int, i as int),
            ),
        decreases n - i,
    {
        let c = text.get_char(i);
        assert(text@.subrange(0, i + 1).drop_last() =~= text@.subrange(0, i as int));
        if c == '\n' {
            push_line(&mut out, text, start, i);
            start = i + 1;
            assert(text@.subrange(start as int, i + 1) =~= Seq::<char>::empty());
        } else {
            assert(text@.subrange(start as int, i + 1) =~= text@.subrange(start as int, i as int).push(c));
        }
        i = i + 1;
    }
    assert(text@.subrange(0, n as int) =~= text@);
    push_line(&mut out, text, start, n);
    out
}

/// Resolves where the dorks come from: one dork given directly, or the text
/// of a dork list. Exactly one of the two must be given; a single dork must
/// not be empty.
pub fn resolve_dorks(single: Option<String>, list_text: Option<String>) -> (r: Result<
    Vec<String>,
    ConfigError,
>)
    ensures
        match (single, list_text) {
            (None, None) => r == Err::<Vec<String>, ConfigError>(ConfigError::MissingDorkSource),
            (Some(_), Some(_)) => r == Err::<Vec<String>, ConfigError>(
                ConfigError::ConflictingDorkSources,
            ),
            (Some(d), None) => if d@.len() == 0 {
                r == Err::<Vec<String>, ConfigError>(ConfigError::EmptyDork)
            } else {
                r is Ok && r->Ok_0.deep_view() == seq![d@]
            },
            (None, Some(t)) => r is Ok && r->Ok_0.deep_view() == dork_list(t@),
        },
{
    match (single, list_text) {
        (None, None) => Err(ConfigError::MissingDorkSource),
        (Some(_), Some(_)) => Err(ConfigError::ConflictingDorkSources),
        (Some(d), None) => {
            if d.as_str().unicode_len() == 0 {
                Err(ConfigError::EmptyDork)
            } else {
                let mut v: Vec<String> = Vec::new();
                v.push(d);
                assert(v.deep_view() =~= seq![v@[0]@]);
                Ok(v)
            }
        },
        (None, Some(t)) => Ok(dork_lines(t.as_str())),
    }
}

/// Characters that a query value carries as they are.
pub open spec fn unreserved(c: char) -> bool {
    ('a' <= c && c <= 'z') || ('A' <= c && c <= 'Z') || ('0' <= c && c <= '9') || c == '-' || c
        == '_' || c == '.' || c == '~'
}

/// The UTF-8 encoding of a character.
pub open spec fn utf8_bytes(c: char) -> Seq<u8> {
    let v = c as u32;
    if v < 0x80 {
        seq![v as u8]
    } else if v < 0x800 {
        seq![(0xC0 | (v >> 6)) as u8, (0x80 | (v & 0x3F)) as u8]
    } else if v < 0x10000 {
        seq![(0xE0 | (v >> 12)) as u8, (0x80 | ((v >> 6) & 0x3F)) as u8, (0x80 | (v & 0x3F)) as u8]
    } else {
        seq![
            (0xF0 | (v >> 18)) as u8,
            (0x80 | ((v >> 12) & 0x3F)) as u8,
            (0x80 | ((v >> 6) & 0x3F)) as u8,
            (0x80 | (v & 0x3F)) as u8,
        ]
    }
}

pub open spec fn hex_digits() -> Seq<char> {
    "0123456789ABCDEF"@
}

/// `%` and two upper-case hex digits for each byte.
pub open spec fn percent_bytes(bs: Seq<u8>) -> Seq<char>
    decreases bs.len(),
{
    if bs.len() == 0 {
        Seq::empty()
    } else {
        percent_bytes(bs.drop_last()) + seq![
            '%',
            hex_digits()[(bs.last() / 16) as int],
            hex_digits()[(bs.last() % 16) as int],
        ]
    }
}

/// A character as it stands in a query value.
pub open spec fn encode_char(c: char) -> Seq<char> {
    if unreserved(c) {
        seq![c]
    } else {
        percent_bytes(utf8_bytes(c))
    }
}

/// Text percent-encoded for use as a query value.
pub open spec fn percent_encoded(s: Seq<char>) -> Seq<char>
    decreases s.len(),
{
    if s.len() == 0 {
        Seq::empty()
    } else {
        percent_encoded(s.drop_last()) + encode_char(s.last())
    }
}

/// The search page for a dork.
pub open spec fn search_url_of(dork: Seq<char>) -> Seq<char> {
    "https://www.google.com/search?q="@ + percent_encoded(dork)
}

fn push_percent(out: &mut String, b: u8)
    ensures
        final(out)@ == old(out)@ + seq!['%', hex_digits()[(b / 16) as int], hex_digits()[(b % 16) as int]],
{
    let digits = "0123456789ABCDEF";
    proof {
        reveal_strlit("0123456789ABCDEF");
        reveal_strlit("%");
    }
    let ghost before = out@;
    let hi = (b / 16) as usize;
    let lo = (b % 16) as usize;
    out.append("%");
    out.append(digits.substring_char(hi, hi + 1));
    out.append(digits.substring_char(lo, lo + 1));
    assert(digits@.subrange(hi as int, hi + 1) =~= seq![hex_digits()[hi as int]]);
    assert(digits@.subrange(lo as int, lo + 1) =~= seq![hex_digits()[lo as int]]);
    assert("%"@ =~= seq!['%']);
    assert(out@ =~= before + seq!['%', hex_digits()[(b / 16) as int], hex_digits()[(b % 16) as int]]);
}

fn utf8_of(c: char) -> (r: Vec<u8>)
    ensures
        r@ == utf8_bytes(c),
{
    let v = c as u32;
    let mut r: Vec<u8> = Vec::new();
    if v < 0x80 {
        r.push(v as u8);
    } else if v < 0x800 {
        r.push((0xC0 | (v >> 6)) as u8);
        r.push((0x80 | (v & 0x3F)) as u8);
    } else if v < 0x10000 {
        r.push((0xE0 | (v >> 12)) as u8);
        r.push((0x80 | ((v >> 6) & 0x3F)) as u8);
        r.push((0x80 | (v & 0x3F)) as u8);
    } else {
        r.push((0xF0 | (v >> 18)) as u8);
        r.push((0x80 | ((v >> 12) & 0x3F)) as u8);
        r.push((0x80 | ((v >> 6) & 0x3F)) as u8);
        r.push((0x80 | (v & 0x3F)) as u8);
    }
    assert(r@ =~= utf8_bytes(c));
    r
}

/// Percent-encodes text for use as a query value: letters, digits and
/// `-._~` stay, every other character becomes `%XX` for each of its UTF-8
/// bytes.
pub fn percent_encode(s: &str) -> (r: String)
    ensures
        r@ == percent_encoded(s@),
{
    let n = s.unicode_len();
    let mut out = String::new();
    let mut i: usize = 0;
    assert(s@.subrange(0, 0) =~= Seq::<char>::empty());
    while i < n
        invariant
            0 <= i <= n,
            n == s@.len(),
            out@ == percent_encoded(s@.subrange(0, i as int)),
        decreases n - i,
    {
        let c = s.get_char(i);
        let ghost before = out@;
        if unreserved_char(c) {
            out.append(s.substring_char(i, i + 1));
            assert(s@.subrange(i as int, i + 1) =~= seq![c]);
        } else {
            let bytes = utf8_of(c);
            let mut j: usize = 0;
            assert(bytes@.subrange(0, 0) =~= Seq::<u8>::empty());
            while j < bytes.len()
                invariant
                    0 <= j <= bytes@.len(),
                    out@ == before + percent_bytes(bytes@.subrange(0, j as int)),
                decreases bytes@.len() - j,
            {
                push_percent(&mut out, bytes[j]);
                j = j + 1;
                assert(bytes@.subrange(0, j as int).drop_last() =~= bytes@.subrange(0, j - 1));
                assert(out@ =~= before + percent_bytes(bytes@.subrange(0, j as int)));
            }
            assert(bytes@.subrange(0, bytes@.len() as int) =~= bytes@);
        }
        assert(s@.subrange(0, i + 1).drop_last() =~= s@.subrange(0, i as int));
        i = i + 1;
        assert(out@ =~= percent_encoded(s@.subrange(0, i as int)));
    }
    assert(s@.subrange(0, n as int) =~= s@);
    out
}

fn unreserved_char(c: char) -> (r: bool)
    ensures
        r == unreserved(c),
{
    ('a' <= c && c <= 'z') || ('A' <= c && c <= 'Z') || ('0' <= c && c <= '9') || c == '-' || c
        == '_' || c == '.' || c == '~'
}

/// The search page to fetch for a dork, with the dork percent-encoded as the
/// query value.
pub fn search_url(dork: &str) -> (r: String)
    ensures
        r@ == search_url_of(dork@),
{
    String::from_str("https://www.google.com/search?q=").concat(percent_encode(dork).as_str())
}

} // verus!
