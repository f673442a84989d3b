use vstd::prelude::*;
use crate::text::{
    all_digits, chars_of, digits_value, find_char, has_prefix_at, is_digit, parse_u64, parse_unsigned,
    unsigned_digits,
};

verus! {

/// The index of the first `c` in `s`, or `s.len()` where there is none.
pub open spec fn first_index_of(s: Seq<char>, c: char) -> int
    decreases s.len(),
{
    if s.len() == 0 {
        0
    } else if s[0] == c {
        0
    } else {
        1 + first_index_of(s.drop_first(), c)
    }
}

pub open spec fn bytes_unit() -> Seq<char> {
    seq!['b', 'y', 't', 'e', 's', '=']
}

/// What a `Range` header asks of a file of `total` bytes, as the inclusive
/// byte positions `(start, end)`: only the first range of the header counts;
/// `a-b` asks for `a..=b`, `a-` for `a` to the end, `-n` for the last `n`
/// bytes (the whole file where it has fewer). A request that the file cannot
/// satisfy, an empty file, or a header of another form gives `None`.
pub open spec fn spec_parse_range(value: Seq<char>, total: u64) -> Option<(u64, u64)> {
    if !(value.len() >= 6 && value.take(6) == bytes_unit()) {
        None
    } else {
        let rest = value.skip(6);
        let part = rest.take(first_index_of(rest, ','));
        let dash = first_index_of(part, '-');
        if dash == part.len() || total == 0 {
            None
        } else {
            let left = parse_unsigned(part.take(dash), u64::MAX as nat);
            let right = parse_unsigned(part.skip(dash + 1), u64::MAX as nat);
            match (left, right) {
                (Some(start), Some(end)) => if start <= end && end < total {
                    Some((start as u64, end as u64))
                } else {
                    None
                },
                (Some(start), None) => if start < total {
                    Some((start as u64, (total - 1) as u64))
                } else {
                    None
                },
                (None, Some(last)) => if last > 0 {
                    Some((if last >= total { 0u64 } else { (total - last) as u64 }, (total - 1) as u64))
                } else {
                    None
                },
                _ => None,
            }
        }
    }
}

proof fn lemma_first_index_of(s: Seq<char>, c: char, k: int)
    requires
        0 <= k <= s.len(),
        forall|j: int| 0 <= j < k ==> s[j] != c,
        k < s.len() ==> s[k] == c,
    ensures
        first_index_of(s, c) == k,
    decreases k,
{
    if k > 0 {
        lemma_first_index_of(s.drop_first(), c, k - 1);
    }
}

/// Reads a `Range` header for a file of `total` bytes.
pub fn parse_range(value: &str, total: u64) -> (r: Option<(u64, u64)>)
    ensures
        r == spec_parse_range(value@, total),
        r matches Some((start, end)) ==> start <= end < total,
{
    let v = chars_of(value);
    let unit = vec!['b', 'y', 't', 'e', 's', '='];
    proof {
        assert(unit@ =~= bytes_unit());
    }
    if !has_prefix_at(&v, 0, &unit) {
        proof {
            if v@.len() >= 6 {
                assert(v@.subrange(0, 6) =~= v@.take(6));
            }
        }
        return None;
    }
    proof {
        assert(v@.subrange(0, 6) =~= v@.take(6));
    }
    let ghost rest = v@.skip(6);
    let comma = find_char(&v, 6, v.len(), ',');
    proof {
        assert(v@.subrange(6, v@.len() as int) =~= rest);
        lemma_first_index_of(rest, ',', comma - 6);
    }
    let ghost part = rest.take(comma - 6);
    let dash = find_char(&v, 6, comma, '-');
    proof {
        assert(part =~= v@.subrange(6, comma as int));
        lemma_first_index_of(part, '-', dash - 6);
    }
    if dash == comma {
        return None;
    }
    if total == 0 {
        return None;
    }
    let left = parse_u64(&v, 6, dash);
    let right = parse_u64(&v, dash + 1, comma);
    proof {
        assert(part.take(dash - 6) =~= v@.subrange(6, dash as int));
        assert(part.skip(dash - 6 + 1) =~= v@.subrange(dash + 1, comma as int));
    }
    match (left, right) {
        (Some(start), Some(end)) => {
            if start <= end && end < total {
                Some((start, end))
            } else {
                None
            }
        },
        (Some(start), None) => {
            if start < total {
                Some((start, total - 1))
            } else {
                None
            }
        },
        (None, Some(last)) => {
            if last > 0 {
                Some((total.saturating_sub(last), total - 1))
            } else {
                None
            }
        },
        _ => None,
    }
}

/// The part of a file that a download sends.
#[derive(Debug)]
pub struct ByteWindow {
    /// First byte sent.
    pub start: u64,
    /// Last byte sent (0 for an empty file).
    pub end: u64,
    /// Number of bytes sent.
    pub length: u64,
    /// A `206 Partial Content` answer to a satisfiable range.
    pub partial: bool,
}

/// The window that answers a download of a file of `total` bytes, given the
/// text of its `Range` header where it has one.
pub open spec fn spec_download_window(range: Option<Seq<char>>, total: u64) -> ByteWindow {
    let asked = match range {
        Some(v) => spec_parse_range(v, total),
        None => None,
    };
    let (start, end, partial) = match asked {
        Some((s, e)) => (s, e, true),
        None => (0u64, if total == 0 { 0u64 } else { (total - 1) as u64 }, false),
    };
    ByteWindow {
        start,
        end,
        length: if total == 0 { 0u64 } else { (end - start + 1) as u64 },
        partial,
    }
}

/// Decides which bytes of a file of `total` bytes a download sends.
pub fn download_window(range: Option<&str>, total: u64) -> (w: ByteWindow)
    ensures
        w == spec_download_window(
            match range {
                Some(v) => Some(v@),
                None => None,
            },
            total,
        ),
        w.length <= total,
        w.length > 0 ==> w.start + w.length <= total && w.end == w.start + w.length - 1,
{
    let asked = match range {
        Some(v) => parse_range(v, total),
        None => None,
    };
    let (start, end, partial) = match asked {
        Some((s, e)) => (s, e, true),
        None => (0u64, total.saturating_sub(1), false),
    };
    let length = if total == 0 {
        0
    } else {
        end - start + 1
    };
    ByteWindow { start, end, length, partial }
}

} // verus!

verus! {

/// The decimal text of `n`, without leading zeros.
pub open spec fn decimal_text(n: nat) -> Seq<char>
    decreases n,
{
    if n < 10 {
        seq![(0x30 + n) as char]
    } else {
        decimal_text(n / 10) + seq![(0x30 + n % 10) as char]
    }
}

/// The decimal text of `n`, as `u64`'s `Display` writes it.
pub fn decimal(n: u64) -> (s: String)
    ensures
        s@ == decimal_text(n as nat),
    decreases n,
{
    let digit = char_of_digit(n % 10);
    if n < 10 {
        let mut s = String::new();
        crate::text::push_char(&mut s, digit);
        proof {
            assert(s@ =~= decimal_text(n as nat));
        }
        s
    } else {
        let mut s = decimal(n / 10);
        crate::text::push_char(&mut s, digit);
        s
    }
}

fn char_of_digit(d: u64) -> (c: char)
    requires
        d < 10,
    ensures
        c == (0x30 + d) as char,
{
    if d == 0 {
        '0'
    } else if d == 1 {
        '1'
    } else if d == 2 {
        '2'
    } else if d == 3 {
        '3'
    } else if d == 4 {
        '4'
    } else if d == 5 {
        '5'
    } else if d == 6 {
        '6'
    } else if d == 7 {
        '7'
    } else if d == 8 {
        '8'
    } else {
        '9'
    }
}

/// The `Content-Range` header of a partial answer: `bytes start-end/total`.
pub fn content_range(start: u64, end: u64, total: u64) -> (s: String)
    ensures
        s@ == "bytes "@ + decimal_text(start as nat) + "-"@ + decimal_text(end as nat) + "/"@
            + decimal_text(total as nat),
{
    let mut s = "bytes ".to_owned();
    s.append(decimal(start).as_str());
    s.append("-");
    s.append(decimal(end).as_str());
    s.append("/");
    s.append(decimal(total).as_str());
    s
}

/// A character of a file name that cannot stand in a quoted header value:
/// carriage return, line feed and the double quote.
pub open spec fn header_unsafe(c: char) -> bool {
    c == '\r' || c == '\n' || c == '"'
}

/// `name` with each header-unsafe character replaced by `_`.
pub open spec fn safe_file_name(name: Seq<char>) -> Seq<char> {
    name.map_values(|c: char| if header_unsafe(c) { '_' } else { c })
}

/// The `Content-Disposition` header of a download: an attachment named
/// after the artifact's original file, made safe for a quoted value.
pub fn content_disposition(file_name: &str) -> (s: String)
    ensures
        s@ == "attachment; filename=\""@ + safe_file_name(file_name@) + "\""@,
{
    let v = chars_of(file_name);
    let mut safe = String::new();
    let mut i: usize = 0;
    while i < v.len()
        invariant
            i <= v@.len(),
            v@ == file_name@,
            safe@ == safe_file_name(v@.take(i as int)),
        decreases v@.len() - i,
    {
        let c = v[i];
        let out = if c == '\r' || c == '\n' || c == '"' {
            '_'
        } else {
            c
        };
        crate::text::push_char(&mut safe, out);
        proof {
            assert(safe_file_name(v@.take(i + 1)) =~= safe_file_name(v@.take(i as int)).push(out));
        }
        i = i + 1;
    }
    proof {
        assert(v@.take(i as int) =~= v@);
    }
    let mut s = "attachment; filename=\"".to_owned();
    s.append(safe.as_str());
    s.append("\"");
    s
}

/// The file name in a `Content-Disposition` header keeps its length and
/// every character but carriage return, line feed and the double quote,
/// each of which becomes `_`; so no such character is left in it.
pub proof fn lemma_safe_file_name(name: Seq<char>)
    ensures
        safe_file_name(name).len() == name.len(),
        forall|i: int| 0 <= i < name.len() && name[i] != '\r' && name[i] != '\n' && name[i] != '"'
            ==> #[trigger] safe_file_name(name)[i] == name[i],
        forall|i: int| 0 <= i < name.len() && (name[i] == '\r' || name[i] == '\n' || name[i] == '"')
            ==> #[trigger] safe_file_name(name)[i] == '_',
        forall|i: int| 0 <= i < name.len() ==> {
            let c = #[trigger] safe_file_name(name)[i];
            c != '\r' && c != '\n' && c != '"'
        },
{
}

/// The decimal text of a number is read back as that number.
pub proof fn lemma_decimal_text_parses(n: nat, max: nat)
    requires
        n <= max,
    ensures
        parse_unsigned(decimal_text(n), max) == Some(n),
{
    lemma_decimal_text_digits(n);
}

proof fn lemma_decimal_text_digits(n: nat)
    ensures
        decimal_text(n).len() > 0,
        all_digits(decimal_text(n)),
        digits_value(decimal_text(n)) == n,
        unsigned_digits(decimal_text(n)) == decimal_text(n),
        forall|i: int| 0 <= i < decimal_text(n).len() ==> is_digit(#[trigger] decimal_text(n)[i]),
    decreases n,
{
    let d = (0x30 + n % 10) as char;
    assert(is_digit(d));
    assert(((d as u32) - 0x30) as nat == n % 10);
    if n >= 10 {
        lemma_decimal_text_digits(n / 10);
        let t = decimal_text(n);
        assert(t.drop_last() =~= decimal_text(n / 10));
        assert(t.last() == d);
        assert(n == (n / 10) * 10 + n % 10);
        assert(digits_value(t) == digits_value(t.drop_last()) * 10 + crate::text::digit_value(t.last()));
        assert forall|i: int| 0 <= i < t.len() implies is_digit(#[trigger] t[i]) by {
            if i < t.len() - 1 {
                assert(t[i] == decimal_text(n / 10)[i]);
            }
        }
    } else {
        assert(decimal_text(n).drop_last() =~= Seq::<char>::empty());
        assert(decimal_text(n).last() == d);
        assert(digits_value(decimal_text(n)) == digits_value(Seq::<char>::empty()) * 10
            + crate::text::digit_value(d));
    }
}

proof fn lemma_decimal_text_plain(n: nat)
    ensures
        forall|i: int| 0 <= i < decimal_text(n).len() ==> {
            let c = #[trigger] decimal_text(n)[i];
            c != '-' && c != ',' && c != '+'
        },
{
    lemma_decimal_text_digits(n);
}

/// A range `bytes=a-b` within a file is answered with exactly the bytes
/// `a` to `b`; `bytes=a-` with the bytes from `a` to the end; `bytes=-n`
/// with the last `n` bytes, or the whole file where it has fewer. Positions
/// are written as `u64`'s `Display` writes them.
pub proof fn lemma_parse_range_forms(a: u64, b: u64, n: u64, total: u64)
    ensures
        a <= b < total ==> spec_parse_range(
            "bytes="@ + decimal_text(a as nat) + "-"@ + decimal_text(b as nat),
            total,
        ) == Some((a, b)),
        a < total ==> spec_parse_range("bytes="@ + decimal_text(a as nat) + "-"@, total) == Some(
            (a, (total - 1) as u64),
        ),
        total > 0 && n > 0 ==> spec_parse_range("bytes=-"@ + decimal_text(n as nat), total) == Some(
            (if n >= total { 0u64 } else { (total - n) as u64 }, (total - 1) as u64),
        ),
{
    reveal_strlit("bytes=");
    reveal_strlit("bytes=-");
    reveal_strlit("-");
    let da = decimal_text(a as nat);
    let db = decimal_text(b as nat);
    let dn = decimal_text(n as nat);
    lemma_decimal_text_plain(a as nat);
    lemma_decimal_text_plain(b as nat);
    lemma_decimal_text_plain(n as nat);
    lemma_decimal_text_parses(a as nat, u64::MAX as nat);
    lemma_decimal_text_parses(b as nat, u64::MAX as nat);
    lemma_decimal_text_parses(n as nat, u64::MAX as nat);
    assert(bytes_unit() =~= "bytes="@);
    assert(parse_unsigned(Seq::<char>::empty(), u64::MAX as nat) is None);
    if a <= b < total {
        let v = "bytes="@ + da + "-"@ + db;
        let rest = da + "-"@ + db;
        assert(v.take(6) =~= bytes_unit());
        assert(v.skip(6) =~= rest);
        lemma_first_index_of(rest, ',', rest.len() as int);
        assert(rest.take(rest.len() as int) =~= rest);
        lemma_first_index_of(rest, '-', da.len() as int);
        assert(rest.take(da.len() as int) =~= da);
        assert(rest.skip(da.len() as int + 1) =~= db);
    }
    if a < total {
        let v = "bytes="@ + da + "-"@;
        let rest = da + "-"@;
        assert(v.take(6) =~= bytes_unit());
        assert(v.skip(6) =~= rest);
        lemma_first_index_of(rest, ',', rest.len() as int);
        assert(rest.take(rest.len() as int) =~= rest);
        lemma_first_index_of(rest, '-', da.len() as int);
        assert(rest.take(da.len() as int) =~= da);
        assert(rest.skip(da.len() as int + 1) =~= Seq::<char>::empty());
    }
    if total > 0 && n > 0 {
        let v = "bytes=-"@ + dn;
        let rest = "-"@ + dn;
        assert(v.take(6) =~= bytes_unit());
        assert(v.skip(6) =~= rest);
        lemma_first_index_of(rest, ',', rest.len() as int);
        assert(rest.take(rest.len() as int) =~= rest);
        lemma_first_index_of(rest, '-', 0);
        assert(rest.take(0) =~= Seq::<char>::empty());
        assert(rest.skip(1) =~= dn);
    }
}

/// A download without a `Range` header, or with one the file cannot
/// satisfy, sends the whole file as a full answer; a satisfiable range sends
/// exactly the bytes it asks for as a partial answer.
pub proof fn lemma_download_window(range: Option<Seq<char>>, total: u64)
    ensures
        range is None ==> {
            let w = spec_download_window(range, total);
            &&& w.start == 0
            &&& w.length == total
            &&& !w.partial
        },
        range matches Some(v) ==> {
            let w = spec_download_window(range, total);
            &&& (w.partial <==> spec_parse_range(v, total) is Some)
            &&& (spec_parse_range(v, total) matches Some((s, e)) ==> w.start == s && w.end == e
                && w.length == e - s + 1)
            &&& (spec_parse_range(v, total) is None ==> w.start == 0 && w.length == total)
        },
{
    if let Some(v) = range {
        lemma_parse_range_bounds(v, total);
    }
}

proof fn lemma_parse_range_bounds(v: Seq<char>, total: u64)
    ensures
        spec_parse_range(v, total) matches Some((s, e)) ==> s <= e < total,
{
}

} // verus!
