use vstd::prelude::*;
use vstd::string::StringSliceAdditionalSpecFns;

verus! {

/// `prefix` followed by `rest`, as a new string.
pub fn concat(prefix: &str, rest: &str) -> (res: String)
    ensures
        res@ == prefix@ + rest@,
{
    let mut s = String::from_str(prefix);
    s.append(rest);
    s
}

/// The character of a decimal digit.
pub open spec fn digit_char(d: nat) -> char {
    if d == 0 { '0' }
    else if d == 1 { '1' }
    else if d == 2 { '2' }
    else if d == 3 { '3' }
    else if d == 4 { '4' }
    else if d == 5 { '5' }
    else if d == 6 { '6' }
    else if d == 7 { '7' }
    else if d == 8 { '8' }
    else { '9' }
}

/// The decimal writing of `n`, without sign or leading zeros.
pub open spec fn decimal(n: nat) -> Seq<char>
    decreases n,
{
    if n < 10 {
        seq![digit_char(n)]
    } else {
        decimal(n / 10).push(digit_char(n % 10))
    }
}

fn digit_text(d: u64) -> (res: &'static str)
    requires
        d < 10,
    ensures
        res@ == seq![digit_char(d as nat)],
{
    proof {
        reveal_strlit("0");
        reveal_strlit("1");
        reveal_strlit("2");
        reveal_strlit("3");
        reveal_strlit("4");
        reveal_strlit("5");
        reveal_strlit("6");
        reveal_strlit("7");
        reveal_strlit("8");
        reveal_strlit("9");
    }
    if d == 0 { "0" }
    else if d == 1 { "1" }
    else if d == 2 { "2" }
    else if d == 3 { "3" }
    else if d == 4 { "4" }
    else if d == 5 { "5" }
    else if d == 6 { "6" }
    else if d == 7 { "7" }
    else if d == 8 { "8" }
    else { "9" }
}

fn push_decimal(out: &mut String, n: u64)
    ensures
        final(out)@ == old(out)@ + decimal(n as nat),
    decreases n,
{
    if n >= 10 {
        push_decimal(out, n / 10);
    }
    out.append(digit_text(n % 10));
    proof {
        if n >= 10 {
            assert(decimal(n as nat) == decimal((n / 10) as nat).push(digit_char((n % 10) as nat)));
        }
    }
}

/// The decimal writing of `n`.
pub fn decimal_text(n: u64) -> (res: String)
    ensures
        res@ == decimal(n as nat),
{
    let mut s = String::new();
    push_decimal(&mut s, n);
    s
}

/// `prefix` followed by the decimal writing of `n`.
pub fn concat_decimal(prefix: &str, n: u64) -> (res: String)
    ensures
        res@ == prefix@ + decimal(n as nat),
{
    let mut s = String::from_str(prefix);
    push_decimal(&mut s, n);
    s
}

/// An ASCII decimal digit.
pub open spec fn is_digit_byte(b: u8) -> bool {
    48 <= b <= 57
}

/// The number written by a sequence of ASCII decimal digits.
pub open spec fn digits_value(ds: Seq<u8>) -> nat
    decreases ds.len(),
{
    if ds.len() == 0 {
        0
    } else {
        digits_value(ds.drop_last()) * 10 + (ds.last() - 48) as nat
    }
}

/// The digits of an unsigned number's text: the text after one leading `+`, if any.
pub open spec fn unsigned_digits(bytes: Seq<u8>) -> Seq<u8> {
    if bytes.len() > 0 && bytes[0] == 43 {
        bytes.drop_first()
    } else {
        bytes
    }
}

/// What parsing an unsigned integer type whose largest value is `max` gives:
/// the text is an optional `+` followed by at least one ASCII digit, and the
/// number they write is at most `max`; otherwise there is no value.
pub open spec fn parse_unsigned_spec(bytes: Seq<u8>, max: nat) -> Option<nat> {
    let ds = unsigned_digits(bytes);
    if ds.len() > 0 && (forall|i: int| 0 <= i < ds.len() ==> is_digit_byte(#[trigger] ds[i]))
        && digits_value(ds) <= max {
        Some(digits_value(ds))
    } else {
        None
    }
}

proof fn lemma_digits_value_prefix(ds: Seq<u8>, k: int)
    requires
        0 <= k <= ds.len(),
        forall|i: int| 0 <= i < ds.len() ==> is_digit_byte(#[trigger] ds[i]),
    ensures
        digits_value(ds.subrange(0, k)) <= digits_value(ds),
    decreases ds.len(),
{
    if k < ds.len() {
        assert(ds.drop_last().subrange(0, k) =~= ds.subrange(0, k));
        lemma_digits_value_prefix(ds.drop_last(), k);
    } else {
        assert(ds.subrange(0, k) =~= ds);
    }
}

/// Parses the text of an unsigned number whose largest allowed value is `max`.
pub fn parse_unsigned(text: &str, max: u64) -> (res: Option<u64>)
    ensures
        match parse_unsigned_spec(text.spec_bytes(), max as nat) {
            Some(v) => res == Some(v as u64),
            None => res is None,
        },
{
    let bytes = text.as_bytes();
    let n = bytes.len();
    let mut start: usize = 0;
    if n > 0 && bytes[0] == 43 {
        start = 1;
    }
    let ghost ds = unsigned_digits(bytes@);
    assert(ds =~= bytes@.subrange(start as int, n as int));
    if start == n {
        return None;
    }
    let mut acc: u64 = 0;
    let mut i: usize = start;
    while i < n
        invariant
            bytes@ == text.spec_bytes(),
            n == bytes@.len(),
            ds == bytes@.subrange(start as int, n as int),
            ds == unsigned_digits(bytes@),
            start <= i <= n,
            acc as nat == digits_value(bytes@.subrange(start as int, i as int)),
            acc <= max,
            forall|k: int| start <= k < i ==> is_digit_byte(#[trigger] bytes@[k]),
        decreases n - i,
    {
        let b = bytes[i];
        if b < 48 || b > 57 {
            proof {
                assert(!is_digit_byte(ds[i - start]));
            }
            return None;
        }
        let d = (b - 48) as u64;
        let ghost next = bytes@.subrange(start as int, i + 1);
        proof {
            assert(next.drop_last() =~= bytes@.subrange(start as int, i as int));
        }
        if d > max || acc > (max - d) / 10 {
            proof {
                assert(acc * 10 + d > max) by (nonlinear_arith)
                    requires
                        d > max || acc > (max - d) / 10,
                        d <= max ==> (max - d) / 10 * 10 + 10 > max - d,
                {
                }
                assert(digits_value(next) > max);
                if forall|k: int| 0 <= k < ds.len() ==> is_digit_byte(#[trigger] ds[k]) {
                    assert(ds.subrange(0, i + 1 - start) =~= next);
                    lemma_digits_value_prefix(ds, i + 1 - start);
                }
            }
            return None;
        }
        proof {
            assert(acc * 10 + d <= max) by (nonlinear_arith)
                requires
                    d <= max,
                    acc <= (max - d) / 10,
                    (max - d) / 10 * 10 <= max - d,
            {
            }
        }
        acc = acc * 10 + d;
        i = i + 1;
    }
    proof {
        assert(bytes@.subrange(start as int, n as int) =~= ds);
        assert forall|k: int| 0 <= k < ds.len() implies is_digit_byte(#[trigger] ds[k]) by {
            assert(ds[k] == bytes@[k + start]);
        }
    }
    Some(acc)
}

/// Joining a path with one more part, as a Unix path: an absolute part
/// replaces the path; otherwise the part is appended, with a `/` between the
/// two unless the path is empty or already ends with `/`.
pub open spec fn path_join(base: Seq<char>, part: Seq<char>) -> Seq<char> {
    if part.len() > 0 && part[0] == '/' {
        part
    } else if base.len() == 0 || base.last() == '/' {
        base + part
    } else {
        base + seq!['/'] + part
    }
}

/// Joins a path with one more part.
pub fn join_path(base: &str, part: &str) -> (res: String)
    ensures
        res@ == path_join(base@, part@),
{
    let part_len = part.unicode_len();
    if part_len > 0 && part.get_char(0) == '/' {
        return String::from_str(part);
    }
    let base_len = base.unicode_len();
    if base_len == 0 || base.get_char(base_len - 1) == '/' {
        concat(base, part)
    } else {
        proof {
            reveal_strlit("/");
        }
        let with_sep = concat(base, "/");
        concat(with_sep.as_str(), part)
    }
}

/// Lines joined with a newline between each two.
pub open spec fn join_lines(lines: Seq<Seq<char>>) -> Seq<char>
    decreases lines.len(),
{
    if lines.len() == 0 {
        seq![]
    } else if lines.len() == 1 {
        lines[0]
    } else {
        join_lines(lines.drop_last()) + seq!['\n'] + lines.last()
    }
}

/// The views of a sequence of strings.
pub open spec fn string_views(v: Seq<String>) -> Seq<Seq<char>> {
    v.map_values(|s: String| s@)
}

/// Lines joined with a newline between each two.
pub fn join_with_newlines(lines: &Vec<String>) -> (res: String)
    ensures
        res@ == join_lines(string_views(lines@)),
{
    let mut res = String::new();
    let ghost views = string_views(lines@);
    let mut i: usize = 0;
    while i < lines.len()
        invariant
            views == string_views(lines@),
            i <= lines.len(),
            res@ == join_lines(views.take(i as int)),
        decreases lines.len() - i,
    {
        proof {
            assert(views.take(i + 1).drop_last() =~= views.take(i as int));
        }
        if i != 0 {
            proof {
                reveal_strlit("\n");
            }
            res.append("\n");
        }
        res.append(lines[i].as_str());
        proof {
            if i == 0 {
                assert(views.take(1) =~= seq![views[0]]);
            }
        }
        i = i + 1;
    }
    proof {
        assert(views.take(lines.len() as int) =~= views);
    }
    res
}

} // verus!
