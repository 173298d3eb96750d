//! Line-range selection for the explain command: parsing a line
//! specification such as `10` or `5-15`, and extracting the selected
//! lines from a file's content.

use vstd::prelude::*;

verus! {

use crate::text::{dec_str, string_from_chars, trimmed, trimmed_substring, usize_to_string};

/// The digits of a number field, after an optional leading plus sign.
pub open spec fn numeral_body(s: Seq<char>) -> Seq<char> {
    if s.len() > 0 && s[0] == '+' {
        s.skip(1)
    } else {
        s
    }
}

/// An ASCII decimal digit.
pub open spec fn is_digit(c: char) -> bool {
    '0' <= c && c <= '9'
}

/// A non-empty run of digits.
pub open spec fn all_digits(s: Seq<char>) -> bool {
    s.len() > 0 && forall|i: int| 0 <= i < s.len() ==> is_digit(#[trigger] s[i])
}

/// The value of a digit run, most significant first.
pub open spec fn digits_val(s: Seq<char>) -> int
    decreases s.len(),
{
    if s.len() == 0 {
        0
    } else {
        digits_val(s.take(s.len() - 1)) * 10 + (s[s.len() - 1] as int - 48)
    }
}

/// Whether a field parses as a `usize`: whitespace trimmed, an
/// optional plus sign, then digits whose value fits.
pub open spec fn parses_as_usize(s: Seq<char>) -> bool {
    all_digits(numeral_body(trimmed(s))) && digits_val(numeral_body(trimmed(s)))
        <= usize::MAX as int
}

/// The value of a field that parses.
pub open spec fn usize_value(s: Seq<char>) -> int {
    digits_val(numeral_body(trimmed(s)))
}

proof fn lemma_digits_val_nonneg(s: Seq<char>)
    requires
        forall|i: int| 0 <= i < s.len() ==> is_digit(#[trigger] s[i]),
    ensures
        digits_val(s) >= 0,
    decreases s.len(),
{
    if s.len() > 0 {
        lemma_digits_val_nonneg(s.take(s.len() - 1));
        let p = digits_val(s.take(s.len() - 1));
        assert(p * 10 >= 0) by (nonlinear_arith)
            requires
                p >= 0,
        ;
    }
}

/// A digit run is worth at least any of its prefixes.
proof fn lemma_digits_val_prefix(s: Seq<char>, i: int)
    requires
        0 <= i <= s.len(),
        forall|k: int| 0 <= k < s.len() ==> is_digit(#[trigger] s[k]),
    ensures
        digits_val(s) >= digits_val(s.take(i)),
    decreases s.len() - i,
{
    if i < s.len() {
        lemma_digits_val_prefix(s, i + 1);
        let p = digits_val(s.take(i + 1).take(i));
        assert(s.take(i + 1).take(i) =~= s.take(i));
        assert(digits_val(s.take(i + 1)) == p * 10 + (s[i] as int - 48));
        lemma_digits_val_nonneg(s.take(i));
        assert(p * 10 >= p) by (nonlinear_arith)
            requires
                p >= 0,
        ;
    } else {
        assert(s.take(i) =~= s);
    }
}

/// Parses one number field: whitespace trimmed (the Unicode
/// whitespace property, as `str::trim` removes it), an optional plus
/// sign, digits.  Returns the value exactly when the field parses as
/// a `usize`.
pub fn parse_usize_field(s: &str) -> (r: Option<usize>)
    ensures
        r is Some <==> parses_as_usize(s@),
        r matches Some(v) ==> v as int == usize_value(s@),
{
    let t = trimmed_substring(s);
    let n = t.unicode_len();
    if n == 0 {
        return None;
    }
    let start: usize = if t.get_char(0) == '+' {
        1
    } else {
        0
    };
    let ghost d = numeral_body(trimmed(s@));
    proof {
        assert(t@.skip(1) =~= t@.subrange(1, n as int));
        assert(d =~= t@.subrange(start as int, n as int));
    }
    if start >= n {
        return None;
    }
    let mut value: usize = 0;
    let mut j: usize = start;
    proof {
        assert(d.take(0) =~= Seq::<char>::empty());
    }
    while j < n
        invariant
            n == t@.len(),
            start <= j <= n,
            start < n,
            t@ == trimmed(s@),
            d =~= t@.subrange(start as int, n as int),
            d == numeral_body(trimmed(s@)),
            forall|i: int| 0 <= i < j - start ==> is_digit(#[trigger] d[i]),
            value as int == digits_val(d.take(j - start)),
        decreases n - j,
    {
        let c = t.get_char(j);
        if !(c >= '0' && c <= '9') {
            proof {
                assert(d[j - start] == c);
                assert(!all_digits(d));
            }
            return None;
        }
        let dv: usize = (c as usize) - 48;
        proof {
            assert(d[j - start] == c);
            assert(d.take(j - start + 1).take(j - start) =~= d.take(j - start));
            assert(digits_val(d.take(j - start + 1)) == value as int * 10 + dv);
        }
        if value > (usize::MAX - dv) / 10 {
            // The run is already too large for a usize: every longer
            // run is worth at least this much.
            proof {
                let q = (usize::MAX - dv) / 10int;
                vstd::arithmetic::div_mod::lemma_fundamental_div_mod(usize::MAX - dv, 10int);
                assert(value as int * 10 >= (q + 1) * 10) by (nonlinear_arith)
                    requires
                        value as int >= q + 1,
                ;
                assert(digits_val(d.take(j - start + 1)) > usize::MAX as int);
                if parses_as_usize(s@) {
                    lemma_digits_val_prefix(d, j - start + 1);
                    assert(false);
                }
            }
            return None;
        }
        proof {
            let q = (usize::MAX - dv) / 10int;
            vstd::arithmetic::div_mod::lemma_fundamental_div_mod(usize::MAX - dv, 10int);
            assert(value as int * 10 <= q * 10) by (nonlinear_arith)
                requires
                    value as int <= q,
            ;
        }
        value = value * 10 + dv;
        j = j + 1;
    }
    proof {
        assert(d.take(d.len() as int) =~= d);
        assert(all_digits(d));
    }
    Some(value)
}

/// The index of the first occurrence of a character, or the length
/// when there is none.
pub open spec fn find_char(s: Seq<char>, t: char) -> nat
    decreases s.len(),
{
    if s.len() == 0 {
        0
    } else if s[0] == t {
        0
    } else {
        1 + find_char(s.skip(1), t)
    }
}

proof fn lemma_find_char_at(s: Seq<char>, t: char, m: int)
    requires
        0 <= m <= s.len(),
        forall|i: int| 0 <= i < m ==> s[i] != t,
        m < s.len() ==> s[m] == t,
    ensures
        find_char(s, t) == m,
    decreases m,
{
    if m == 0 {
        if s.len() > 0 {
            assert(s[0] == t);
        }
    } else {
        assert(s[0] != t);
        lemma_find_char_at(s.skip(1), t, m - 1);
    }
}

/// Parses a line specification: one 1-based line number, or a
/// `start-end` range split at the first dash, each side trimmed.
pub fn parse_lines(lines_str: &str) -> (r: Result<(usize, Option<usize>), String>)
    ensures
        ({
            let s = lines_str@;
            let dsh = find_char(s, '-') as int;
            if dsh < s.len() {
                let left = s.take(dsh);
                let right = s.skip(dsh + 1);
                &&& (!parses_as_usize(left) ==> (r matches Err(e) && e@
                    == "Invalid start line number"@))
                &&& (parses_as_usize(left) && !parses_as_usize(right) ==> (
                r matches Err(e) && e@ == "Invalid end line number"@))
                &&& (parses_as_usize(left) && parses_as_usize(right) && (usize_value(left) == 0
                    || usize_value(right) == 0) ==> (r matches Err(e) && e@
                    == "Line numbers must be 1 or greater"@))
                &&& (parses_as_usize(left) && parses_as_usize(right) && usize_value(left) >= 1
                    && usize_value(right) >= 1 && usize_value(left) > usize_value(right) ==> (
                r matches Err(e) && e@ == "Start line cannot be greater than end line"@))
                &&& (parses_as_usize(left) && parses_as_usize(right) && usize_value(left) >= 1
                    && usize_value(right) >= 1 && usize_value(left) <= usize_value(right) ==> (
                r matches Ok(p) && p.0 as int == usize_value(left) && (p.1 matches Some(e2)
                    && e2 as int == usize_value(right))))
            } else {
                &&& (!parses_as_usize(s) ==> (r matches Err(e) && e@ == "Invalid line number"@))
                &&& (parses_as_usize(s) && usize_value(s) == 0 ==> (r matches Err(e) && e@
                    == "Line number must be 1 or greater"@))
                &&& (parses_as_usize(s) && usize_value(s) >= 1 ==> (r matches Ok(p) && p.0 as int
                    == usize_value(s) && p.1 is None))
            }
        }),
{
    let n = lines_str.unicode_len();
    let mut dash: usize = n;
    let mut i: usize = 0;
    let mut found = false;
    while i < n && !found
        invariant
            n == lines_str@.len(),
            i <= n,
            !found ==> forall|k: int| 0 <= k < i ==> lines_str@[k] != '-',
            found ==> dash < i <= n && lines_str@[dash as int] == '-' && forall|k: int|
                0 <= k < dash ==> lines_str@[k] != '-',
        decreases n - i,
    {
        if lines_str.get_char(i) == '-' {
            dash = i;
            found = true;
        }
        i = i + 1;
    }
    if found {
        proof {
            lemma_find_char_at(lines_str@, '-', dash as int);
        }
        let left = lines_str.substring_char(0, dash);
        let right = lines_str.substring_char(dash + 1, n);
        proof {
            assert(left@ =~= lines_str@.take(dash as int));
            assert(right@ =~= lines_str@.skip(dash + 1 as int));
        }
        let start = match parse_usize_field(left) {
            Some(v) => v,
            None => {
                return Err(String::from_str("Invalid start line number"));
            },
        };
        let end = match parse_usize_field(right) {
            Some(v) => v,
            None => {
                return Err(String::from_str("Invalid end line number"));
            },
        };
        if start == 0 || end == 0 {
            Err(String::from_str("Line numbers must be 1 or greater"))
        } else if start > end {
            Err(String::from_str("Start line cannot be greater than end line"))
        } else {
            Ok((start, Some(end)))
        }
    } else {
        proof {
            lemma_find_char_at(lines_str@, '-', n as int);
        }
        let start = match parse_usize_field(lines_str) {
            Some(v) => v,
            None => {
                return Err(String::from_str("Invalid line number"));
            },
        };
        if start == 0 {
            Err(String::from_str("Line number must be 1 or greater"))
        } else {
            Ok((start, None))
        }
    }
}

/// One line with a carriage return before the line feed removed.
pub open spec fn strip_cr(l: Seq<char>) -> Seq<char> {
    if l.len() > 0 && l[l.len() - 1] == '\r' {
        l.take(l.len() - 1)
    } else {
        l
    }
}

/// The lines of a text: split at each line feed, a carriage return
/// before a line feed removed, no final empty line for a trailing
/// line feed.
pub open spec fn split_lines(s: Seq<char>) -> Seq<Seq<char>>
    decreases s.len(),
{
    if s.len() == 0 {
        Seq::empty()
    } else {
        let n = find_char(s, '\n') as int;
        if n >= s.len() {
            seq![s]
        } else {
            seq![strip_cr(s.take(n))] + split_lines(s.skip(n + 1))
        }
    }
}

/// Lines joined with line feeds, no trailing line feed.
pub open spec fn join_lines(ls: Seq<Seq<char>>) -> Seq<char>
    decreases ls.len(),
{
    if ls.len() == 0 {
        Seq::empty()
    } else if ls.len() == 1 {
        ls[0]
    } else {
        ls[0] + seq!['\n'] + join_lines(ls.skip(1))
    }
}

/// Joining one more line appends a line feed and the line.
proof fn lemma_join_snoc(ls: Seq<Seq<char>>, j: int)
    requires
        1 <= j < ls.len(),
    ensures
        join_lines(ls.take(j + 1)) == join_lines(ls.take(j)) + seq!['\n'] + ls[j],
    decreases j,
{
    if j == 1 {
        assert(ls.take(2)[0] == ls[0] && ls.take(2).skip(1) =~= seq![ls[1]]);
        assert(join_lines(seq![ls[1]]) == ls[1]);
        assert(ls.take(1) =~= seq![ls[0]]);
        assert(join_lines(ls.take(1)) == ls[0]);
        assert(join_lines(ls.take(2)) == ls[0] + seq!['\n'] + ls[1]);
    } else {
        lemma_join_snoc(ls.skip(1), j - 1);
        assert(ls.take(j + 1).skip(1) =~= ls.skip(1).take(j));
        assert(ls.take(j).skip(1) =~= ls.skip(1).take(j - 1));
        assert(ls.take(j + 1)[0] == ls[0] && ls.take(j)[0] == ls[0]);
        assert(ls.take(j + 1).len() >= 2 && ls.take(j).len() >= 1);
        assert(join_lines(ls.take(j + 1)) == ls[0] + seq!['\n'] + join_lines(ls.skip(1).take(j)));
        if j == 1 {
        } else {
            assert(join_lines(ls.take(j)) == ls[0] + seq!['\n'] + join_lines(
                ls.skip(1).take(j - 1),
            ));
            assert(ls.skip(1)[j - 1] == ls[j]);
            assert((ls[0] + seq!['\n'] + (join_lines(ls.skip(1).take(j - 1)) + seq!['\n']
                + ls[j])) =~= (ls[0] + seq!['\n'] + join_lines(ls.skip(1).take(j - 1)))
                + seq!['\n'] + ls[j]);
        }
    }
}

/// Splits a text into its lines.
fn split_into_lines(content: &str) -> (r: Vec<String>)
    ensures
        r@.len() == split_lines(content@).len(),
        forall|t: int| 0 <= t < r@.len() ==> (#[trigger] r@[t])@ == split_lines(content@)[t],
{
    let n = content.unicode_len();
    let mut lines: Vec<String> = Vec::new();
    let ghost mut lsv: Seq<Seq<char>> = Seq::empty();
    let mut cur: Vec<char> = Vec::new();
    let mut line_start: usize = 0;
    let mut i: usize = 0;
    proof {
        assert(content@.skip(0) =~= content@);
    }
    while i < n
        invariant
            n == content@.len(),
            line_start <= i <= n,
            cur@ =~= content@.subrange(line_start as int, i as int),
            forall|k: int| line_start <= k < i ==> content@[k] != '\n',
            lines@.len() == lsv.len(),
            forall|t: int| 0 <= t < lines@.len() ==> (#[trigger] lines@[t])@ == lsv[t],
            split_lines(content@) == lsv + split_lines(content@.skip(line_start as int)),
        decreases n - i,
    {
        let c = content.get_char(i);
        if c == '\n' {
            proof {
                let rem = content@.skip(line_start as int);
                lemma_find_char_at(rem, '\n', i - line_start);
                assert(rem.take(i - line_start) =~= cur@);
                assert(rem.skip(i - line_start + 1) =~= content@.skip(i + 1 as int));
            }
            if cur.len() > 0 && cur[cur.len() - 1] == '\r' {
                cur.pop();
            }
            proof {
                assert(cur@ =~= strip_cr(content@.subrange(line_start as int, i as int)));
            }
            let ghost line_view = cur@;
            let finished = string_from_chars(cur);
            lines.push(finished);
            proof {
                lsv = lsv.push(line_view);
                assert(lsv + split_lines(content@.skip(i + 1 as int)) =~= (lsv.drop_last()
                    + (seq![line_view] + split_lines(content@.skip(i + 1 as int)))));
            }
            cur = Vec::new();
            line_start = i + 1;
            proof {
                assert(cur@ =~= content@.subrange(line_start as int, line_start as int));
            }
        } else {
            cur.push(c);
            proof {
                assert(cur@ =~= content@.subrange(line_start as int, i + 1 as int));
            }
        }
        i = i + 1;
    }
    proof {
        let rem = content@.skip(line_start as int);
        assert(rem =~= cur@);
        if rem.len() > 0 {
            lemma_find_char_at(rem, '\n', rem.len() as int);
        }
    }
    if cur.len() > 0 {
        let ghost line_view = cur@;
        let finished = string_from_chars(cur);
        lines.push(finished);
        proof {
            lsv = lsv.push(line_view);
            assert(split_lines(content@) =~= lsv);
        }
    } else {
        proof {
            assert(split_lines(content@) =~= lsv);
        }
    }
    lines
}

/// Extracts the 1-based line range `start_line..=end` from a text,
/// where a missing end means the single start line; out-of-bounds or
/// inverted ranges are rejected with a message naming the bound.
pub fn extract_lines(content: &str, start_line: usize, end_line: Option<usize>) -> (r: Result<
    String,
    String,
>)
    ensures
        ({
            let ls = split_lines(content@);
            let total = ls.len() as int;
            let end = if end_line is Some {
                end_line->0 as int
            } else {
                start_line as int
            };
            &&& (start_line == 0 ==> (r matches Err(e) && e@
                == "Start line cannot be 0 (lines are 1-based)"@))
            &&& (start_line >= 1 && start_line > total ==> (r matches Err(e) && e@ == "Start line "@
                + dec_str(start_line as int) + " is out of bounds (total lines: "@ + dec_str(total)
                + ")"@))
            &&& (start_line >= 1 && start_line <= total && end > total ==> (r matches Err(e) && e@
                == "End line "@ + dec_str(end) + " is out of bounds (total lines: "@ + dec_str(
                total,
            ) + ")"@))
            &&& (start_line >= 1 && start_line <= total && end <= total && end < start_line ==> (
            r matches Err(e) && e@
                == "Start index cannot be greater than or equal to end index after adjustment"@))
            &&& (start_line >= 1 && start_line <= total && start_line <= end <= total ==> (
            r matches Ok(text) && text@ == join_lines(
                ls.subrange(start_line - 1 as int, end),
            )))
        }),
{
    let lines = split_into_lines(content);
    let total_lines = lines.len();

    if start_line == 0 {
        return Err(String::from_str("Start line cannot be 0 (lines are 1-based)"));
    }

    if start_line > total_lines {
        let mut e = String::from_str("Start line ");
        let s1 = usize_to_string(start_line);
        e.append(s1.as_str());
        e.append(" is out of bounds (total lines: ");
        let s2 = usize_to_string(total_lines);
        e.append(s2.as_str());
        e.append(")");
        return Err(e);
    }

    let end: usize = match end_line {
        Some(e0) => {
            if e0 > total_lines {
                let mut e = String::from_str("End line ");
                let s1 = usize_to_string(e0);
                e.append(s1.as_str());
                e.append(" is out of bounds (total lines: ");
                let s2 = usize_to_string(total_lines);
                e.append(s2.as_str());
                e.append(")");
                return Err(e);
            }
            e0
        },
        None => start_line,
    };

    let start_index = start_line - 1;
    if start_index >= end {
        return Err(
            String::from_str(
                "Start index cannot be greater than or equal to end index after adjustment",
            ),
        );
    }

    let ghost ls = split_lines(content@);
    let ghost sel = ls.subrange(start_index as int, end as int);
    let mut out = lines[start_index].clone();
    proof {
        assert(sel.take(1) =~= seq![ls[start_index as int]]);
        assert(join_lines(sel.take(1)) == ls[start_index as int]);
    }
    let mut j: usize = start_index + 1;
    while j < end
        invariant
            start_index < end <= lines@.len(),
            start_index < j <= end,
            ls == split_lines(content@),
            sel == ls.subrange(start_index as int, end as int),
            lines@.len() == ls.len(),
            forall|t: int| 0 <= t < lines@.len() ==> (#[trigger] lines@[t])@ == ls[t],
            out@ == join_lines(sel.take(j - start_index)),
        decreases end - j,
    {
        proof {
            lemma_join_snoc(sel, j - start_index);
            assert(sel[j - start_index] == ls[j as int]);
            reveal_strlit("\n");
            assert("\n"@ =~= seq!['\n']);
        }
        out.append("\n");
        out.append(lines[j].as_str());
        j = j + 1;
    }
    proof {
        assert(sel.take(end - start_index) =~= sel);
    }
    Ok(out)
}

} // verus!
