//! PEM certificates: the base64 body between the `-----BEGIN`/`-----END`
//! lines, decoded to DER.

use vstd::prelude::*;
use vstd::string::StrSliceExecFns;
use crate::crypto::{b64_standard_decode, base64_standard_decode};

verus! {

/// Index of the first `c` in `s`, or -1.
pub open spec fn char_index(s: Seq<char>, c: char) -> int
    decreases s.len(),
{
    if s.len() == 0 {
        -1
    } else if s[0] == c {
        0
    } else {
        let r = char_index(s.drop_first(), c);
        if r < 0 {
            -1
        } else {
            r + 1
        }
    }
}

/// The first index of a character is -1 or within the text.
pub proof fn lemma_char_index_bound(s: Seq<char>, c: char)
    ensures
        -1 <= char_index(s, c) < s.len(),
    decreases s.len(),
{
    if s.len() > 0 {
        lemma_char_index_bound(s.drop_first(), c);
    }
}

proof fn lemma_char_index(s: Seq<char>, c: char, k: int)
    requires
        0 <= k < s.len(),
        s[k] == c,
        forall|j: int| 0 <= j < k ==> s[j] != c,
    ensures
        char_index(s, c) == k,
    decreases k,
{
    if k > 0 {
        lemma_char_index(s.drop_first(), c, k - 1);
    }
}

proof fn lemma_char_absent(s: Seq<char>, c: char)
    requires
        forall|j: int| 0 <= j < s.len() ==> s[j] != c,
    ensures
        char_index(s, c) == -1,
    decreases s.len(),
{
    if s.len() > 0 {
        lemma_char_absent(s.drop_first(), c);
    }
}

/// A line without the `\r` of a `\r\n` ending.
pub open spec fn without_cr(l: Seq<char>) -> Seq<char> {
    if l.len() > 0 && l.last() == '\r' {
        l.drop_last()
    } else {
        l
    }
}

/// The lines of `s`, as `str::lines` gives them: split at `\n`, a `\r`
/// before the `\n` dropped, no empty line after a final `\n`.
pub open spec fn text_lines(s: Seq<char>) -> Seq<Seq<char>>
    decreases s.len(),
{
    if s.len() == 0 {
        Seq::empty()
    } else {
        let k = char_index(s, '\n');
        proof {
            lemma_char_index_bound(s, '\n');
        }
        if k < 0 {
            seq![s]
        } else {
            seq![without_cr(s.subrange(0, k))] + text_lines(s.subrange(k + 1, s.len() as int))
        }
    }
}

/// A PEM armour line, such as `-----BEGIN CERTIFICATE-----`.
pub open spec fn is_armour(l: Seq<char>) -> bool {
    l.len() >= 5 && l.subrange(0, 5) == seq!['-', '-', '-', '-', '-']
}

/// The lines that are not armour, joined.
pub open spec fn joined_body(lines: Seq<Seq<char>>) -> Seq<char>
    decreases lines.len(),
{
    if lines.len() == 0 {
        Seq::empty()
    } else {
        (if is_armour(lines[0]) {
            Seq::empty()
        } else {
            lines[0]
        }) + joined_body(lines.drop_first())
    }
}

/// Unicode white space, as `char::is_whitespace` says.
pub open spec fn is_white_space(c: char) -> bool {
    ||| '\t' <= c <= '\r'
    ||| c == ' '
    ||| c == '\u{85}'
    ||| c == '\u{a0}'
    ||| c == '\u{1680}'
    ||| '\u{2000}' <= c <= '\u{200a}'
    ||| c == '\u{2028}'
    ||| c == '\u{2029}'
    ||| c == '\u{202f}'
    ||| c == '\u{205f}'
    ||| c == '\u{3000}'
}

/// `s` without leading white space.
pub open spec fn trim_start_spec(s: Seq<char>) -> Seq<char>
    decreases s.len(),
{
    if s.len() > 0 && is_white_space(s[0]) {
        trim_start_spec(s.drop_first())
    } else {
        s
    }
}

/// `s` without trailing white space.
pub open spec fn trim_end_spec(s: Seq<char>) -> Seq<char>
    decreases s.len(),
{
    if s.len() > 0 && is_white_space(s.last()) {
        trim_end_spec(s.drop_last())
    } else {
        s
    }
}

/// The base64 text of a PEM document: its non-armour lines joined, white
/// space trimmed from both ends.
pub open spec fn pem_body(pem: Seq<char>) -> Seq<char> {
    trim_end_spec(trim_start_spec(joined_body(text_lines(pem))))
}

fn is_ws(c: char) -> (r: bool)
    ensures
        r == is_white_space(c),
{
    ('\t' <= c && c <= '\r') || c == ' ' || c == '\u{85}' || c == '\u{a0}' || c == '\u{1680}' || ('\u{2000}' <= c
        && c <= '\u{200a}') || c == '\u{2028}' || c == '\u{2029}' || c == '\u{202f}' || c == '\u{205f}' || c
        == '\u{3000}'
}

proof fn lemma_trim_start(s: Seq<char>, a: int)
    requires
        0 <= a <= s.len(),
        forall|j: int| 0 <= j < a ==> is_white_space(s[j]),
        a < s.len() ==> !is_white_space(s[a]),
    ensures
        trim_start_spec(s) == s.subrange(a, s.len() as int),
    decreases a,
{
    if a > 0 {
        lemma_trim_start(s.drop_first(), a - 1);
        assert(s.drop_first().subrange(a - 1, s.len() - 1) =~= s.subrange(a, s.len() as int));
    } else {
        assert(s.subrange(0, s.len() as int) =~= s);
    }
}

proof fn lemma_trim_end(s: Seq<char>, b: int)
    requires
        0 <= b <= s.len(),
        forall|j: int| b <= j < s.len() ==> is_white_space(s[j]),
        b > 0 ==> !is_white_space(s[b - 1]),
    ensures
        trim_end_spec(s) == s.subrange(0, b),
    decreases s.len() - b,
{
    if b < s.len() {
        lemma_trim_end(s.drop_last(), b);
        assert(s.drop_last().subrange(0, b) =~= s.subrange(0, b));
    } else {
        assert(s.subrange(0, s.len() as int) =~= s);
    }
}

/// `s` with white space trimmed from both ends, as `str::trim` does.
pub fn trim_text(s: &str) -> (r: &str)
    ensures
        r@ == trim_end_spec(trim_start_spec(s@)),
{
    let n = s.unicode_len();
    let mut a: usize = 0;
    while a < n && is_ws(s.get_char(a))
        invariant
            a <= n,
            n == s@.len(),
            forall|j: int| 0 <= j < a ==> is_white_space(s@[j]),
        decreases n - a,
    {
        a = a + 1;
    }
    proof {
        lemma_trim_start(s@, a as int);
    }
    let rest = s.substring_char(a, n);
    let m = rest.unicode_len();
    let mut b: usize = m;
    while b > 0 && is_ws(rest.get_char(b - 1))
        invariant
            b <= m,
            m == rest@.len(),
            forall|j: int| b <= j < m ==> is_white_space(rest@[j]),
        decreases b,
    {
        b = b - 1;
    }
    proof {
        lemma_trim_end(rest@, b as int);
    }
    rest.substring_char(0, b)
}

/// The non-armour lines of `pem`, joined.
pub fn join_body(pem: &str) -> (r: String)
    ensures
        r@ == joined_body(text_lines(pem@)),
{
    let n = pem.unicode_len();
    let mut out = String::new();
    let mut start: usize = 0;
    let mut i: usize = 0;
    assert(pem@.subrange(0, n as int) =~= pem@);
    while i < n
        invariant
            start <= i <= n,
            n == pem@.len(),
            forall|j: int| start <= j < i ==> pem@[j] != '\n',
            out@ + joined_body(text_lines(pem@.subrange(start as int, n as int))) == joined_body(text_lines(pem@)),
        decreases n - i,
    {
        if pem.get_char(i) == '\n' {
            let ghost rest = pem@.subrange(start as int, n as int);
            proof {
                lemma_char_index(rest, '\n', i - start);
                assert(rest.subrange(0, i - start) =~= pem@.subrange(start as int, i as int));
                assert(rest.subrange(i - start + 1, rest.len() as int) =~= pem@.subrange(i + 1, n as int));
            }
            let mut end = i;
            if end > start && pem.get_char(end - 1) == '\r' {
                end = end - 1;
            }
            let line = pem.substring_char(start, end);
            proof {
                let l = pem@.subrange(start as int, i as int);
                assert(line@ =~= without_cr(l));
                let ls = text_lines(rest);
                assert(ls[0] == line@);
                assert(ls.drop_first() =~= text_lines(pem@.subrange(i + 1, n as int)));
            }
            let armour = line.unicode_len() >= 5 && crate::http::str_eq(line.substring_char(0, 5), "-----");
            proof {
                reveal_strlit("-----");
                if line@.len() >= 5 {
                    assert(seq!['-', '-', '-', '-', '-'] =~= "-----"@);
                }
            }
            let ghost before = out@;
            if !armour {
                out.append(line);
            }
            proof {
                let ls = text_lines(rest);
                assert(is_armour(line@) == armour);
                assert(joined_body(ls) == (if is_armour(ls[0]) {
                    Seq::empty()
                } else {
                    ls[0]
                }) + joined_body(ls.drop_first()));
                assert(out@ + joined_body(text_lines(pem@.subrange(i + 1, n as int))) =~= before + joined_body(
                    text_lines(rest),
                ));
            }
            start = i + 1;
        }
        i = i + 1;
    }
    let ghost rest = pem@.subrange(start as int, n as int);
    if start < n {
        proof {
            lemma_char_absent(rest, '\n');
            assert(text_lines(rest) == seq![rest]);
        }
        let last = pem.substring_char(start, n);
        let armour = last.unicode_len() >= 5 && crate::http::str_eq(last.substring_char(0, 5), "-----");
        proof {
            reveal_strlit("-----");
            if last@.len() >= 5 {
                assert(seq!['-', '-', '-', '-', '-'] =~= "-----"@);
            }
            assert(is_armour(last@) == armour);
            assert(seq![rest].drop_first() =~= Seq::<Seq<char>>::empty());
            assert(seq![rest][0] == rest);
            assert(joined_body(seq![rest]) =~= (if is_armour(rest) {
                Seq::empty()
            } else {
                rest
            }) + joined_body(Seq::<Seq<char>>::empty()));
        }
        if !armour {
            out.append(last);
        }
    } else {
        assert(rest.len() == 0);
    }
    assert(out@ =~= joined_body(text_lines(pem@)));
    out
}

/// The DER bytes of a PEM certificate: the base64 between the armour
/// lines, decoded. `None` when it is not valid base64.
pub fn pem_to_der(pem: &str) -> (r: Option<Vec<u8>>)
    ensures
        r.deep_view() == base64_standard_decode(vstd::utf8::encode_utf8(pem_body(pem@))),
{
    let body = join_body(pem);
    let text = trim_text(body.as_str());
    match b64_standard_decode(text.as_bytes()) {
        Ok(v) => Some(v),
        Err(_) => None,
    }
}

} // verus!
