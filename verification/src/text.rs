//! Tokenization of input lines: whitespace splitting, comma normalization,
//! leading-segment extraction, and character-level string equality.

use vstd::prelude::*;

verus! {

/// The whitespace characters recognized by the tokenizer (the Unicode
/// `White_Space` set, as `char::is_whitespace` reports it).
pub open spec fn is_space(c: char) -> bool {
    ||| c == ' '
    ||| c == '\t'
    ||| c == '\n'
    ||| c == '\r'
    ||| c == '\u{000b}'
    ||| c == '\u{000c}'
    ||| c == '\u{0085}'
    ||| c == '\u{00a0}'
    ||| c == '\u{1680}'
    ||| c == '\u{2000}'
    ||| c == '\u{2001}'
    ||| c == '\u{2002}'
    ||| c == '\u{2003}'
    ||| c == '\u{2004}'
    ||| c == '\u{2005}'
    ||| c == '\u{2006}'
    ||| c == '\u{2007}'
    ||| c == '\u{2008}'
    ||| c == '\u{2009}'
    ||| c == '\u{200a}'
    ||| c == '\u{2028}'
    ||| c == '\u{2029}'
    ||| c == '\u{202f}'
    ||| c == '\u{205f}'
    ||| c == '\u{3000}'
}

/// Characters reserved as pattern delimiters: the comma and the semicolon,
/// in their ASCII and full-width forms. They may not appear in variable names.
pub open spec fn is_reserved(c: char) -> bool {
    c == ',' || c == '\u{ff0c}' || c == ';' || c == '\u{ff1b}'
}

/// A variable name is acceptable when no reserved delimiter character occurs in it.
pub open spec fn valid_variable_name(s: Seq<char>) -> bool {
    forall|i: int| 0 <= i < s.len() ==> !is_reserved(s[i])
}

/// The pending token, emitted as a singleton sequence unless it is empty.
pub open spec fn flush(cur: Seq<char>) -> Seq<Seq<char>> {
    if cur.len() == 0 {
        Seq::empty()
    } else {
        seq![cur]
    }
}

/// Whitespace splitting with an accumulator holding the token read so far.
pub open spec fn tokens_acc(s: Seq<char>, cur: Seq<char>) -> Seq<Seq<char>>
    decreases s.len(),
{
    if s.len() == 0 {
        flush(cur)
    } else if is_space(s[0]) {
        flush(cur) + tokens_acc(s.skip(1), Seq::empty())
    } else {
        tokens_acc(s.skip(1), cur.push(s[0]))
    }
}

/// The maximal whitespace-free tokens of `s`, in order, with empties dropped:
/// what splitting on whitespace yields.
pub open spec fn tokens_of(s: Seq<char>) -> Seq<Seq<char>> {
    tokens_acc(s, Seq::empty())
}

/// `s` with every ASCII comma surrounded by single spaces, so that a comma
/// always tokenizes as a token of its own.
pub open spec fn normalize_commas(s: Seq<char>) -> Seq<char>
    decreases s.len(),
{
    if s.len() == 0 {
        Seq::empty()
    } else if s[0] == ',' {
        seq![' ', ',', ' '] + normalize_commas(s.skip(1))
    } else {
        seq![s[0]] + normalize_commas(s.skip(1))
    }
}

/// The prefix of `s` that precedes the first ASCII comma (all of `s` when
/// no comma occurs).
pub open spec fn first_segment(s: Seq<char>) -> Seq<char>
    decreases s.len(),
{
    if s.len() == 0 {
        Seq::empty()
    } else if s[0] == ',' {
        Seq::empty()
    } else {
        seq![s[0]] + first_segment(s.skip(1))
    }
}

/// Relies on `String::push`: appends the given character to the end of the string.
pub assume_specification[ String::push ](s: &mut String, c: char)
    ensures
        final(s)@ == old(s)@.push(c),
;

pub fn char_is_space(c: char) -> (r: bool)
    ensures
        r == is_space(c),
{
    c == ' ' || c == '\t' || c == '\n' || c == '\r' || c == '\u{000b}' || c == '\u{000c}'
        || c == '\u{0085}' || c == '\u{00a0}' || c == '\u{1680}' || c == '\u{2000}'
        || c == '\u{2001}' || c == '\u{2002}' || c == '\u{2003}' || c == '\u{2004}'
        || c == '\u{2005}' || c == '\u{2006}' || c == '\u{2007}' || c == '\u{2008}'
        || c == '\u{2009}' || c == '\u{200a}' || c == '\u{2028}' || c == '\u{2029}'
        || c == '\u{202f}' || c == '\u{205f}' || c == '\u{3000}'
}

pub fn char_is_reserved(c: char) -> (r: bool)
    ensures
        r == is_reserved(c),
{
    c == ',' || c == '\u{ff0c}' || c == ';' || c == '\u{ff1b}'
}

/// Character-for-character string equality, stated over the views.
pub fn str_eq(a: &str, b: &str) -> (r: bool)
    ensures
        r == (a@ == b@),
{
    let n = a.unicode_len();
    let m = b.unicode_len();
    if n != m {
        return false;
    }
    let mut i: usize = 0;
    while i < n
        invariant
            i <= n,
            n == a@.len(),
            n == b@.len(),
            forall|j: int| 0 <= j < i ==> a@[j] == b@[j],
        decreases n - i,
    {
        if a.get_char(i) != b.get_char(i) {
            return false;
        }
        i += 1;
    }
    proof {
        assert(a@ =~= b@);
    }
    true
}

/// Splits `s` into its whitespace-separated tokens, in order.
pub fn split_tokens(s: &str) -> (r: Vec<String>)
    ensures
        r.deep_view() == tokens_of(s@),
{
    let n = s.unicode_len();
    let mut out: Vec<String> = Vec::new();
    let mut cur = String::new();
    let mut i: usize = 0;
    proof {
        assert(s@.skip(0) =~= s@);
        assert(out.deep_view() + tokens_acc(s@.skip(0), cur@) =~= tokens_of(s@));
    }
    while i < n
        invariant
            i <= n,
            n == s@.len(),
            out.deep_view() + tokens_acc(s@.skip(i as int), cur@) == tokens_of(s@),
        decreases n - i,
    {
        let ghost pre_out = out.deep_view();
        let ghost pre_cur = cur@;
        proof {
            assert(s@.skip(i as int).len() > 0);
            assert(s@.skip(i as int)[0] == s@[i as int]);
            assert(s@.skip(i as int).skip(1) =~= s@.skip(i + 1));
        }
        let c = s.get_char(i);
        if char_is_space(c) {
            if !cur.as_str().is_empty() {
                out.push(cur);
                cur = String::new();
                proof {
                    assert(out.deep_view() =~= pre_out.push(pre_cur));
                    assert(tokens_acc(s@.skip(i as int), pre_cur) == seq![pre_cur] + tokens_acc(
                        s@.skip(i + 1),
                        Seq::empty(),
                    ));
                    assert(pre_out.push(pre_cur) + tokens_acc(s@.skip(i + 1), Seq::empty()) =~= (
                    pre_out + tokens_acc(s@.skip(i as int), pre_cur)));
                }
            } else {
                proof {
                    assert(pre_cur =~= Seq::<char>::empty());
                    assert(tokens_acc(s@.skip(i as int), pre_cur) =~= tokens_acc(
                        s@.skip(i + 1),
                        pre_cur,
                    ));
                }
            }
        } else {
            cur.push(c);
            proof {
                assert(tokens_acc(s@.skip(i as int), pre_cur) == tokens_acc(
                    s@.skip(i + 1),
                    pre_cur.push(s@[i as int]),
                ));
            }
        }
        i += 1;
    }
    proof {
        assert(s@.skip(n as int) =~= Seq::<char>::empty());
    }
    if !cur.as_str().is_empty() {
        let ghost pre_out = out.deep_view();
        let ghost pre_cur = cur@;
        out.push(cur);
        proof {
            assert(out.deep_view() =~= pre_out.push(pre_cur));
            assert(pre_out.push(pre_cur) =~= pre_out + flush(pre_cur));
        }
    } else {
        proof {
            assert(out.deep_view() + flush(cur@) =~= out.deep_view());
        }
    }
    out
}

/// Rewrites `s` so that every ASCII comma is surrounded by single spaces.
pub fn normalize_commas_str(s: &str) -> (r: String)
    ensures
        r@ == normalize_commas(s@),
{
    let n = s.unicode_len();
    let mut out = String::new();
    let mut i: usize = 0;
    proof {
        assert(s@.skip(0) =~= s@);
        assert(out@ + normalize_commas(s@.skip(0)) =~= normalize_commas(s@));
    }
    while i < n
        invariant
            i <= n,
            n == s@.len(),
            out@ + normalize_commas(s@.skip(i as int)) == normalize_commas(s@),
        decreases n - i,
    {
        let ghost pre_out = out@;
        proof {
            assert(s@.skip(i as int).len() > 0);
            assert(s@.skip(i as int)[0] == s@[i as int]);
            assert(s@.skip(i as int).skip(1) =~= s@.skip(i + 1));
        }
        let c = s.get_char(i);
        if c == ',' {
            out.push(' ');
            out.push(',');
            out.push(' ');
            proof {
                assert(out@ =~= pre_out + seq![' ', ',', ' ']);
                assert((pre_out + seq![' ', ',', ' ']) + normalize_commas(s@.skip(i + 1)) =~= (
                pre_out + normalize_commas(s@.skip(i as int))));
            }
        } else {
            out.push(c);
            proof {
                assert(out@ =~= pre_out + seq![s@[i as int]]);
                assert((pre_out + seq![s@[i as int]]) + normalize_commas(s@.skip(i + 1)) =~= (
                pre_out + normalize_commas(s@.skip(i as int))));
            }
        }
        i += 1;
    }
    proof {
        assert(s@.skip(n as int) =~= Seq::<char>::empty());
        assert(out@ + normalize_commas(s@.skip(n as int)) =~= out@);
    }
    out
}

/// Returns the prefix of `s` that precedes the first ASCII comma.
pub fn first_segment_of<'a>(s: &'a str) -> (r: &'a str)
    ensures
        r@ == first_segment(s@),
{
    let n = s.unicode_len();
    let mut k: usize = 0;
    while k < n && s.get_char(k) != ','
        invariant
            k <= n,
            n == s@.len(),
            forall|j: int| 0 <= j < k ==> s@[j] != ',',
        decreases n - k,
    {
        k += 1;
    }
    proof {
        lemma_first_segment_prefix(s@, k as int);
    }
    s.substring_char(0, k)
}

/// Splitting off a comma-free prefix: the first segment of `a + b` is `a`
/// followed by the first segment of `b`.
pub proof fn lemma_first_segment_append(a: Seq<char>, b: Seq<char>)
    requires
        forall|i: int| 0 <= i < a.len() ==> a[i] != ',',
    ensures
        first_segment(a + b) == a + first_segment(b),
    decreases a.len(),
{
    if a.len() == 0 {
        assert(a + b =~= b);
        assert(a + first_segment(b) =~= first_segment(b));
    } else {
        assert((a + b)[0] == a[0]);
        assert((a + b).skip(1) =~= a.skip(1) + b);
        lemma_first_segment_append(a.skip(1), b);
        assert(seq![a[0]] + (a.skip(1) + first_segment(b)) =~= a + first_segment(b));
    }
}

/// Reading a whitespace-free prefix `t` moves it whole into the accumulator.
pub proof fn lemma_tokens_acc_prefix(t: Seq<char>, s: Seq<char>, cur: Seq<char>)
    requires
        forall|i: int| 0 <= i < t.len() ==> !is_space(t[i]),
    ensures
        tokens_acc(t + s, cur) == tokens_acc(s, cur + t),
    decreases t.len(),
{
    if t.len() == 0 {
        assert(t + s =~= s);
        assert(cur + t =~= cur);
    } else {
        assert((t + s)[0] == t[0]);
        assert((t + s).skip(1) =~= t.skip(1) + s);
        assert(cur.push(t[0]) + t.skip(1) =~= cur + t);
        lemma_tokens_acc_prefix(t.skip(1), s, cur.push(t[0]));
    }
}

/// The first comma-free prefix of `s` is exactly `first_segment(s)`.
proof fn lemma_first_segment_prefix(s: Seq<char>, k: int)
    requires
        0 <= k <= s.len(),
        forall|j: int| 0 <= j < k ==> s[j] != ',',
        k < s.len() ==> s[k] == ',',
    ensures
        first_segment(s) == s.subrange(0, k),
    decreases k,
{
    if k == 0 {
        assert(first_segment(s) =~= s.subrange(0, 0));
    } else {
        assert(s[0] != ',');
        lemma_first_segment_prefix(s.skip(1), k - 1);
        assert(seq![s[0]] + s.skip(1).subrange(0, k - 1) =~= s.subrange(0, k));
    }
}

} // verus!
