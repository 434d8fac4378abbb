//! The canonical document text used for persisted state: a minimal JSON
//! dialect with fixed key order, string values escaped for `"` and `\`,
//! and no insignificant whitespace. The spec-level parser is the
//! reference; the exec scanners are proved to implement it, and the
//! round-trip lemmas show that parsing a canonical encoding recovers the
//! encoded value exactly.

use vstd::prelude::*;

verus! {

/// The escaped form of one character.
pub open spec fn esc_char(c: char) -> Seq<char> {
    if c == '"' || c == '\\' {
        seq!['\\', c]
    } else {
        seq![c]
    }
}

/// The escaped form of a string value.
pub open spec fn esc(s: Seq<char>) -> Seq<char>
    decreases s.len(),
{
    if s.len() == 0 {
        Seq::empty()
    } else {
        esc_char(s[0]) + esc(s.subrange(1, s.len() as int))
    }
}

/// A string value as it stands in a document: quoted and escaped.
pub open spec fn quoted(s: Seq<char>) -> Seq<char> {
    seq!['"'] + esc(s) + seq!['"']
}

pub proof fn lemma_esc_snoc(s: Seq<char>, c: char)
    ensures
        esc(s.push(c)) == esc(s) + esc_char(c),
    decreases s.len(),
{
    if s.len() == 0 {
        assert(s.push(c).subrange(1, s.push(c).len() as int) =~= Seq::<char>::empty());
        assert(esc(Seq::<char>::empty()) == Seq::<char>::empty());
        assert(esc(s.push(c)) == esc_char(s.push(c)[0]) + esc(Seq::<char>::empty()));
        assert(s.push(c)[0] == c);
        assert(esc(s.push(c)) =~= esc(s) + esc_char(c));
    } else {
        let t = s.subrange(1, s.len() as int);
        assert(s.push(c).subrange(1, s.push(c).len() as int) =~= t.push(c));
        lemma_esc_snoc(t, c);
        assert(esc(s.push(c)) =~= esc(s) + esc_char(c));
    }
}

/// Append the escaped form of `field` to `out`.
pub fn push_escaped(field: &Vec<char>, out: &mut Vec<char>)
    ensures
        final(out)@ == old(out)@ + esc(field@),
{
    let mut i: usize = 0;
    proof {
        assert(field@.subrange(0, 0) =~= Seq::<char>::empty());
        assert(out@ =~= out@ + esc(field@.subrange(0, 0)));
    }
    while i < field.len()
        invariant
            i <= field@.len(),
            out@ == old(out)@ + esc(field@.subrange(0, i as int)),
        decreases field@.len() - i,
    {
        let c = field[i];
        if c == '"' || c == '\\' {
            out.push('\\');
            out.push(c);
        } else {
            out.push(c);
        }
        proof {
            let pre = field@.subrange(0, i as int);
            assert(field@.subrange(0, i + 1) =~= pre.push(c));
            lemma_esc_snoc(pre, c);
            assert(out@ =~= old(out)@ + esc(field@.subrange(0, i + 1)));
        }
        i = i + 1;
    }
    proof {
        assert(field@.subrange(0, field@.len() as int) =~= field@);
    }
}

/// Append `quoted(field)` to `out`.
pub fn push_quoted(field: &Vec<char>, out: &mut Vec<char>)
    ensures
        final(out)@ == old(out)@ + quoted(field@),
{
    out.push('"');
    push_escaped(field, out);
    out.push('"');
    proof {
        assert(out@ =~= old(out)@ + quoted(field@));
    }
}

/// Append a copy of `piece` to `out`.
pub fn push_chars(piece: &Vec<char>, out: &mut Vec<char>)
    ensures
        final(out)@ == old(out)@ + piece@,
{
    let mut i: usize = 0;
    while i < piece.len()
        invariant
            i <= piece@.len(),
            out@ == old(out)@ + piece@.subrange(0, i as int),
        decreases piece@.len() - i,
    {
        out.push(piece[i]);
        i = i + 1;
        proof {
            assert(out@ =~= old(out)@ + piece@.subrange(0, i as int));
        }
    }
    proof {
        assert(piece@.subrange(0, piece@.len() as int) =~= piece@);
    }
}

/// Whether the two vectors hold the same characters.
pub fn chars_eq(a: &Vec<char>, b: &Vec<char>) -> (r: bool)
    ensures
        r == (a@ == b@),
{
    if a.len() != b.len() {
        return false;
    }
    let mut i: usize = 0;
    while i < a.len()
        invariant
            i <= a@.len(),
            a@.len() == b@.len(),
            forall|k: int| 0 <= k < i ==> a@[k] == b@[k],
        decreases a@.len() - i,
    {
        if a[i] != b[i] {
            return false;
        }
        i = i + 1;
    }
    proof {
        assert(a@ =~= b@);
    }
    true
}

/// The reference parser for the body of a quoted string: the position
/// `i` stands just after the opening quote; on success it returns the
/// unescaped value and the position just after the closing quote.
pub open spec fn parse_qbody(s: Seq<char>, i: int) -> Option<(Seq<char>, int)>
    decreases s.len() - i when 0 <= i <= s.len()
{
    if i >= s.len() {
        None
    } else if s[i] == '"' {
        Some((Seq::empty(), i + 1))
    } else if s[i] == '\\' {
        if i + 1 < s.len() && (s[i + 1] == '"' || s[i + 1] == '\\') {
            match parse_qbody(s, i + 2) {
                Some(p) => Some((seq![s[i + 1]] + p.0, p.1)),
                None => None,
            }
        } else {
            None
        }
    } else {
        match parse_qbody(s, i + 1) {
            Some(p) => Some((seq![s[i]] + p.0, p.1)),
            None => None,
        }
    }
}

/// The reference parser for a whole quoted string standing at `i`.
pub open spec fn parse_quoted(s: Seq<char>, i: int) -> Option<(Seq<char>, int)> {
    if 0 <= i < s.len() && s[i] == '"' {
        parse_qbody(s, i + 1)
    } else {
        None
    }
}

/// The reference parser for a fixed literal fragment standing at `i`.
pub open spec fn parse_lit(s: Seq<char>, i: int, lit: Seq<char>) -> Option<int> {
    if 0 <= i && i + lit.len() <= s.len() && s.subrange(i, i + lit.len()) == lit {
        Some(i + lit.len())
    } else {
        None
    }
}

fn scan_qbody(s: &Vec<char>, i: usize) -> (r: Option<(Vec<char>, usize)>)
    requires
        i <= s@.len(),
    ensures
        match r {
            Some(p) => parse_qbody(s@, i as int) == Some((p.0@, p.1 as int)) && i < p.1 <= s@.len(),
            None => parse_qbody(s@, i as int) is None,
        },
    decreases s@.len() - i,
{
    if i >= s.len() {
        return None;
    }
    let c = s[i];
    if c == '"' {
        Some((Vec::new(), i + 1))
    } else if c == '\\' {
        if i + 1 < s.len() && (s[i + 1] == '"' || s[i + 1] == '\\') {
            match scan_qbody(s, i + 2) {
                Some((t, j)) => {
                    let mut v: Vec<char> = Vec::new();
                    v.push(s[i + 1]);
                    let mut t = t;
                    v.append(&mut t);
                    proof {
                        assert(v@ =~= seq![s@[i + 1]] + parse_qbody(s@, i + 2 as int).unwrap().0);
                    }
                    Some((v, j))
                },
                None => None,
            }
        } else {
            None
        }
    } else {
        match scan_qbody(s, i + 1) {
            Some((t, j)) => {
                let mut v: Vec<char> = Vec::new();
                v.push(c);
                let mut t = t;
                v.append(&mut t);
                proof {
                    assert(v@ =~= seq![s@[i as int]] + parse_qbody(s@, i + 1 as int).unwrap().0);
                }
                Some((v, j))
            },
            None => None,
        }
    }
}

/// Scan a quoted string standing at `i`; implements `parse_quoted`.
pub fn scan_quoted(s: &Vec<char>, i: usize) -> (r: Option<(Vec<char>, usize)>)
    requires
        i <= s@.len(),
    ensures
        match r {
            Some(p) => parse_quoted(s@, i as int) == Some((p.0@, p.1 as int)) && i < p.1 <= s@.len(),
            None => parse_quoted(s@, i as int) is None,
        },
{
    if i < s.len() && s[i] == '"' {
        scan_qbody(s, i + 1)
    } else {
        None
    }
}

/// Scan a fixed literal fragment standing at `i`; implements `parse_lit`.
pub fn scan_lit(s: &Vec<char>, i: usize, lit: &Vec<char>) -> (r: Option<usize>)
    requires
        i <= s@.len(),
    ensures
        match r {
            Some(j) => parse_lit(s@, i as int, lit@) == Some(j as int) && i <= j <= s@.len(),
            None => parse_lit(s@, i as int, lit@) is None,
        },
{
    if lit.len() > s.len() - i {
        return None;
    }
    let mut k: usize = 0;
    while k < lit.len()
        invariant
            k <= lit@.len(),
            i + lit@.len() <= s@.len(),
            s@.len() <= usize::MAX,
            forall|m: int| 0 <= m < k ==> s@[i + m] == lit@[m],
        decreases lit@.len() - k,
    {
        proof {
            assert(i + k < s@.len());
        }
        if s[i + k] != lit[k] {
            proof {
                assert(s@.subrange(i as int, i + lit@.len())[k as int] != lit@[k as int]);
            }
            return None;
        }
        k = k + 1;
    }
    proof {
        assert(s@.subrange(i as int, i + lit@.len()) =~= lit@);
    }
    Some(i + lit.len())
}

/// Parsing the body of a canonical quoted string recovers the value:
/// wherever `esc(v)` followed by a closing quote stands at `i`, the
/// reference parser returns exactly `v` and stops just after the quote.
pub proof fn lemma_qbody_of_encoding(v: Seq<char>, s: Seq<char>, i: int)
    requires
        0 <= i,
        i + esc(v).len() + 1 <= s.len(),
        s.subrange(i, i + esc(v).len() + 1) == esc(v) + seq!['"'],
    ensures
        parse_qbody(s, i) == Some((v, i + esc(v).len() + 1)),
    decreases v.len(),
{
    let le = esc(v).len() as int;
    let chunk = esc(v) + seq!['"'];
    if v.len() == 0 {
        assert(s[i] == '"') by {
            assert(s.subrange(i, i + le + 1)[0] == chunk[0]);
        }
    } else {
        let c = v[0];
        let t = v.subrange(1, v.len() as int);
        assert(esc(v) == esc_char(c) + esc(t));
        if c == '"' || c == '\\' {
            assert(s[i] == '\\') by {
                assert(s.subrange(i, i + le + 1)[0] == chunk[0]);
                assert(chunk[0] == esc_char(c)[0]);
            }
            assert(s[i + 1] == c) by {
                assert(s.subrange(i, i + le + 1)[1] == chunk[1]);
                assert(chunk[1] == esc_char(c)[1]);
            }
            let i2 = i + 2;
            assert(s.subrange(i2, i2 + esc(t).len() + 1) =~= esc(t) + seq!['"']) by {
                assert forall|k: int| 0 <= k < esc(t).len() + 1 implies s.subrange(
                    i2,
                    i2 + esc(t).len() + 1,
                )[k] == (esc(t) + seq!['"'])[k] by {
                    assert(s.subrange(i, i + le + 1)[k + 2] == chunk[k + 2]);
                    assert(chunk[k + 2] == (esc(t) + seq!['"'])[k]);
                }
            }
            lemma_qbody_of_encoding(t, s, i2);
            assert(seq![s[i + 1]] + t =~= v);
        } else {
            assert(s[i] == c) by {
                assert(s.subrange(i, i + le + 1)[0] == chunk[0]);
                assert(chunk[0] == esc_char(c)[0]);
            }
            let i1 = i + 1;
            assert(s.subrange(i1, i1 + esc(t).len() + 1) =~= esc(t) + seq!['"']) by {
                assert forall|k: int| 0 <= k < esc(t).len() + 1 implies s.subrange(
                    i1,
                    i1 + esc(t).len() + 1,
                )[k] == (esc(t) + seq!['"'])[k] by {
                    assert(s.subrange(i, i + le + 1)[k + 1] == chunk[k + 1]);
                    assert(chunk[k + 1] == (esc(t) + seq!['"'])[k]);
                }
            }
            lemma_qbody_of_encoding(t, s, i1);
            assert(seq![s[i]] + t =~= v);
        }
    }
}

/// Parsing a canonical quoted string standing at `i` recovers the value.
pub proof fn lemma_quoted_of_encoding(v: Seq<char>, s: Seq<char>, i: int)
    requires
        0 <= i,
        i + quoted(v).len() <= s.len(),
        s.subrange(i, i + quoted(v).len()) == quoted(v),
    ensures
        parse_quoted(s, i) == Some((v, i + quoted(v).len())),
{
    let lq = quoted(v).len() as int;
    assert(s[i] == '"') by {
        assert(s.subrange(i, i + lq)[0] == quoted(v)[0]);
    }
    assert(s.subrange(i + 1, i + 1 + esc(v).len() + 1) =~= esc(v) + seq!['"']) by {
        assert forall|k: int| 0 <= k < esc(v).len() + 1 implies s.subrange(
            i + 1,
            i + 1 + esc(v).len() + 1,
        )[k] == (esc(v) + seq!['"'])[k] by {
            assert(s.subrange(i, i + lq)[k + 1] == quoted(v)[k + 1]);
            assert(quoted(v)[k + 1] == (esc(v) + seq!['"'])[k]);
        }
    }
    lemma_qbody_of_encoding(v, s, i + 1);
}

/// A literal fragment standing at `i` parses to the position after it.
pub proof fn lemma_lit_at(s: Seq<char>, i: int, lit: Seq<char>)
    requires
        0 <= i,
        i + lit.len() <= s.len(),
        s.subrange(i, i + lit.len()) == lit,
    ensures
        parse_lit(s, i, lit) == Some(i + lit.len()),
{
}

/// Only canonical text is recognised: whenever the reference parser
/// accepts a quoted string body at `i`, the characters it consumed are
/// exactly the escaped value followed by the closing quote.
pub proof fn lemma_qbody_sound(s: Seq<char>, i: int)
    requires
        0 <= i <= s.len(),
        parse_qbody(s, i) is Some,
    ensures
        ({
            let (v, j) = parse_qbody(s, i).unwrap();
            &&& i < j <= s.len()
            &&& j == i + esc(v).len() + 1
            &&& s.subrange(i, j) == esc(v) + seq!['"']
        }),
    decreases s.len() - i,
{
    let (v, j) = parse_qbody(s, i).unwrap();
    if s[i] == '"' {
        assert(s.subrange(i, j) =~= esc(v) + seq!['"']);
    } else if s[i] == '\\' {
        lemma_qbody_sound(s, i + 2);
        let (t, j2) = parse_qbody(s, i + 2).unwrap();
        assert(v == seq![s[i + 1]] + t);
        assert(esc(v) == seq!['\\', s[i + 1]] + esc(t)) by {
            assert(v[0] == s[i + 1]);
            assert(v.subrange(1, v.len() as int) =~= t);
            assert(esc_char(v[0]) == seq!['\\', s[i + 1]]);
        }
        assert(s.subrange(i, j) =~= esc(v) + seq!['"']) by {
            assert forall|k: int| 0 <= k < j - i implies s.subrange(i, j)[k] == (esc(v) + seq![
                '"',
            ])[k] by {
                if k >= 2 {
                    assert(s.subrange(i + 2, j)[k - 2] == (esc(t) + seq!['"'])[k - 2]);
                }
            }
        }
    } else {
        lemma_qbody_sound(s, i + 1);
        let (t, j1) = parse_qbody(s, i + 1).unwrap();
        assert(v == seq![s[i]] + t);
        assert(esc(v) == seq![s[i]] + esc(t)) by {
            assert(v[0] == s[i]);
            assert(v.subrange(1, v.len() as int) =~= t);
            assert(esc_char(v[0]) == seq![s[i]]);
        }
        assert(s.subrange(i, j) =~= esc(v) + seq!['"']) by {
            assert forall|k: int| 0 <= k < j - i implies s.subrange(i, j)[k] == (esc(v) + seq![
                '"',
            ])[k] by {
                if k >= 1 {
                    assert(s.subrange(i + 1, j)[k - 1] == (esc(t) + seq!['"'])[k - 1]);
                }
            }
        }
    }
}

/// Only canonical text is recognised: whenever the reference parser
/// accepts a quoted string at `i`, the characters it consumed are
/// exactly the quoted form of the value it returns.
pub proof fn lemma_quoted_sound(s: Seq<char>, i: int)
    requires
        0 <= i,
        parse_quoted(s, i) is Some,
    ensures
        ({
            let (v, j) = parse_quoted(s, i).unwrap();
            &&& i < j <= s.len()
            &&& j == i + quoted(v).len()
            &&& s.subrange(i, j) == quoted(v)
        }),
{
    let (v, j) = parse_quoted(s, i).unwrap();
    lemma_qbody_sound(s, i + 1);
    assert(s.subrange(i, j) =~= quoted(v)) by {
        assert forall|k: int| 0 <= k < j - i implies s.subrange(i, j)[k] == quoted(v)[k] by {
            if k >= 1 {
                assert(s.subrange(i + 1, j)[k - 1] == (esc(v) + seq!['"'])[k - 1]);
            }
        }
    }
}

/// Knowledge of two adjacent subranges joins into knowledge of their
/// concatenation.
pub proof fn lemma_join_at(s: Seq<char>, i: int, a: Seq<char>, b: Seq<char>)
    requires
        0 <= i,
        i + a.len() + b.len() <= s.len(),
        s.subrange(i, i + a.len()) == a,
        s.subrange(i + a.len(), i + a.len() + b.len()) == b,
    ensures
        s.subrange(i, i + a.len() + b.len()) == a + b,
{
    assert(s.subrange(i, i + a.len() + b.len()) =~= a + b) by {
        assert forall|k: int| 0 <= k < a.len() + b.len() implies s.subrange(
            i,
            i + a.len() + b.len(),
        )[k] == (a + b)[k] by {
            if k < a.len() {
                assert(s.subrange(i, i + a.len())[k] == a[k]);
            } else {
                assert(s.subrange(i + a.len(), i + a.len() + b.len())[k - a.len()] == b[k
                    - a.len()]);
            }
        }
    }
}

/// Peel one `literal, quoted field` pair off a canonical document: both
/// parse as written, and the remainder stands right after them.
pub proof fn lemma_lit_then_quoted(s: Seq<char>, i: int, lit: Seq<char>, v: Seq<char>, rest: Seq<
    char,
>)
    requires
        0 <= i,
        i + lit.len() + quoted(v).len() + rest.len() <= s.len(),
        s.subrange(i, i + lit.len() + quoted(v).len() + rest.len()) == lit + (quoted(v) + rest),
    ensures
        parse_lit(s, i, lit) == Some(i + lit.len()),
        parse_quoted(s, i + lit.len()) == Some((v, i + lit.len() + quoted(v).len())),
        s.subrange(
            i + lit.len() + quoted(v).len(),
            i + lit.len() + quoted(v).len() + rest.len(),
        ) == rest,
{
    lemma_split_at(s, i, lit, quoted(v) + rest);
    lemma_lit_at(s, i, lit);
    lemma_split_at(s, i + lit.len(), quoted(v), rest);
    lemma_quoted_of_encoding(v, s, i + lit.len());
}

/// Split knowledge of a concatenation standing at `i` into its parts.
pub proof fn lemma_split_at(s: Seq<char>, i: int, a: Seq<char>, b: Seq<char>)
    requires
        0 <= i,
        i + a.len() + b.len() <= s.len(),
        s.subrange(i, i + a.len() + b.len()) == a + b,
    ensures
        s.subrange(i, i + a.len()) == a,
        s.subrange(i + a.len(), i + a.len() + b.len()) == b,
{
    let whole = a + b;
    assert(s.subrange(i, i + a.len()) =~= a) by {
        assert forall|k: int| 0 <= k < a.len() implies s.subrange(i, i + a.len())[k] == a[k] by {
            assert(s.subrange(i, i + whole.len())[k] == whole[k]);
        }
    }
    assert(s.subrange(i + a.len(), i + a.len() + b.len()) =~= b) by {
        assert forall|k: int| 0 <= k < b.len() implies s.subrange(
            i + a.len(),
            i + a.len() + b.len(),
        )[k] == b[k] by {
            assert(s.subrange(i, i + whole.len())[a.len() + k] == whole[a.len() + k]);
        }
    }
}

} // verus!
