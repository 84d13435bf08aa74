//! Shader parameter overrides are written as `"NAME=VALUE;NAME=VALUE"`. This
//! module cuts such a string into trimmed name and value texts; reading each
//! value as a number is left to the caller.
use vstd::prelude::*;

verus! {

broadcast use vstd::string::group_string_axioms;

/// The characters with the Unicode `White_Space` property, which
/// `str::trim` removes.
pub open spec fn is_white_space(c: char) -> bool {
    ||| '\u{9}' <= c <= '\u{d}'
    ||| c == ' '
    ||| c == '\u{85}'
    ||| c == '\u{a0}'
    ||| c == '\u{1680}'
    ||| '\u{2000}' <= c <= '\u{200a}'
    ||| c == '\u{2028}'
    ||| c == '\u{2029}'
    ||| c == '\u{202f}'
    ||| c == '\u{205f}'
    ||| c == '\u{3000}'
}

/// `s` without its leading white space.
pub open spec fn trim_start(s: Seq<char>) -> Seq<char>
    decreases s.len(),
{
    if s.len() > 0 && is_white_space(s[0]) {
        trim_start(s.drop_first())
    } else {
        s
    }
}

/// `s` without its trailing white space.
pub open spec fn trim_end(s: Seq<char>) -> Seq<char>
    decreases s.len(),
{
    if s.len() > 0 && is_white_space(s.last()) {
        trim_end(s.drop_last())
    } else {
        s
    }
}

/// `s` without white space at either end.
pub open spec fn trim(s: Seq<char>) -> Seq<char> {
    trim_end(trim_start(s))
}

/// The pieces of `s` between the `;` separators, in order; there is one
/// more piece than there are separators.
pub open spec fn split_on_semicolons(s: Seq<char>) -> Seq<Seq<char>>
    decreases s.len(),
{
    if s.len() == 0 {
        seq![Seq::empty()]
    } else {
        let pieces = split_on_semicolons(s.drop_last());
        if s.last() == ';' {
            pieces.push(Seq::empty())
        } else {
            pieces.update(pieces.len() - 1, pieces.last().push(s.last()))
        }
    }
}

/// Where `c` first occurs in `s`.
pub open spec fn first_index_of(s: Seq<char>, c: char) -> Option<int> {
    if exists|i: int| 0 <= i < s.len() && s[i] == c {
        Some(
            choose|i: int|
                0 <= i < s.len() && s[i] == c && forall|j: int| 0 <= j < i ==> s[j] != c,
        )
    } else {
        None
    }
}

/// The name and the value text of one `NAME=VALUE` piece: the text before
/// and after its first `=`, each trimmed. A piece without `=` gives nothing.
pub open spec fn param_field(piece: Seq<char>) -> Option<(Seq<char>, Seq<char>)> {
    match first_index_of(piece, '=') {
        Some(i) => Some((trim(piece.take(i)), trim(piece.skip(i + 1)))),
        None => None,
    }
}

/// The fields of a list of pieces, in order, skipping pieces without `=`.
pub open spec fn fields_of_pieces(pieces: Seq<Seq<char>>) -> Seq<(Seq<char>, Seq<char>)>
    decreases pieces.len(),
{
    if pieces.len() == 0 {
        Seq::empty()
    } else {
        let rest = fields_of_pieces(pieces.drop_last());
        match param_field(pieces.last()) {
            Some(f) => rest.push(f),
            None => rest,
        }
    }
}

/// The fields of a whole parameter string.
pub open spec fn param_fields(s: Seq<char>) -> Seq<(Seq<char>, Seq<char>)> {
    fields_of_pieces(split_on_semicolons(s))
}

/// The views of a list of name and value strings.
pub open spec fn fields_view(v: Seq<(String, String)>) -> Seq<(Seq<char>, Seq<char>)> {
    v.map_values(|p: (String, String)| (p.0@, p.1@))
}

/// Tells whether `c` has the Unicode `White_Space` property.
pub fn is_white_space_char(c: char) -> (res: bool)
    ensures
        res == is_white_space(c),
{
    ('\u{9}' <= c && c <= '\u{d}') || c == ' ' || c == '\u{85}' || c == '\u{a0}' || c
        == '\u{1680}' || ('\u{2000}' <= c && c <= '\u{200a}') || c == '\u{2028}' || c
        == '\u{2029}' || c == '\u{202f}' || c == '\u{205f}' || c == '\u{3000}'
}

fn chars_of(s: &str) -> (cs: Vec<char>)
    ensures
        cs@ == s@,
{
    let mut cs: Vec<char> = Vec::new();
    for c in it: s.chars()
        invariant
            cs@ == it.seq().take(it.index()),
    {
        cs.push(c);
    }
    assert(cs@ =~= s@);
    cs
}

proof fn lemma_trim_start_step(s: Seq<char>, a: int, b: int)
    requires
        0 <= a < b <= s.len(),
        is_white_space(s[a]),
    ensures
        trim_start(s.subrange(a, b)) == trim_start(s.subrange(a + 1, b)),
{
    assert(s.subrange(a, b).drop_first() =~= s.subrange(a + 1, b));
}

proof fn lemma_trim_end_step(s: Seq<char>, a: int, b: int)
    requires
        0 <= a < b <= s.len(),
        is_white_space(s[b - 1]),
    ensures
        trim_end(s.subrange(a, b)) == trim_end(s.subrange(a, b - 1)),
{
    assert(s.subrange(a, b).drop_last() =~= s.subrange(a, b - 1));
}

/// The bounds of `cs[from..to]` trimmed.
fn trim_bounds(cs: &Vec<char>, from: usize, to: usize) -> (res: (usize, usize))
    requires
        from <= to <= cs@.len(),
    ensures
        from <= res.0 <= res.1 <= to,
        cs@.subrange(res.0 as int, res.1 as int) == trim(cs@.subrange(from as int, to as int)),
{
    let mut a: usize = from;
    while a < to && is_white_space_char(cs[a])
        invariant
            from <= a <= to <= cs@.len(),
            trim_start(cs@.subrange(from as int, to as int)) == trim_start(
                cs@.subrange(a as int, to as int),
            ),
        decreases to - a,
    {
        proof {
            lemma_trim_start_step(cs@, a as int, to as int);
        }
        a = a + 1;
    }
    assert(trim_start(cs@.subrange(a as int, to as int)) == cs@.subrange(a as int, to as int));
    let mut b: usize = to;
    while b > a && is_white_space_char(cs[b - 1])
        invariant
            from <= a <= b <= to <= cs@.len(),
            trim_end(cs@.subrange(a as int, to as int)) == trim_end(
                cs@.subrange(a as int, b as int),
            ),
        decreases b - a,
    {
        proof {
            lemma_trim_end_step(cs@, a as int, b as int);
        }
        b = b - 1;
    }
    assert(trim_end(cs@.subrange(a as int, b as int)) == cs@.subrange(a as int, b as int));
    (a, b)
}

/// The field of the piece `cs[from..to]`, taken from `s`, whose characters
/// `cs` are.
fn piece_field(s: &str, cs: &Vec<char>, from: usize, to: usize) -> (res: Option<(String, String)>)
    requires
        cs@ == s@,
        from <= to <= cs@.len(),
    ensures
        match res {
            Some(p) => param_field(cs@.subrange(from as int, to as int)) == Some((p.0@, p.1@)),
            None => param_field(cs@.subrange(from as int, to as int)) is None,
        },
{
    let ghost piece = cs@.subrange(from as int, to as int);
    let mut i: usize = from;
    while i < to && cs[i] != '='
        invariant
            from <= i <= to <= cs@.len(),
            forall|j: int| from <= j < i ==> cs@[j] != '=',
        decreases to - i,
    {
        i = i + 1;
    }
    if i == to {
        assert(!exists|j: int| 0 <= j < piece.len() && piece[j] == '=') by {
            assert forall|j: int| 0 <= j < piece.len() implies piece[j] != '=' by {
                assert(piece[j] == cs@[from + j]);
            }
        }
        return None;
    }
    let ghost k = i - from;
    proof {
        assert(piece[k] == '=');
        let c = choose|c: int|
            0 <= c < piece.len() && piece[c] == '=' && forall|j: int| 0 <= j < c ==> piece[j] != '=';
        assert(c == k) by {
            if c < k {
                assert(cs@[from + c] == '=');
            }
            if c > k {
                assert(piece[k] != '=');
            }
        }
        assert(piece.take(k) =~= cs@.subrange(from as int, i as int));
        assert(piece.skip(k + 1) =~= cs@.subrange(i + 1, to as int));
    }
    let (ka, kb) = trim_bounds(cs, from, i);
    let (va, vb) = trim_bounds(cs, i + 1, to);
    let name = String::from_str(s.substring_char(ka, kb));
    let value = String::from_str(s.substring_char(va, vb));
    Some((name, value))
}

proof fn lemma_split_step(s: Seq<char>, i: int)
    requires
        0 <= i < s.len(),
    ensures
        split_on_semicolons(s.take(i + 1)) == if s[i] == ';' {
            split_on_semicolons(s.take(i)).push(Seq::empty())
        } else {
            let p = split_on_semicolons(s.take(i));
            p.update(p.len() - 1, p.last().push(s[i]))
        },
{
    assert(s.take(i + 1).drop_last() =~= s.take(i));
}

proof fn lemma_split_nonempty(s: Seq<char>)
    ensures
        split_on_semicolons(s).len() >= 1,
    decreases s.len(),
{
    if s.len() > 0 {
        lemma_split_nonempty(s.drop_last());
    }
}

proof fn lemma_fields_push(done: Seq<Seq<char>>, piece: Seq<char>)
    ensures
        fields_of_pieces(done.push(piece)) == match param_field(piece) {
            Some(f) => fields_of_pieces(done).push(f),
            None => fields_of_pieces(done),
        },
{
    assert(done.push(piece).drop_last() =~= done);
}

proof fn lemma_fields_view_push(v: Seq<(String, String)>, f: (String, String))
    ensures
        fields_view(v.push(f)) == fields_view(v).push((f.0@, f.1@)),
{
    assert(fields_view(v.push(f)) =~= fields_view(v).push((f.0@, f.1@)));
}

/// Adds the field of the piece `cs[from..to]`, if it has one, to `out`.
fn push_piece_field(
    params_str: &str,
    cs: &Vec<char>,
    from: usize,
    to: usize,
    out: &mut Vec<(String, String)>,
    Ghost(done): Ghost<Seq<Seq<char>>>,
)
    requires
        cs@ == params_str@,
        from <= to <= cs@.len(),
        fields_view(old(out)@) == fields_of_pieces(done),
    ensures
        fields_view(final(out)@) == fields_of_pieces(done.push(cs@.subrange(from as int, to as int))),
{
    let field = piece_field(params_str, cs, from, to);
    proof {
        lemma_fields_push(done, cs@.subrange(from as int, to as int));
    }
    match field {
        Some(f) => {
            proof {
                lemma_fields_view_push(out@, f);
            }
            out.push(f);
        },
        None => {},
    }
}

proof fn lemma_trim_start_from(x: Seq<char>, c: char)
    requires
        trim_start(x).contains(c),
    ensures
        x.contains(c),
    decreases x.len(),
{
    if x.len() > 0 && is_white_space(x[0]) {
        lemma_trim_start_from(x.drop_first(), c);
        let k = choose|k: int| 0 <= k < x.drop_first().len() && x.drop_first()[k] == c;
        assert(x[k + 1] == c);
    }
}

proof fn lemma_trim_end_from(x: Seq<char>, c: char)
    requires
        trim_end(x).contains(c),
    ensures
        x.contains(c),
    decreases x.len(),
{
    if x.len() > 0 && is_white_space(x.last()) {
        lemma_trim_end_from(x.drop_last(), c);
        let k = choose|k: int| 0 <= k < x.drop_last().len() && x.drop_last()[k] == c;
        assert(x[k] == c);
    }
}

proof fn lemma_trim_from(x: Seq<char>, c: char)
    requires
        trim(x).contains(c),
    ensures
        x.contains(c),
{
    lemma_trim_end_from(trim_start(x), c);
    lemma_trim_start_from(x, c);
}

proof fn lemma_pieces_have_no_semicolon(s: Seq<char>)
    ensures
        forall|k: int|
            0 <= k < split_on_semicolons(s).len() ==> !(#[trigger] split_on_semicolons(s)[k]).contains(
                ';',
            ),
    decreases s.len(),
{
    if s.len() > 0 {
        let p = split_on_semicolons(s.drop_last());
        lemma_pieces_have_no_semicolon(s.drop_last());
        lemma_split_nonempty(s.drop_last());
        if s.last() != ';' {
            let q = p.last().push(s.last());
            assert(!q.contains(';')) by {
                if q.contains(';') {
                    let k = choose|k: int| 0 <= k < q.len() && q[k] == ';';
                    if k < p.last().len() {
                        assert(p[p.len() - 1][k] == ';');
                        assert(p[p.len() - 1].contains(';'));
                    }
                }
            }
        }
        let r = split_on_semicolons(s);
        assert forall|k: int| 0 <= k < r.len() implies !(#[trigger] r[k]).contains(';') by {
            if k < p.len() - 1 || (s.last() == ';' && k < p.len()) {
                assert(r[k] == p[k]);
            }
        }
    }
}

/// A field found in a piece without `;`: its name holds neither `;` nor
/// `=`, its value holds no `;`.
pub open spec fn field_is_clean(f: (Seq<char>, Seq<char>)) -> bool {
    &&& !f.0.contains(';')
    &&& !f.0.contains('=')
    &&& !f.1.contains(';')
}

proof fn lemma_first_index_of(s: Seq<char>, c: char)
    ensures
        match first_index_of(s, c) {
            Some(i) => 0 <= i < s.len() && s[i] == c && forall|j: int| 0 <= j < i ==> s[j] != c,
            None => forall|j: int| 0 <= j < s.len() ==> s[j] != c,
        },
    decreases s.len(),
{
    if exists|i: int| 0 <= i < s.len() && s[i] == c {
        if s[0] == c {
            assert(0 <= 0 < s.len() && s[0] == c && forall|j: int| 0 <= j < 0 ==> s[j] != c);
        } else {
            let t = s.drop_first();
            let w = choose|i: int| 0 <= i < s.len() && s[i] == c;
            assert(t[w - 1] == c);
            lemma_first_index_of(t, c);
            let i = first_index_of(t, c)->0;
            assert(forall|j: int| 0 <= j < i + 1 ==> s[j] != c) by {
                assert forall|j: int| 0 <= j < i + 1 implies s[j] != c by {
                    if j > 0 {
                        assert(s[j] == t[j - 1]);
                    }
                }
            }
            assert(s[i + 1] == c);
        }
    }
}

proof fn lemma_piece_field_clean(piece: Seq<char>)
    requires
        !piece.contains(';'),
    ensures
        param_field(piece) matches Some(f) ==> field_is_clean(f),
{
    lemma_first_index_of(piece, '=');
    if let Some(i) = first_index_of(piece, '=') {
        let name = piece.take(i);
        let value = piece.skip(i + 1);
        if trim(name).contains(';') {
            lemma_trim_from(name, ';');
            let k = choose|k: int| 0 <= k < name.len() && name[k] == ';';
            assert(piece[k] == ';');
        }
        if trim(name).contains('=') {
            lemma_trim_from(name, '=');
            let k = choose|k: int| 0 <= k < name.len() && name[k] == '=';
            assert(piece[k] == '=');
        }
        if trim(value).contains(';') {
            lemma_trim_from(value, ';');
            let k = choose|k: int| 0 <= k < value.len() && value[k] == ';';
            assert(piece[k + i + 1] == ';');
        }
    }
}

proof fn lemma_fields_of_clean_pieces(pieces: Seq<Seq<char>>)
    requires
        forall|k: int| 0 <= k < pieces.len() ==> !(#[trigger] pieces[k]).contains(';'),
    ensures
        forall|k: int|
            0 <= k < fields_of_pieces(pieces).len() ==> field_is_clean(
                #[trigger] fields_of_pieces(pieces)[k],
            ),
    decreases pieces.len(),
{
    if pieces.len() > 0 {
        let rest = pieces.drop_last();
        assert forall|k: int| 0 <= k < rest.len() implies !(#[trigger] rest[k]).contains(';') by {
            assert(rest[k] == pieces[k]);
        }
        lemma_fields_of_clean_pieces(rest);
        assert(!pieces[pieces.len() - 1].contains(';'));
        lemma_piece_field_clean(pieces.last());
        let fs = fields_of_pieces(pieces);
        let rs = fields_of_pieces(rest);
        assert forall|k: int| 0 <= k < fs.len() implies field_is_clean(#[trigger] fs[k]) by {
            if k < rs.len() {
                assert(fs[k] == rs[k]);
            }
        }
    }
}

/// Every field name holds neither `;` nor `=`, and every value holds no
/// `;`: the pieces are cut at each separator and each name ends at the
/// first `=`.
pub proof fn law_fields_hold_no_separators(s: Seq<char>)
    ensures
        forall|k: int|
            0 <= k < param_fields(s).len() ==> field_is_clean(#[trigger] param_fields(s)[k]),
{
    lemma_pieces_have_no_semicolon(s);
    lemma_fields_of_clean_pieces(split_on_semicolons(s));
}

proof fn lemma_pieces_chars(s: Seq<char>, c: char)
    requires
        !s.contains(c),
    ensures
        forall|k: int|
            0 <= k < split_on_semicolons(s).len() ==> !(#[trigger] split_on_semicolons(s)[k]).contains(c),
    decreases s.len(),
{
    if s.len() > 0 {
        let p = split_on_semicolons(s.drop_last());
        assert(!s.drop_last().contains(c)) by {
            if s.drop_last().contains(c) {
                let k = choose|k: int| 0 <= k < s.drop_last().len() && s.drop_last()[k] == c;
                assert(s[k] == c);
            }
        }
        lemma_pieces_chars(s.drop_last(), c);
        lemma_split_nonempty(s.drop_last());
        assert(s[s.len() - 1] != c);
        if s.last() != ';' {
            let q = p.last().push(s.last());
            assert(!q.contains(c)) by {
                if q.contains(c) {
                    let k = choose|k: int| 0 <= k < q.len() && q[k] == c;
                    if k < p.last().len() {
                        assert(p[p.len() - 1][k] == c);
                        assert(p[p.len() - 1].contains(c));
                    }
                }
            }
        }
        let r = split_on_semicolons(s);
        assert forall|k: int| 0 <= k < r.len() implies !(#[trigger] r[k]).contains(c) by {
            if k < p.len() - 1 || (s.last() == ';' && k < p.len()) {
                assert(r[k] == p[k]);
            }
        }
    }
}

proof fn lemma_fields_of_pieces_without_equals(pieces: Seq<Seq<char>>)
    requires
        forall|k: int| 0 <= k < pieces.len() ==> !(#[trigger] pieces[k]).contains('='),
    ensures
        fields_of_pieces(pieces).len() == 0,
    decreases pieces.len(),
{
    if pieces.len() > 0 {
        let rest = pieces.drop_last();
        assert forall|k: int| 0 <= k < rest.len() implies !(#[trigger] rest[k]).contains('=') by {
            assert(rest[k] == pieces[k]);
        }
        lemma_fields_of_pieces_without_equals(rest);
        let last = pieces.last();
        assert(!pieces[pieces.len() - 1].contains('='));
        assert(!exists|i: int| 0 <= i < last.len() && last[i] == '=');
    }
}

/// The empty string, and any string without `=`, has no fields.
pub proof fn law_no_equals_no_fields(s: Seq<char>)
    requires
        !s.contains('='),
    ensures
        param_fields(s).len() == 0,
{
    lemma_pieces_chars(s, '=');
    lemma_fields_of_pieces_without_equals(split_on_semicolons(s));
}

proof fn lemma_trim_start_shape(x: Seq<char>)
    ensures
        trim_start(x).len() == 0 || !is_white_space(trim_start(x)[0]),
    decreases x.len(),
{
    if x.len() > 0 && is_white_space(x[0]) {
        lemma_trim_start_shape(x.drop_first());
    }
}

proof fn lemma_trim_end_shape(x: Seq<char>)
    ensures
        trim_end(x).len() <= x.len(),
        trim_end(x) == x.take(trim_end(x).len() as int),
        trim_end(x).len() == 0 || !is_white_space(trim_end(x).last()),
    decreases x.len(),
{
    if x.len() > 0 && is_white_space(x.last()) {
        lemma_trim_end_shape(x.drop_last());
        assert(x.drop_last().take(trim_end(x).len() as int) =~= x.take(trim_end(x).len() as int));
    } else {
        assert(x.take(x.len() as int) =~= x);
    }
}

/// Whether a text starts or ends with white space.
pub open spec fn is_trimmed(t: Seq<char>) -> bool {
    t.len() == 0 || (!is_white_space(t[0]) && !is_white_space(t.last()))
}

/// Trimming leaves no white space at either end.
pub proof fn law_trim_leaves_no_edge_white_space(x: Seq<char>)
    ensures
        is_trimmed(trim(x)),
{
    lemma_trim_start_shape(x);
    lemma_trim_end_shape(trim_start(x));
    let t = trim(x);
    if t.len() > 0 {
        assert(t[0] == trim_start(x)[0]);
    }
}

/// Every field name and value starts and ends with something other than
/// white space (or is empty).
pub proof fn law_fields_are_trimmed(s: Seq<char>)
    ensures
        forall|k: int|
            0 <= k < param_fields(s).len() ==> is_trimmed((#[trigger] param_fields(s)[k]).0)
                && is_trimmed(param_fields(s)[k].1),
{
    lemma_fields_of_pieces_trimmed(split_on_semicolons(s));
}

proof fn lemma_fields_of_pieces_trimmed(pieces: Seq<Seq<char>>)
    ensures
        forall|k: int|
            0 <= k < fields_of_pieces(pieces).len() ==> is_trimmed(
                (#[trigger] fields_of_pieces(pieces)[k]).0,
            ) && is_trimmed(fields_of_pieces(pieces)[k].1),
    decreases pieces.len(),
{
    if pieces.len() > 0 {
        let rest = pieces.drop_last();
        lemma_fields_of_pieces_trimmed(rest);
        let last = pieces.last();
        if let Some(i) = first_index_of(last, '=') {
            law_trim_leaves_no_edge_white_space(last.take(i));
            law_trim_leaves_no_edge_white_space(last.skip(i + 1));
        }
        let fs = fields_of_pieces(pieces);
        let rs = fields_of_pieces(rest);
        assert forall|k: int| 0 <= k < fs.len() implies is_trimmed((#[trigger] fs[k]).0)
            && is_trimmed(fs[k].1) by {
            if k < rs.len() {
                assert(fs[k] == rs[k]);
            }
        }
    }
}

/// Cuts a `"NAME=VALUE;NAME=VALUE"` string into its fields: for each piece
/// between `;` separators that holds a `=`, the text before the first `=`
/// and the text after it, both with white space trimmed from the ends.
pub fn shader_param_fields(params_str: &str) -> (res: Vec<(String, String)>)
    ensures
        fields_view(res@) == param_fields(params_str@),
{
    let cs = chars_of(params_str);
    let n: usize = cs.len();
    let mut out: Vec<(String, String)> = Vec::new();
    let mut start: usize = 0;
    let mut i: usize = 0;
    let ghost mut done: Seq<Seq<char>> = Seq::empty();
    assert(cs@.take(0) =~= Seq::<char>::empty());
    assert(cs@.subrange(0, 0) =~= Seq::<char>::empty());
    assert(fields_view(out@) =~= Seq::empty());
    while i < n
        invariant
            n == cs@.len(),
            cs@ == params_str@,
            start <= i <= n,
            split_on_semicolons(cs@.take(i as int)) == done.push(cs@.subrange(start as int, i as int)),
            fields_view(out@) == fields_of_pieces(done),
        decreases n - i,
    {
        proof {
            lemma_split_step(cs@, i as int);
        }
        if cs[i] == ';' {
            push_piece_field(params_str, &cs, start, i, &mut out, Ghost(done));
            proof {
                done = done.push(cs@.subrange(start as int, i as int));
            }
            start = i + 1;
            assert(cs@.subrange(start as int, (i + 1) as int) =~= Seq::<char>::empty());
        } else {
            let ghost p = done.push(cs@.subrange(start as int, i as int));
            assert(cs@.subrange(start as int, (i + 1) as int) =~= cs@.subrange(
                start as int,
                i as int,
            ).push(cs@[i as int]));
            assert(p.update(p.len() - 1, p.last().push(cs@[i as int])) =~= done.push(
                cs@.subrange(start as int, (i + 1) as int),
            ));
        }
        i = i + 1;
    }
    assert(cs@.take(n as int) =~= cs@);
    push_piece_field(params_str, &cs, start, n, &mut out, Ghost(done));
    out
}

} // verus!
