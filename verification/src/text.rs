use vstd::prelude::*;

verus! {

/// The characters with the Unicode `White_Space` property (PropList.txt):
/// U+0009..U+000D, U+0020, U+0085, U+00A0, U+1680, U+2000..U+200A, U+2028,
/// U+2029, U+202F, U+205F and U+3000. These are the characters that
/// `char::is_whitespace` accepts and that `str::trim` removes.
pub open spec fn is_white_space(c: char) -> bool {
    let u = c as u32;
    ||| 0x09 <= u <= 0x0D
    ||| u == 0x20
    ||| u == 0x85
    ||| u == 0xA0
    ||| u == 0x1680
    ||| 0x2000 <= u <= 0x200A
    ||| u == 0x2028
    ||| u == 0x2029
    ||| u == 0x202F
    ||| u == 0x205F
    ||| u == 0x3000
}

/// `s` without its leading white space.
pub open spec fn trim_start(s: Seq<char>) -> Seq<char>
    decreases s.len(),
{
    if s.len() > 0 && is_white_space(s[0]) {
        trim_start(s.drop_first())
    } else {
        s
    }
}

/// `s` without its trailing white space.
pub open spec fn trim_end(s: Seq<char>) -> Seq<char>
    decreases s.len(),
{
    if s.len() > 0 && is_white_space(s.last()) {
        trim_end(s.drop_last())
    } else {
        s
    }
}

/// `s` without white space at either end.
pub open spec fn trimmed(s: Seq<char>) -> Seq<char> {
    trim_end(trim_start(s))
}

/// The pieces of `s` between its commas, read left to right: a string with
/// `n` commas has `n + 1` pieces, some of which may be empty.
pub open spec fn split_commas(s: Seq<char>) -> Seq<Seq<char>>
    decreases s.len(),
{
    if s.len() == 0 {
        seq![Seq::<char>::empty()]
    } else {
        let r = split_commas(s.drop_last());
        if s.last() == ',' {
            r.push(Seq::<char>::empty())
        } else {
            r.update(r.len() - 1, r.last().push(s.last()))
        }
    }
}

/// The pieces joined again, with a comma between two neighbours.
pub open spec fn join_commas(p: Seq<Seq<char>>) -> Seq<char>
    decreases p.len(),
{
    if p.len() == 0 {
        Seq::<char>::empty()
    } else if p.len() == 1 {
        p[0]
    } else {
        join_commas(p.drop_last()).push(',') + p.last()
    }
}

/// The artist names that a tag's artist field lists: the comma-separated
/// pieces, each without white space at its ends.
pub open spec fn artist_names_of(s: Seq<char>) -> Seq<Seq<char>> {
    split_commas(s).map_values(|p: Seq<char>| trimmed(p))
}

/// The white-space characters are exactly these twenty-five: tab, line
/// feed, vertical tab, form feed, carriage return, space, next line,
/// no-break space, ogham space mark, the eleven spaces U+2000..U+200A, line
/// separator, paragraph separator, narrow no-break space, medium
/// mathematical space and ideographic space.
pub proof fn law_white_space_is_the_unicode_set(c: char)
    ensures
        is_white_space(c) <==> {
            ||| c == '\t'
            ||| c == '\n'
            ||| c == '\u{0B}'
            ||| c == '\u{0C}'
            ||| c == '\r'
            ||| c == ' '
            ||| c == '\u{85}'
            ||| c == '\u{A0}'
            ||| c == '\u{1680}'
            ||| c == '\u{2000}'
            ||| c == '\u{2001}'
            ||| c == '\u{2002}'
            ||| c == '\u{2003}'
            ||| c == '\u{2004}'
            ||| c == '\u{2005}'
            ||| c == '\u{2006}'
            ||| c == '\u{2007}'
            ||| c == '\u{2008}'
            ||| c == '\u{2009}'
            ||| c == '\u{200A}'
            ||| c == '\u{2028}'
            ||| c == '\u{2029}'
            ||| c == '\u{202F}'
            ||| c == '\u{205F}'
            ||| c == '\u{3000}'
        },
{
}

/// Whether `c` is a white-space character (see `is_white_space`).
pub fn is_whitespace_char(c: char) -> (res: bool)
    ensures
        res == is_white_space(c),
        res <==> {
            ||| c == '\t'
            ||| c == '\n'
            ||| c == '\u{0B}'
            ||| c == '\u{0C}'
            ||| c == '\r'
            ||| c == ' '
            ||| c == '\u{85}'
            ||| c == '\u{A0}'
            ||| c == '\u{1680}'
            ||| c == '\u{2000}'
            ||| c == '\u{2001}'
            ||| c == '\u{2002}'
            ||| c == '\u{2003}'
            ||| c == '\u{2004}'
            ||| c == '\u{2005}'
            ||| c == '\u{2006}'
            ||| c == '\u{2007}'
            ||| c == '\u{2008}'
            ||| c == '\u{2009}'
            ||| c == '\u{200A}'
            ||| c == '\u{2028}'
            ||| c == '\u{2029}'
            ||| c == '\u{202F}'
            ||| c == '\u{205F}'
            ||| c == '\u{3000}'
        },
{
    proof {
        law_white_space_is_the_unicode_set(c);
    }
    let u = c as u32;
    (0x09 <= u && u <= 0x0D) || u == 0x20 || u == 0x85 || u == 0xA0 || u == 0x1680 || (0x2000
        <= u && u <= 0x200A) || u == 0x2028 || u == 0x2029 || u == 0x202F || u == 0x205F || u
        == 0x3000
}

proof fn lemma_trim_start_skips(s: Seq<char>, i: int)
    requires
        0 <= i <= s.len(),
        forall|k: int| 0 <= k < i ==> is_white_space(#[trigger] s[k]),
        i == s.len() || !is_white_space(s[i]),
    ensures
        trim_start(s) == s.subrange(i, s.len() as int),
    decreases i,
{
    if i == 0 {
        assert(s.subrange(0, s.len() as int) =~= s);
    } else {
        let t = s.drop_first();
        assert forall|k: int| 0 <= k < i - 1 implies is_white_space(#[trigger] t[k]) by {
            assert(t[k] == s[k + 1]);
        }
        if i - 1 < t.len() {
            assert(t[i - 1] == s[i]);
        }
        lemma_trim_start_skips(t, i - 1);
        assert(t.subrange(i - 1, t.len() as int) =~= s.subrange(i, s.len() as int));
    }
}

proof fn lemma_trim_end_skips(s: Seq<char>, j: int)
    requires
        0 <= j <= s.len(),
        forall|k: int| j <= k < s.len() ==> is_white_space(#[trigger] s[k]),
        j == 0 || !is_white_space(s[j - 1]),
    ensures
        trim_end(s) == s.subrange(0, j),
    decreases s.len() - j,
{
    if j == s.len() {
        assert(s.subrange(0, j) =~= s);
    } else {
        let t = s.drop_last();
        assert forall|k: int| j <= k < t.len() implies is_white_space(#[trigger] t[k]) by {
            assert(t[k] == s[k]);
        }
        if j > 0 {
            assert(t[j - 1] == s[j - 1]);
        }
        lemma_trim_end_skips(t, j);
        assert(t.subrange(0, j) =~= s.subrange(0, j));
    }
}

/// `s` without white space at either end, as `str::trim` gives it.
pub fn trim(s: &str) -> (res: String)
    ensures
        res@ == trimmed(s@),
{
    let len = s.unicode_len();
    let mut i: usize = 0;
    while i < len && is_whitespace_char(s.get_char(i))
        invariant
            len == s@.len(),
            i <= len,
            forall|k: int| 0 <= k < i ==> is_white_space(#[trigger] s@[k]),
        decreases len - i,
    {
        i = i + 1;
    }
    proof {
        lemma_trim_start_skips(s@, i as int);
    }
    let ghost t = s@.subrange(i as int, len as int);
    let mut j: usize = len;
    while j > i && is_whitespace_char(s.get_char(j - 1))
        invariant
            len == s@.len(),
            i <= j <= len,
            t == s@.subrange(i as int, len as int),
            forall|k: int| j <= k < len ==> is_white_space(#[trigger] s@[k]),
        decreases j,
    {
        j = j - 1;
    }
    proof {
        assert forall|k: int| j - i <= k < t.len() implies is_white_space(#[trigger] t[k]) by {
            assert(t[k] == s@[k + i]);
        }
        if j > i {
            assert(t[j - i - 1] == s@[j - 1]);
        }
        lemma_trim_end_skips(t, j - i);
        assert(t.subrange(0, j - i) =~= s@.subrange(i as int, j as int));
    }
    s.substring_char(i, j).to_owned()
}

proof fn lemma_split_nonempty(s: Seq<char>)
    ensures
        split_commas(s).len() >= 1,
    decreases s.len(),
{
    if s.len() > 0 {
        lemma_split_nonempty(s.drop_last());
    }
}

/// The pieces of `s` between its commas (`str::split(',')`).
pub fn split_commas_of(s: &str) -> (res: Vec<String>)
    ensures
        res.deep_view() == split_commas(s@),
{
    let len = s.unicode_len();
    let mut pieces: Vec<String> = Vec::new();
    let mut start: usize = 0;
    let mut k: usize = 0;
    assert(s@.take(0) =~= Seq::<char>::empty());
    while k < len
        invariant
            len == s@.len(),
            start <= k <= len,
            split_commas(s@.take(k as int)) =~= pieces.deep_view().push(
                s@.subrange(start as int, k as int),
            ),
        decreases len - k,
    {
        let c = s.get_char(k);
        let ghost prev = s@.take(k as int);
        assert(s@.take(k + 1).drop_last() =~= prev);
        assert(s@.take(k + 1).last() == c);
        if c == ',' {
            let piece = s.substring_char(start, k).to_owned();
            let ghost before = pieces.deep_view();
            let ghost old_start = start;
            pieces.push(piece);
            start = k + 1;
            proof {
                assert(s@.subrange(start as int, k + 1) =~= Seq::<char>::empty());
                assert(pieces.deep_view() =~= before.push(s@.subrange(old_start as int, k as int)));
            }
        } else {
            assert(s@.subrange(start as int, k + 1) =~= s@.subrange(start as int, k as int).push(
                c,
            ));
        }
        k = k + 1;
    }
    assert(s@.take(len as int) =~= s@);
    let last = s.substring_char(start, len).to_owned();
    pieces.push(last);
    proof {
        assert(pieces.deep_view() =~= split_commas(s@));
    }
    pieces
}

/// The artist names listed in an artist field: `s.split(',')`, each piece
/// trimmed, in order.
pub fn artist_names(s: &str) -> (res: Vec<String>)
    ensures
        res.deep_view() == artist_names_of(s@),
        forall|p: Seq<Seq<char>>|
            p.len() >= 1 && #[trigger] join_commas(p) == s@ && (forall|i: int, k: int|
                0 <= i < p.len() && 0 <= k < p[i].len() ==> #[trigger] p[i][k] != ',')
                ==> res.deep_view() == p.map_values(|x: Seq<char>| trimmed(x)),
        (forall|k: int| 0 <= k < s@.len() ==> #[trigger] s@[k] != ',') ==> res.deep_view()
            == seq![trimmed(s@)],
{
    proof {
        law_artist_names_are_the_comma_pieces(s@, seq![s@]);
        assert forall|p: Seq<Seq<char>>|
            p.len() >= 1 && #[trigger] join_commas(p) == s@ && (forall|i: int, k: int|
                0 <= i < p.len() && 0 <= k < p[i].len() ==> #[trigger] p[i][k] != ',') implies artist_names_of(s@)
                == p.map_values(|x: Seq<char>| trimmed(x)) by {
            law_artist_names_are_the_comma_pieces(s@, p);
        }
    }
    let pieces = split_commas_of(s);
    let mut names: Vec<String> = Vec::new();
    let mut i: usize = 0;
    while i < pieces.len()
        invariant
            i <= pieces@.len(),
            pieces.deep_view() == split_commas(s@),
            names.deep_view() =~= split_commas(s@).take(i as int).map_values(
                |p: Seq<char>| trimmed(p),
            ),
        decreases pieces@.len() - i,
    {
        let name = trim(pieces[i].as_str());
        let ghost before = names.deep_view();
        names.push(name);
        proof {
            assert(pieces.deep_view()[i as int] == pieces@[i as int]@);
            assert(split_commas(s@).take(i + 1) =~= split_commas(s@).take(i as int).push(
                split_commas(s@)[i as int],
            ));
            assert(names.deep_view() =~= before.push(trimmed(split_commas(s@)[i as int])));
        }
        i = i + 1;
    }
    assert(split_commas(s@).take(pieces@.len() as int) =~= split_commas(s@));
    names
}

proof fn lemma_join_extend_last(p: Seq<Seq<char>>, c: char)
    requires
        p.len() >= 1,
    ensures
        join_commas(p.update(p.len() - 1, p.last().push(c))) == join_commas(p).push(c),
{
    let q = p.update(p.len() - 1, p.last().push(c));
    if p.len() == 1 {
    } else {
        assert(q.drop_last() =~= p.drop_last());
        assert(join_commas(q) == join_commas(p.drop_last()).push(',') + p.last().push(c));
        assert(join_commas(p.drop_last()).push(',') + p.last().push(c) =~= (join_commas(
            p.drop_last(),
        ).push(',') + p.last()).push(c));
    }
}

/// Splitting at the commas loses nothing: joining the pieces with commas
/// gives back the string, and no piece holds a comma.
pub proof fn law_split_commas_rejoins(s: Seq<char>)
    ensures
        join_commas(split_commas(s)) == s,
        forall|i: int, k: int|
            0 <= i < split_commas(s).len() && 0 <= k < split_commas(s)[i].len() ==> #[trigger] split_commas(s)[i][k]
                != ',',
    decreases s.len(),
{
    if s.len() == 0 {
    } else {
        let t = s.drop_last();
        let r = split_commas(t);
        law_split_commas_rejoins(t);
        lemma_split_nonempty(t);
        if s.last() == ',' {
            assert(r.push(Seq::<char>::empty()).drop_last() =~= r);
            assert(join_commas(r).push(',') + Seq::<char>::empty() =~= s);
        } else {
            lemma_join_extend_last(r, s.last());
            assert(t.push(s.last()) =~= s);
            let q = r.update(r.len() - 1, r.last().push(s.last()));
            assert forall|i: int, k: int| 0 <= i < q.len() && 0 <= k < q[i].len() implies #[trigger] q[i][k] != ',' by {
                if i == r.len() - 1 && k == r.last().len() {
                } else {
                    assert(q[i][k] == r[i][k]);
                }
            }
        }
    }
}

proof fn lemma_trim_start_suffix(s: Seq<char>)
    ensures
        exists|i: int|
            0 <= i <= s.len() && trim_start(s) == s.subrange(i, s.len() as int) && (forall|k: int|
                0 <= k < i ==> is_white_space(#[trigger] s[k])),
        trim_start(s).len() > 0 ==> !is_white_space(trim_start(s)[0]),
    decreases s.len(),
{
    if s.len() > 0 && is_white_space(s[0]) {
        let t = s.drop_first();
        lemma_trim_start_suffix(t);
        let i = choose|i: int|
            0 <= i <= t.len() && trim_start(t) == t.subrange(i, t.len() as int) && (forall|k: int|
                0 <= k < i ==> is_white_space(#[trigger] t[k]));
        assert(t.subrange(i, t.len() as int) =~= s.subrange(i + 1, s.len() as int));
        assert forall|k: int| 0 <= k < i + 1 implies is_white_space(#[trigger] s[k]) by {
            if k > 0 {
                assert(s[k] == t[k - 1]);
            }
        }
    } else {
        assert(s.subrange(0, s.len() as int) =~= s);
    }
}

proof fn lemma_trim_end_prefix(s: Seq<char>)
    ensures
        exists|j: int|
            0 <= j <= s.len() && trim_end(s) == s.subrange(0, j) && (forall|k: int|
                j <= k < s.len() ==> is_white_space(#[trigger] s[k])),
        trim_end(s).len() > 0 ==> !is_white_space(trim_end(s).last()),
    decreases s.len(),
{
    if s.len() > 0 && is_white_space(s.last()) {
        let t = s.drop_last();
        lemma_trim_end_prefix(t);
        let j = choose|j: int|
            0 <= j <= t.len() && trim_end(t) == t.subrange(0, j) && (forall|k: int|
                j <= k < t.len() ==> is_white_space(#[trigger] t[k]));
        assert(t.subrange(0, j) =~= s.subrange(0, j));
        assert forall|k: int| j <= k < s.len() implies is_white_space(#[trigger] s[k]) by {
            if k < t.len() {
                assert(s[k] == t[k]);
            }
        }
    } else {
        assert(s.subrange(0, s.len() as int) =~= s);
    }
}

/// Trimming removes exactly the white space at both ends: what is left is
/// the stretch `s[i..j]` of the string such that everything before `i` and
/// from `j` on is white space, and the stretch itself, when not empty,
/// neither starts nor ends with white space. Trimming twice changes nothing
/// more.
pub proof fn law_trimmed_has_no_outer_white_space(s: Seq<char>)
    ensures
        trimmed(s).len() > 0 ==> !is_white_space(trimmed(s)[0]),
        trimmed(s).len() > 0 ==> !is_white_space(trimmed(s).last()),
        exists|i: int, j: int|
            0 <= i <= j <= s.len() && trimmed(s) == s.subrange(i, j) && (forall|k: int|
                0 <= k < i ==> is_white_space(#[trigger] s[k])) && (forall|k: int|
                j <= k < s.len() ==> is_white_space(#[trigger] s[k])),
        trimmed(trimmed(s)) == trimmed(s),
{
    lemma_trim_start_suffix(s);
    let t = trim_start(s);
    lemma_trim_end_prefix(t);
    let u = trimmed(s);
    let i = choose|i: int|
        0 <= i <= s.len() && t == s.subrange(i, s.len() as int) && (forall|k: int|
            0 <= k < i ==> is_white_space(#[trigger] s[k]));
    let j = choose|j: int|
        0 <= j <= t.len() && u == t.subrange(0, j) && (forall|k: int|
            j <= k < t.len() ==> is_white_space(#[trigger] t[k]));
    assert(u =~= s.subrange(i, i + j));
    assert forall|k: int| i + j <= k < s.len() implies is_white_space(#[trigger] s[k]) by {
        assert(s[k] == t[k - i]);
    }
    if u.len() > 0 {
        assert(u[0] == t[0]);
    }
}

/// A string without a comma splits into itself alone.
proof fn lemma_split_without_comma(s: Seq<char>)
    requires
        forall|k: int| 0 <= k < s.len() ==> #[trigger] s[k] != ',',
    ensures
        split_commas(s) == seq![s],
    decreases s.len(),
{
    if s.len() > 0 {
        let t = s.drop_last();
        assert forall|k: int| 0 <= k < t.len() implies #[trigger] t[k] != ',' by {
            assert(t[k] == s[k]);
        }
        lemma_split_without_comma(t);
        assert(s.last() == s[s.len() - 1]);
        assert(t.push(s.last()) =~= s);
        assert(seq![t].update(0, t.push(s.last())) =~= seq![s]);
    } else {
        assert(s =~= Seq::<char>::empty());
    }
}

/// Appending comma-free text only lengthens the last piece.
proof fn lemma_split_extend(a: Seq<char>, b: Seq<char>)
    requires
        forall|k: int| 0 <= k < b.len() ==> #[trigger] b[k] != ',',
    ensures
        split_commas(a + b) == split_commas(a).update(
            split_commas(a).len() - 1,
            split_commas(a).last() + b,
        ),
    decreases b.len(),
{
    lemma_split_nonempty(a);
    let r = split_commas(a);
    if b.len() == 0 {
        assert(a + b =~= a);
        assert(r.last() + b =~= r.last());
        assert(r.update(r.len() - 1, r.last() + b) =~= r);
    } else {
        let c = b.drop_last();
        assert forall|k: int| 0 <= k < c.len() implies #[trigger] c[k] != ',' by {
            assert(c[k] == b[k]);
        }
        lemma_split_extend(a, c);
        assert((a + b).drop_last() =~= a + c);
        assert((a + b).last() == b[b.len() - 1]);
        let q = r.update(r.len() - 1, r.last() + c);
        assert(q.last() == r.last() + c);
        assert((r.last() + c).push(b.last()) =~= r.last() + b);
        assert(q.update(q.len() - 1, q.last().push((a + b).last())) =~= r.update(
            r.len() - 1,
            r.last() + b,
        ));
    }
}

/// Splitting at the commas is the only way to cut a string into comma-free
/// pieces that rejoin to it.
pub proof fn law_split_commas_is_unique(p: Seq<Seq<char>>, s: Seq<char>)
    requires
        p.len() >= 1,
        join_commas(p) == s,
        forall|i: int, k: int| 0 <= i < p.len() && 0 <= k < p[i].len() ==> #[trigger] p[i][k] != ',',
    ensures
        split_commas(s) == p,
    decreases p.len(),
{
    if p.len() == 1 {
        assert forall|k: int| 0 <= k < s.len() implies #[trigger] s[k] != ',' by {
            assert(s[k] == p[0][k]);
        }
        lemma_split_without_comma(s);
        assert(seq![s] =~= p);
    } else {
        let q = p.drop_last();
        let a = join_commas(q);
        assert forall|i: int, k: int| 0 <= i < q.len() && 0 <= k < q[i].len() implies #[trigger] q[i][k]
            != ',' by {
            assert(q[i] == p[i]);
        }
        law_split_commas_is_unique(q, a);
        let b = p.last();
        assert forall|k: int| 0 <= k < b.len() implies #[trigger] b[k] != ',' by {
            assert(b[k] == p[p.len() - 1][k]);
        }
        let ac = a.push(',');
        assert(ac.drop_last() =~= a);
        assert(ac.last() == ',');
        assert(split_commas(ac) == q.push(Seq::<char>::empty()));
        lemma_split_extend(ac, b);
        assert(s == ac + b);
        let r = q.push(Seq::<char>::empty());
        assert(r.last() + b =~= b);
        assert(r.update(r.len() - 1, b) =~= p);
    }
}

/// The artist names of a field are its comma-separated pieces, each
/// trimmed: for any cut of the field into comma-free pieces that rejoin to
/// it, the names are those pieces trimmed; in particular a field without a
/// comma names one artist, the whole field trimmed.
pub proof fn law_artist_names_are_the_comma_pieces(s: Seq<char>, p: Seq<Seq<char>>)
    ensures
        (p.len() >= 1 && join_commas(p) == s && (forall|i: int, k: int|
            0 <= i < p.len() && 0 <= k < p[i].len() ==> #[trigger] p[i][k] != ','))
            ==> artist_names_of(s) == p.map_values(|x: Seq<char>| trimmed(x)),
        (forall|k: int| 0 <= k < s.len() ==> #[trigger] s[k] != ',') ==> artist_names_of(s)
            == seq![trimmed(s)],
{
    if p.len() >= 1 && join_commas(p) == s && (forall|i: int, k: int|
        0 <= i < p.len() && 0 <= k < p[i].len() ==> #[trigger] p[i][k] != ',') {
        law_split_commas_is_unique(p, s);
    }
    if forall|k: int| 0 <= k < s.len() ==> #[trigger] s[k] != ',' {
        lemma_split_without_comma(s);
        assert(seq![s].map_values(|x: Seq<char>| trimmed(x)) =~= seq![trimmed(s)]);
    }
}

} // verus!
