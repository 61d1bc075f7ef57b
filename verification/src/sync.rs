use vstd::prelude::*;

use crate::sql::{statement, statement0, stmt, values_view, SqlStatement, SqlValue, SqlValueView, StatementView};

verus! {

/// What `str::to_lowercase` makes of a string: its Unicode lowercase
/// mapping, a function of the string alone.
pub uninterp spec fn lowercase(s: Seq<char>) -> Seq<char>;

/// Calls `str::to_lowercase`; the contract claims only that the result is
/// `lowercase` of the argument.
#[verifier::external_body]
fn to_lowercase(s: &str) -> (res: String)
    ensures
        res@ == lowercase(s@),
{
    s.to_lowercase()
}

/// The file extensions of the audio formats the library reads.
pub open spec fn valid_extensions() -> Seq<Seq<char>> {
    seq!["mp3"@, "flac"@, "m4a"@, "ogg"@, "wav"@, "opus"@]
}

/// The audio formats the library reads are exactly mp3, flac, m4a, ogg,
/// wav and opus: six extensions, and nothing else counts as one.
pub proof fn law_audio_extensions_are_the_six(e: Seq<char>)
    ensures
        valid_extensions().len() == 6,
        valid_extensions().contains(e) <==> {
            ||| e == seq!['m', 'p', '3']
            ||| e == seq!['f', 'l', 'a', 'c']
            ||| e == seq!['m', '4', 'a']
            ||| e == seq!['o', 'g', 'g']
            ||| e == seq!['w', 'a', 'v']
            ||| e == seq!['o', 'p', 'u', 's']
        },
{
    reveal_strlit("mp3");
    reveal_strlit("flac");
    reveal_strlit("m4a");
    reveal_strlit("ogg");
    reveal_strlit("wav");
    reveal_strlit("opus");
    let v = valid_extensions();
    assert(v[0] =~= seq!['m', 'p', '3']);
    assert(v[1] =~= seq!['f', 'l', 'a', 'c']);
    assert(v[2] =~= seq!['m', '4', 'a']);
    assert(v[3] =~= seq!['o', 'g', 'g']);
    assert(v[4] =~= seq!['w', 'a', 'v']);
    assert(v[5] =~= seq!['o', 'p', 'u', 's']);
    if v.contains(e) {
        let k = choose|k: int| 0 <= k < v.len() && v[k] == e;
        assert(0 <= k < 6);
    }
    if e == seq!['m', 'p', '3'] { assert(v[0] == e); }
    if e == seq!['f', 'l', 'a', 'c'] { assert(v[1] == e); }
    if e == seq!['m', '4', 'a'] { assert(v[2] == e); }
    if e == seq!['o', 'g', 'g'] { assert(v[3] == e); }
    if e == seq!['w', 'a', 'v'] { assert(v[4] == e); }
    if e == seq!['o', 'p', 'u', 's'] { assert(v[5] == e); }
}

/// Whether a file extension names an audio format the library reads,
/// whatever its case.
pub fn is_valid_extension(ext: &str) -> (res: bool)
    ensures
        res == valid_extensions().contains(lowercase(ext@)),
        res <==> {
            let l = lowercase(ext@);
            ||| l == seq!['m', 'p', '3']
            ||| l == seq!['f', 'l', 'a', 'c']
            ||| l == seq!['m', '4', 'a']
            ||| l == seq!['o', 'g', 'g']
            ||| l == seq!['w', 'a', 'v']
            ||| l == seq!['o', 'p', 'u', 's']
        },
{
    let lower = to_lowercase(ext);
    let known = ["mp3", "flac", "m4a", "ogg", "wav", "opus"];
    let mut i: usize = 0;
    while i < 6
        invariant
            i <= 6,
            lower@ == lowercase(ext@),
            known@.map_values(|k: &str| k@) == valid_extensions(),
            forall|k: int| 0 <= k < i ==> valid_extensions()[k] != lower@,
        decreases 6 - i,
    {
        let candidate = known[i].to_owned();
        assert(candidate@ == valid_extensions()[i as int]);
        if candidate.eq(&lower) {
            assert(valid_extensions()[i as int] == lowercase(ext@));
            proof {
                law_audio_extensions_are_the_six(lowercase(ext@));
            }
            return true;
        }
        i = i + 1;
    }
    proof {
        if valid_extensions().contains(lowercase(ext@)) {
            let k = choose|k: int| 0 <= k < 6 && valid_extensions()[k] == lowercase(ext@);
            assert(valid_extensions()[k] != lower@);
        }
        law_audio_extensions_are_the_six(lowercase(ext@));
    }
    false
}

/// What the library needs to know of one path found under the music folder.
pub struct ScannedPath {
    /// Whether the path names a regular file.
    pub is_file: bool,
    /// The path's extension, when it has one that is valid UTF-8.
    pub extension: Option<String>,
    /// The path as text, with invalid UTF-8 replaced (the form stored as a
    /// track source).
    pub text: String,
    /// The path as text, when the whole path is valid UTF-8.
    pub utf8: Option<String>,
}

/// What a `ScannedPath` stands for.
pub struct ScannedPathView {
    pub is_file: bool,
    pub extension: Option<Seq<char>>,
    pub text: Seq<char>,
    pub utf8: Option<Seq<char>>,
}

impl View for ScannedPath {
    type V = ScannedPathView;

    open spec fn view(&self) -> ScannedPathView {
        ScannedPathView {
            is_file: self.is_file,
            extension: self.extension.deep_view(),
            text: self.text@,
            utf8: self.utf8.deep_view(),
        }
    }
}

/// Whether a scanned path is an audio file to register: a regular file
/// whose extension, lowercased, is one of the valid extensions.
pub open spec fn is_track_path(p: ScannedPathView) -> bool {
    &&& p.is_file
    &&& p.extension matches Some(ext) && valid_extensions().contains(lowercase(ext))
}

/// A scanned path is registered exactly when it is a regular file whose
/// extension, lowercased, is mp3, flac, m4a, ogg, wav or opus.
pub proof fn law_track_paths_are_audio_files(p: ScannedPathView)
    ensures
        is_track_path(p) <==> (p.is_file && p.extension is Some && {
            let e = lowercase(p.extension->0);
            {
                ||| e == seq!['m', 'p', '3']
                ||| e == seq!['f', 'l', 'a', 'c']
                ||| e == seq!['m', '4', 'a']
                ||| e == seq!['o', 'g', 'g']
                ||| e == seq!['w', 'a', 'v']
                ||| e == seq!['o', 'p', 'u', 's']
            }
        }),
{
    if p.extension is Some {
        law_audio_extensions_are_the_six(lowercase(p.extension->0));
    }
}

/// Whether the scanned path is an audio file to register.
pub fn is_track_file(p: &ScannedPath) -> (res: bool)
    ensures
        res == is_track_path(p@),
        res <==> (p.is_file && p@.extension is Some && {
            let e = lowercase(p@.extension->0);
            {
                ||| e == seq!['m', 'p', '3']
                ||| e == seq!['f', 'l', 'a', 'c']
                ||| e == seq!['m', '4', 'a']
                ||| e == seq!['o', 'g', 'g']
                ||| e == seq!['w', 'a', 'v']
                ||| e == seq!['o', 'p', 'u', 's']
            }
        }),
{
    proof {
        law_track_paths_are_audio_files(p@);
    }
    if !p.is_file {
        return false;
    }
    match &p.extension {
        Some(ext) => is_valid_extension(ext.as_str()),
        None => false,
    }
}

/// The positions, in order, of the scanned paths that are audio files to
/// register.
pub fn select_track_files(paths: &Vec<ScannedPath>) -> (res: Vec<usize>)
    ensures
        forall|k: int| 0 <= k < res@.len() ==> #[trigger] res@[k] < paths@.len() && is_track_path(
            paths@[res@[k] as int]@,
        ),
        forall|k: int, l: int| 0 <= k < l < res@.len() ==> res@[k] < res@[l],
        forall|i: int|
            0 <= i < paths@.len() && is_track_path(#[trigger] paths@[i]@) ==> res@.contains(
                i as usize,
            ),
{
    let mut res: Vec<usize> = Vec::new();
    let mut i: usize = 0;
    while i < paths.len()
        invariant
            i <= paths@.len(),
            forall|k: int| 0 <= k < res@.len() ==> #[trigger] res@[k] < i && is_track_path(
                paths@[res@[k] as int]@,
            ),
            forall|k: int, l: int| 0 <= k < l < res@.len() ==> res@[k] < res@[l],
            forall|j: int| 0 <= j < i && is_track_path(#[trigger] paths@[j]@) ==> res@.contains(
                j as usize,
            ),
        decreases paths@.len() - i,
    {
        if is_track_file(&paths[i]) {
            let ghost before = res@;
            res.push(i);
            proof {
                assert forall|j: int| 0 <= j < i + 1 && is_track_path(#[trigger] paths@[j]@) implies res@.contains(j as usize) by {
                    if j < i {
                        let k = choose|k: int| 0 <= k < before.len() && before[k] == j as usize;
                        assert(res@[k] == j as usize);
                    } else {
                        assert(res@[before.len() as int] == i);
                    }
                }
            }
        }
        i = i + 1;
    }
    res
}

/// `n` question marks separated by commas: the parameter list of an SQL
/// `IN (...)` over `n` values.
pub open spec fn placeholders(n: nat) -> Seq<char>
    decreases n,
{
    if n == 0 {
        Seq::<char>::empty()
    } else if n == 1 {
        seq!['?']
    } else {
        placeholders((n - 1) as nat) + seq![',', '?']
    }
}

/// The parameter list of an SQL `IN (...)` over `n` values.
pub fn placeholder_list(n: usize) -> (res: String)
    ensures
        res@ == placeholders(n as nat),
{
    let mut res = String::new();
    if n == 0 {
        return res;
    }
    proof {
        reveal_strlit("?");
        reveal_strlit(",?");
    }
    res.append("?");
    let mut k: usize = 1;
    while k < n
        invariant
            1 <= k <= n,
            res@ == placeholders(k as nat),
        decreases n - k,
    {
        res.append(",?");
        proof {
            reveal_strlit(",?");
            assert(",?"@ =~= seq![',', '?']);
        }
        k = k + 1;
    }
    res
}

pub const DELETE_SOURCES_PREFIX: &'static str = "DELETE FROM track_sources WHERE Path NOT IN (";

pub const DELETE_ORPHAN_TRACKS_SQL: &'static str =
    "DELETE FROM tracks\n         WHERE TrackId NOT IN (SELECT DISTINCT TrackId FROM track_sources)";

pub const DELETE_EMPTY_ALBUMS_SQL: &'static str =
    "DELETE FROM collections\n         WHERE CollectionType = 'album'\n         AND CollectionId NOT IN (SELECT DISTINCT CollectionId FROM collection_tracks)";

/// The UTF-8 forms of the scanned paths, as text parameters, in order; a
/// path that is not valid UTF-8 contributes none.
pub open spec fn utf8_params(paths: Seq<ScannedPathView>) -> Seq<SqlValueView>
    decreases paths.len(),
{
    if paths.len() == 0 {
        Seq::<SqlValueView>::empty()
    } else {
        let rest = utf8_params(paths.drop_last());
        match paths.last().utf8 {
            Some(t) => rest.push(SqlValueView::Text(t)),
            None => rest,
        }
    }
}

/// The statement that forgets every track source whose path is not among
/// the scanned ones: one placeholder per scanned path, bound to the UTF-8
/// forms of the paths.
pub open spec fn delete_sources_stmt(paths: Seq<ScannedPathView>) -> StatementView {
    stmt(DELETE_SOURCES_PREFIX@ + placeholders(paths.len()) + ")"@, utf8_params(paths))
}

/// The statements that bring the catalogue in line with the scanned
/// paths, in the order they run: forget sources whose file is gone, then
/// tracks without a source, then albums without a track.
pub fn validate_statements(paths: &Vec<ScannedPath>) -> (res: Vec<SqlStatement>)
    ensures
        res@.len() == 3,
        res@[0]@ == delete_sources_stmt(paths@.map_values(|p: ScannedPath| p@)),
        res@[1]@ == stmt(DELETE_ORPHAN_TRACKS_SQL@, seq![]),
        res@[2]@ == stmt(DELETE_EMPTY_ALBUMS_SQL@, seq![]),
        res@[0]@.sql == "DELETE FROM track_sources WHERE Path NOT IN ("@ + placeholders(paths@.len())
            + ")"@,
        res@[1]@.sql
            == "DELETE FROM tracks\n         WHERE TrackId NOT IN (SELECT DISTINCT TrackId FROM track_sources)"@,
        res@[2]@.sql
            == "DELETE FROM collections\n         WHERE CollectionType = 'album'\n         AND CollectionId NOT IN (SELECT DISTINCT CollectionId FROM collection_tracks)"@,
        (forall|i: int| 0 <= i < paths@.len() ==> (#[trigger] paths@[i]).utf8 is Some) ==> {
            &&& res@[0]@.params.len() == paths@.len()
            &&& forall|i: int|
                0 <= i < paths@.len() ==> #[trigger] res@[0]@.params[i] == SqlValueView::Text(
                    paths@[i].utf8->0@,
                )
        },
{
    let ghost views = paths@.map_values(|p: ScannedPath| p@);
    let mut sql = DELETE_SOURCES_PREFIX.to_owned();
    let marks = placeholder_list(paths.len());
    sql.append(marks.as_str());
    sql.append(")");
    let mut params: Vec<SqlValue> = Vec::new();
    let mut i: usize = 0;
    assert(views.take(0) =~= Seq::<ScannedPathView>::empty());
    while i < paths.len()
        invariant
            i <= paths@.len(),
            views == paths@.map_values(|p: ScannedPath| p@),
            values_view(params@) =~= utf8_params(views.take(i as int)),
        decreases paths@.len() - i,
    {
        let ghost before = params@;
        assert(views.take(i + 1).drop_last() =~= views.take(i as int));
        assert(views.take(i + 1).last() == paths@[i as int]@);
        match &paths[i].utf8 {
            Some(t) => {
                params.push(SqlValue::Text(t.clone()));
                assert(values_view(params@) =~= values_view(before).push(SqlValueView::Text(t@)));
            },
            None => {},
        }
        i = i + 1;
    }
    assert(views.take(paths@.len() as int) =~= views);
    let mut res: Vec<SqlStatement> = Vec::new();
    res.push(statement(sql.as_str(), params));
    res.push(statement0(DELETE_ORPHAN_TRACKS_SQL));
    res.push(statement0(DELETE_EMPTY_ALBUMS_SQL));
    proof {
        if forall|i: int| 0 <= i < paths@.len() ==> (#[trigger] paths@[i]).utf8 is Some {
            assert forall|i: int| 0 <= i < views.len() implies (#[trigger] views[i]).utf8 is Some by {
                assert(views[i] == paths@[i]@);
                assert(paths@[i].utf8 is Some);
            }
            lemma_utf8_params_all(views);
            assert forall|i: int| 0 <= i < paths@.len() implies #[trigger] res@[0]@.params[i]
                == SqlValueView::Text(paths@[i].utf8->0@) by {
                assert(views[i] == paths@[i]@);
            }
        }
    }
    res
}

/// How many question marks `s` holds.
pub open spec fn question_marks(s: Seq<char>) -> nat
    decreases s.len(),
{
    if s.len() == 0 {
        0
    } else {
        question_marks(s.drop_last()) + if s.last() == '?' { 1nat } else { 0nat }
    }
}

proof fn lemma_question_marks_concat(a: Seq<char>, b: Seq<char>)
    ensures
        question_marks(a + b) == question_marks(a) + question_marks(b),
    decreases b.len(),
{
    if b.len() == 0 {
        assert(a + b =~= a);
    } else {
        lemma_question_marks_concat(a, b.drop_last());
        assert((a + b).drop_last() =~= a + b.drop_last());
    }
}

/// The placeholder list for `n` values holds exactly `n` placeholders, and
/// the sources statement binds one value per scanned path exactly when
/// every scanned path is valid UTF-8.
pub proof fn law_sources_statement_binds_every_path(paths: Seq<ScannedPathView>)
    ensures
        question_marks(placeholders(paths.len())) == paths.len(),
        utf8_params(paths).len() <= paths.len(),
        utf8_params(paths).len() == paths.len() <==> forall|i: int|
            0 <= i < paths.len() ==> (#[trigger] paths[i]).utf8 is Some,
        (forall|i: int| 0 <= i < paths.len() ==> (#[trigger] paths[i]).utf8 is Some) ==> forall|i: int|
            0 <= i < paths.len() ==> #[trigger] utf8_params(paths)[i] == SqlValueView::Text(
                paths[i].utf8->0,
            ),
    decreases paths.len(),
{
    lemma_placeholder_marks(paths.len());
    if forall|i: int| 0 <= i < paths.len() ==> (#[trigger] paths[i]).utf8 is Some {
        lemma_utf8_params_all(paths);
    }
    if paths.len() > 0 {
        let rest = paths.drop_last();
        law_sources_statement_binds_every_path(rest);
        if utf8_params(paths).len() == paths.len() {
            assert forall|i: int| 0 <= i < paths.len() implies (#[trigger] paths[i]).utf8 is Some by {
                if i < rest.len() {
                    assert(rest[i] == paths[i]);
                }
            }
        }
        if forall|i: int| 0 <= i < paths.len() ==> (#[trigger] paths[i]).utf8 is Some {
            assert forall|i: int| 0 <= i < rest.len() implies (#[trigger] rest[i]).utf8 is Some by {
                assert(rest[i] == paths[i]);
            }
            assert(paths[paths.len() - 1].utf8 is Some);
        }
    }
}

proof fn lemma_utf8_params_all(paths: Seq<ScannedPathView>)
    requires
        forall|i: int| 0 <= i < paths.len() ==> (#[trigger] paths[i]).utf8 is Some,
    ensures
        utf8_params(paths).len() == paths.len(),
        forall|i: int|
            0 <= i < paths.len() ==> #[trigger] utf8_params(paths)[i] == SqlValueView::Text(
                paths[i].utf8->0,
            ),
    decreases paths.len(),
{
    if paths.len() > 0 {
        let rest = paths.drop_last();
        assert forall|i: int| 0 <= i < rest.len() implies (#[trigger] rest[i]).utf8 is Some by {
            assert(rest[i] == paths[i]);
        }
        lemma_utf8_params_all(rest);
        assert(paths[paths.len() - 1].utf8 is Some);
        assert forall|i: int| 0 <= i < paths.len() implies #[trigger] utf8_params(paths)[i]
            == SqlValueView::Text(paths[i].utf8->0) by {
            if i < rest.len() {
                assert(rest[i] == paths[i]);
            }
        }
    }
}

proof fn lemma_placeholder_marks(n: nat)
    ensures
        question_marks(placeholders(n)) == n,
    decreases n,
{
    if n == 1 {
        assert(seq!['?'].drop_last() =~= Seq::<char>::empty());
        assert(question_marks(Seq::<char>::empty()) == 0);
        assert(question_marks(seq!['?']) == 1);
    } else if n > 1 {
        lemma_placeholder_marks((n - 1) as nat);
        lemma_question_marks_concat(placeholders((n - 1) as nat), seq![',', '?']);
        assert(seq![',', '?'].drop_last() =~= seq![',']);
        assert(seq![','].drop_last() =~= Seq::<char>::empty());
        assert(question_marks(Seq::<char>::empty()) == 0);
        assert(question_marks(seq![',']) == 0);
        assert(question_marks(seq![',', '?']) == 1);
    }
}

/// The parameter list for `n > 0` values is `?,?,...,?`: `2n - 1`
/// characters, a question mark at each even position and a comma at each
/// odd one; for no value it is empty.
pub proof fn law_placeholder_shape(n: nat)
    ensures
        n == 0 ==> placeholders(n).len() == 0,
        n > 0 ==> placeholders(n).len() == 2 * n - 1,
        forall|k: int|
            0 <= k < placeholders(n).len() ==> #[trigger] placeholders(n)[k] == if k % 2 == 0 {
                '?'
            } else {
                ','
            },
    decreases n,
{
    if n > 1 {
        law_placeholder_shape((n - 1) as nat);
        let p = placeholders((n - 1) as nat);
        assert forall|k: int| 0 <= k < placeholders(n).len() implies #[trigger] placeholders(n)[k]
            == if k % 2 == 0 {
            '?'
        } else {
            ','
        } by {
            if k < p.len() {
                assert(placeholders(n)[k] == p[k]);
            }
        }
    }
}

} // verus!
