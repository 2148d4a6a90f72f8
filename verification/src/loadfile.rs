//! Rules of the library loader: which files count as music, in which order
//! they enter the playlist, and how a track descriptor is built from the
//! raw tag pairs read out of a file.
//!
//! Directory walking and tag extraction are I/O and stay with the caller;
//! it hands the raw listings and tag pairs to the functions here.

use vstd::prelude::*;

use crate::track::{Song, SongModel};
use vstd::string::StrSliceExecFns;

verus! {

/// Does `s` end with `suffix`?
pub open spec fn has_suffix(s: Seq<char>, suffix: Seq<char>) -> bool {
    suffix.len() <= s.len() && s.subrange(s.len() - suffix.len(), s.len() as int)
        == suffix
}

/// Character-by-character suffix test.
fn str_has_suffix(s: &str, suffix: &str) -> (r: bool)
    ensures
        r == has_suffix(s@, suffix@),
{
    let n = s.unicode_len();
    let m = suffix.unicode_len();
    if m > n {
        return false;
    }
    let mut i: usize = 0;
    while i < m
        invariant
            m <= n,
            n == s@.len(),
            m == suffix@.len(),
            0 <= i <= m,
            forall|j: int| 0 <= j < i ==> s@[n - m + j] == suffix@[j],
        decreases m - i,
    {
        if s.get_char(n - m + i) != suffix.get_char(i) {
            assert(!has_suffix(s@, suffix@)) by {
                if has_suffix(s@, suffix@) {
                    assert(s@.subrange(n - m, n as int)[i as int] == suffix@[i as int]);
                }
            };
            return false;
        }
        i = i + 1;
    }
    proof {
        assert(s@.subrange(n - m, n as int) =~= suffix@);
    }
    true
}

/// The fixed set of recognized audio extensions, as a suffix predicate.
pub open spec fn is_music(s: Seq<char>) -> bool {
    ||| has_suffix(s, ".flac"@)
    ||| has_suffix(s, ".mp3"@)
    ||| has_suffix(s, ".wav"@)
    ||| has_suffix(s, ".m4a"@)
    ||| has_suffix(s, ".ogg"@)
}

/// Does this path name an audio file the player recognizes?  The match is
/// a case-sensitive suffix test against a fixed set of extensions.
pub fn is_music_file(f: &str) -> (r: bool)
    ensures
        r == is_music(f@),
{
    str_has_suffix(f, ".flac") || str_has_suffix(f, ".mp3") || str_has_suffix(f, ".wav")
        || str_has_suffix(f, ".m4a") || str_has_suffix(f, ".ogg")
}

/// Lexicographic order on paths, by Unicode code point.
pub open spec fn lex_leq(a: Seq<char>, b: Seq<char>) -> bool
    decreases a.len(),
{
    if a.len() == 0 {
        true
    } else if b.len() == 0 {
        false
    } else if (a[0] as u32) < (b[0] as u32) {
        true
    } else if (b[0] as u32) < (a[0] as u32) {
        false
    } else {
        lex_leq(a.drop_first(), b.drop_first())
    }
}

/// The order relates every two paths, one way or the other.
pub proof fn lemma_lex_total(a: Seq<char>, b: Seq<char>)
    ensures
        lex_leq(a, b) || lex_leq(b, a),
    decreases a.len(),
{
    if a.len() == 0 || b.len() == 0 {
    } else if (a[0] as u32) == (b[0] as u32) {
        lemma_lex_total(a.drop_first(), b.drop_first());
    }
}

/// The order is transitive.
pub proof fn lemma_lex_trans(a: Seq<char>, b: Seq<char>, c: Seq<char>)
    requires
        lex_leq(a, b),
        lex_leq(b, c),
    ensures
        lex_leq(a, c),
    decreases a.len(),
{
    if a.len() == 0 || b.len() == 0 || c.len() == 0 {
    } else if (a[0] as u32) == (b[0] as u32) && (b[0] as u32) == (c[0] as u32) {
        lemma_lex_trans(a.drop_first(), b.drop_first(), c.drop_first());
    }
}

/// Character-by-character comparison, deciding [`lex_leq`].
fn str_lex_leq(a: &str, b: &str) -> (r: bool)
    ensures
        r == lex_leq(a@, b@),
{
    let na = a.unicode_len();
    let nb = b.unicode_len();
    let mut i: usize = 0;
    proof {
        assert(a@.skip(0) =~= a@);
        assert(b@.skip(0) =~= b@);
    }
    loop
        invariant
            na == a@.len(),
            nb == b@.len(),
            0 <= i <= na,
            i <= nb,
            lex_leq(a@, b@) == lex_leq(a@.skip(i as int), b@.skip(i as int)),
        decreases na - i,
    {
        if i == na {
            return true;
        }
        if i == nb {
            return false;
        }
        let ca = a.get_char(i) as u32;
        let cb = b.get_char(i) as u32;
        if ca < cb {
            return true;
        }
        if ca > cb {
            return false;
        }
        proof {
            assert(a@.skip(i as int).drop_first() =~= a@.skip(i + 1));
            assert(b@.skip(i as int).drop_first() =~= b@.skip(i + 1));
        }
        i = i + 1;
    }
}

/// The views of a sequence of path strings.
pub open spec fn path_views(v: Seq<String>) -> Seq<Seq<char>> {
    v.map_values(|s: String| s@)
}

/// Every earlier path is ordered at or before every later one.
pub open spec fn paths_sorted(s: Seq<Seq<char>>) -> bool {
    forall|i: int, j: int| 0 <= i < j < s.len() ==> lex_leq(s[i], s[j])
}

proof fn lemma_path_views_insert(s: Seq<String>, i: int, x: String)
    requires
        0 <= i <= s.len(),
    ensures
        path_views(s.insert(i, x)) =~= path_views(s).insert(i, x@),
{
    s.insert_ensures(i, x);
    path_views(s).insert_ensures(i, x@);
}

/// Where `item` belongs in an already sorted list: after everything it
/// does not precede, and no later.
fn insertion_point(out: &Vec<String>, item: &String) -> (p: usize)
    requires
        paths_sorted(path_views(out@)),
    ensures
        0 <= p <= out@.len(),
        forall|j: int| 0 <= j < p ==> !lex_leq(item@, path_views(out@)[j]),
        p < out@.len() ==> lex_leq(item@, path_views(out@)[p as int]),
{
    let mut p: usize = 0;
    while p < out.len()
        invariant
            0 <= p <= out@.len(),
            forall|j: int| 0 <= j < p ==> !lex_leq(item@, path_views(out@)[j]),
        decreases out@.len() - p,
    {
        if str_lex_leq(item.as_str(), out[p].as_str()) {
            return p;
        }
        p = p + 1;
    }
    p
}

/// Sort the paths by code-point order.  The result is ordered and holds
/// exactly the same paths, repetitions included.
pub fn sort_paths(v: &Vec<String>) -> (r: Vec<String>)
    ensures
        paths_sorted(path_views(r@)),
        path_views(r@).to_multiset() == path_views(v@).to_multiset(),
{
    let mut out: Vec<String> = Vec::new();
    let mut k: usize = 0;
    proof {
        assert(path_views(v@.subrange(0, 0)) =~= Seq::<Seq<char>>::empty());
        assert(path_views(out@) =~= Seq::<Seq<char>>::empty());
    }
    while k < v.len()
        invariant
            0 <= k <= v@.len(),
            paths_sorted(path_views(out@)),
            path_views(out@).to_multiset() == path_views(v@.subrange(0, k as int)).to_multiset(),
        decreases v@.len() - k,
    {
        let item = v[k].clone();
        let p = insertion_point(&out, &item);
        let ghost oldv = out@;
        let ghost itemg = item;
        let ghost oldm = path_views(out@);
        let ghost im = item@;
        out.insert(p, item);
        proof {
            broadcast use vstd::seq_lib::group_to_multiset_ensures;
            broadcast use vstd::seq_lib::to_multiset_insert;

            lemma_path_views_insert(oldv, p as int, itemg);
            let newm = path_views(out@);
            assert(newm == oldm.insert(p as int, im));
            oldm.insert_ensures(p as int, im);
            assert forall|x: int, y: int| 0 <= x < y < newm.len() implies lex_leq(
                newm[x],
                newm[y],
            ) by {
                if y < p {
                    assert(lex_leq(oldm[x], oldm[y]));
                } else if y == p {
                    lemma_lex_total(im, oldm[x]);
                } else if x == p {
                    assert(lex_leq(im, oldm[p as int]));
                    if y - 1 == p {
                    } else {
                        assert(lex_leq(oldm[p as int], oldm[y - 1]));
                        lemma_lex_trans(im, oldm[p as int], oldm[y - 1]);
                    }
                } else if x < p {
                    assert(lex_leq(oldm[x], oldm[y - 1]));
                } else {
                    assert(lex_leq(oldm[x - 1], oldm[y - 1]));
                }
            }
            assert(path_views(v@.subrange(0, k + 1)) =~= path_views(
                v@.subrange(0, k as int),
            ).push(im));
        }
        k = k + 1;
    }
    proof {
        assert(v@.subrange(0, v@.len() as int) =~= v@);
    }
    out
}

/// The music files of `l`, kept in their given order.
pub open spec fn music_only(l: Seq<Seq<char>>) -> Seq<Seq<char>>
    decreases l.len(),
{
    if l.len() == 0 {
        Seq::empty()
    } else {
        music_only(l.drop_last()) + (if is_music(l.last()) {
            seq![l.last()]
        } else {
            Seq::empty()
        })
    }
}

/// Keep only the recognized audio files, in order.
fn filter_music(files: &Vec<String>) -> (r: Vec<String>)
    ensures
        path_views(r@) == music_only(path_views(files@)),
{
    let mut out: Vec<String> = Vec::new();
    let mut k: usize = 0;
    proof {
        assert(path_views(files@).take(0) =~= Seq::<Seq<char>>::empty());
        assert(path_views(out@) =~= Seq::<Seq<char>>::empty());
    }
    while k < files.len()
        invariant
            0 <= k <= files@.len(),
            path_views(out@) == music_only(path_views(files@).take(k as int)),
        decreases files@.len() - k,
    {
        let f = files[k].clone();
        let ghost pre = path_views(out@);
        let is_m = is_music_file(f.as_str());
        if is_m {
            out.push(f);
        }
        proof {
            let fv = path_views(files@);
            assert(fv.take(k + 1).drop_last() =~= fv.take(k as int));
            assert(fv.take(k + 1).last() == fv[k as int]);
            if is_m {
                assert(path_views(out@) =~= pre.push(fv[k as int]));
                assert(pre + seq![fv[k as int]] =~= pre.push(fv[k as int]));
            } else {
                assert(pre + Seq::<Seq<char>>::empty() =~= pre);
            }
        }
        k = k + 1;
    }
    proof {
        assert(path_views(files@).take(files@.len() as int) =~= path_views(files@));
    }
    out
}

/// The playlist order of one directory scan: every matching file from the
/// immediate subdirectories first, in the order the walk reported them,
/// then every matching file of the directory itself, sorted by full path.
pub open spec fn library_order_ok(
    sub: Seq<Seq<char>>,
    top: Seq<Seq<char>>,
    r: Seq<Seq<char>>,
) -> bool {
    let subm = music_only(sub);
    let topm = music_only(top);
    &&& r.len() == subm.len() + topm.len()
    &&& r.subrange(0, subm.len() as int) == subm
    &&& paths_sorted(r.skip(subm.len() as int))
    &&& r.skip(subm.len() as int).to_multiset() == topm.to_multiset()
}

/// Order one directory scan into a playlist.  `subdir_files` are the
/// entries found one level down, in the order the directory walk reported
/// them; `dir_files` are the entries of the directory itself.  Anything
/// that is not a recognized audio file is left out.
pub fn order_library(subdir_files: &Vec<String>, dir_files: &Vec<String>) -> (r: Vec<String>)
    ensures
        library_order_ok(path_views(subdir_files@), path_views(dir_files@), path_views(r@)),
{
    let mut r = filter_music(subdir_files);
    let top = filter_music(dir_files);
    let mut sorted_top = sort_paths(&top);
    let ghost subm = path_views(r@);
    let ghost sortedm = path_views(sorted_top@);
    r.append(&mut sorted_top);
    proof {
        broadcast use vstd::seq_lib::group_to_multiset_ensures;

        assert(path_views(r@) =~= subm + sortedm);
        let rv = path_views(r@);
        assert(rv.subrange(0, subm.len() as int) =~= subm);
        assert(rv.skip(subm.len() as int) =~= sortedm);
        let topm = music_only(path_views(dir_files@));
        assert(sortedm.to_multiset().len() == sortedm.len());
        assert(topm.to_multiset().len() == topm.len());
    }
    r
}

/// A tag value the metadata reader garbled: it begins with a question
/// mark.
pub open spec fn garbled(v: Seq<char>) -> bool {
    v.len() > 0 && v[0] == '?'
}

/// The views of the raw key/value tag pairs.
pub open spec fn pair_views(tags: Seq<(String, String)>) -> Seq<(Seq<char>, Seq<char>)> {
    tags.map_values(|p: (String, String)| (p.0@, p.1@))
}

/// What `str::to_lowercase` returns for a string; the result depends on
/// the characters alone.
pub uninterp spec fn lower_of(s: Seq<char>) -> Seq<char>;

/// Relies on str::to_lowercase for case-folding tag keys.
#[verifier::external_body]
fn lowercase(s: &str) -> (r: String)
    ensures
        r@ == lower_of(s@),
{
    s.to_lowercase()
}

proof fn lemma_tag_keys_distinct()
    ensures
        "title"@ != "artist"@,
        "title"@ != "album"@,
        "title"@ != "date"@,
        "artist"@ != "album"@,
        "artist"@ != "date"@,
        "album"@ != "date"@,
{
    broadcast use vstd::string::group_string_axioms;

    reveal_strlit("title");
    reveal_strlit("artist");
    reveal_strlit("album");
    reveal_strlit("date");
    assert("title"@.len() == 5);
    assert("artist"@.len() == 6);
    assert("album"@.len() == 5);
    assert("date"@.len() == 4);
    assert("title"@[0] == 't');
    assert("album"@[0] == 'a');
}

proof fn lemma_ext_lens()
    ensures
        ".flac"@.len() > 0,
        ".mp3"@.len() > 0,
        ".wav"@.len() > 0,
        ".m4a"@.len() > 0,
        ".ogg"@.len() > 0,
{
    reveal_strlit(".flac");
    reveal_strlit(".mp3");
    reveal_strlit(".wav");
    reveal_strlit(".m4a");
    reveal_strlit(".ogg");
    assert(".flac"@.len() > 0 && ".mp3"@.len() > 0 && ".wav"@.len() > 0);
    assert(".m4a"@.len() > 0 && ".ogg"@.len() > 0);
}

/// The value of the last usable pair whose folded key equals `key`:
/// later pairs overwrite earlier ones, and garbled values are skipped.
pub open spec fn last_tag(pairs: Seq<(Seq<char>, Seq<char>)>, key: Seq<char>) -> Option<
    Seq<char>,
>
    decreases pairs.len(),
{
    if pairs.len() == 0 {
        Option::None
    } else if !garbled(pairs.last().1) && lower_of(pairs.last().0) == key {
        Option::Some(pairs.last().1)
    } else {
        last_tag(pairs.drop_last(), key)
    }
}

/// The tag value for `key`, or empty when no usable pair carries it.
pub open spec fn tag_or_empty(pairs: Seq<(Seq<char>, Seq<char>)>, key: Seq<char>) -> Seq<
    char,
> {
    match last_tag(pairs, key) {
        Option::Some(v) => v,
        Option::None => Seq::empty(),
    }
}

/// The file name: everything after the last slash.
pub open spec fn basename(s: Seq<char>) -> Seq<char>
    decreases s.len(),
{
    if s.len() == 0 {
        s
    } else if s.last() == '/' {
        Seq::empty()
    } else {
        basename(s.drop_last()).push(s.last())
    }
}

proof fn lemma_basename_after_slash(s: Seq<char>, j: int)
    requires
        0 <= j < s.len(),
        s[j] == '/',
        forall|t: int| j < t < s.len() ==> s[t] != '/',
    ensures
        basename(s) == s.subrange(j + 1, s.len() as int),
    decreases s.len(),
{
    if j == s.len() - 1 {
        assert(s.subrange(j + 1, s.len() as int) =~= Seq::<char>::empty());
    } else {
        lemma_basename_after_slash(s.drop_last(), j);
        assert(s.subrange(j + 1, s.len() as int) =~= s.drop_last().subrange(
            j + 1,
            s.len() - 1,
        ).push(s.last()));
    }
}

proof fn lemma_basename_no_slash(s: Seq<char>)
    requires
        forall|t: int| 0 <= t < s.len() ==> s[t] != '/',
    ensures
        basename(s) == s,
    decreases s.len(),
{
    if s.len() == 0 {
    } else {
        lemma_basename_no_slash(s.drop_last());
        assert(s.drop_last().push(s.last()) =~= s);
    }
}

/// The file name of a path, as the text after its last slash.
fn basename_exec(s: &str) -> (r: String)
    ensures
        r@ == basename(s@),
{
    let n = s.unicode_len();
    let mut j = n;
    while j > 0
        invariant
            n == s@.len(),
            0 <= j <= n,
            forall|t: int| j <= t < n ==> s@[t] != '/',
        decreases j,
    {
        if s.get_char(j - 1) == '/' {
            let r = s.substring_char(j, n).to_owned();
            proof {
                lemma_basename_after_slash(s@, j - 1);
            }
            return r;
        }
        j = j - 1;
    }
    proof {
        lemma_basename_no_slash(s@);
    }
    s.to_owned()
}

/// `s` with every copy of the suffix `ext` removed from its end.
pub open spec fn strip_all(s: Seq<char>, ext: Seq<char>) -> Seq<char>
    decreases s.len(),
{
    if ext.len() > 0 && has_suffix(s, ext) {
        strip_all(s.subrange(0, s.len() - ext.len()), ext)
    } else {
        s
    }
}

/// Remove every trailing copy of `ext` from `s`.
fn trim_matches(s: &str, ext: &str) -> (r: String)
    requires
        ext@.len() > 0,
    ensures
        r@ == strip_all(s@, ext@),
{
    let m = ext.unicode_len();
    let n = s.unicode_len();
    let mut e = n;
    proof {
        assert(s@.subrange(0, n as int) =~= s@);
    }
    loop
        invariant
            m == ext@.len(),
            n == s@.len(),
            0 <= e <= n,
            m > 0,
            strip_all(s@, ext@) == strip_all(s@.subrange(0, e as int), ext@),
        decreases e,
    {
        let cur = s.substring_char(0, e);
        if str_has_suffix(cur, ext) {
            proof {
                assert(s@.subrange(0, e as int).subrange(0, e - m) =~= s@.subrange(
                    0,
                    e - m,
                ));
            }
            e = e - m;
        } else {
            return cur.to_owned();
        }
    }
}

/// The fallback title: the file name with the recognized extensions
/// stripped from its end, one extension kind after another.
pub open spec fn default_title(path: Seq<char>) -> Seq<char> {
    strip_all(
        strip_all(
            strip_all(strip_all(strip_all(basename(path), ".flac"@), ".mp3"@), ".wav"@),
            ".m4a"@,
        ),
        ".ogg"@,
    )
}

/// Character-by-character string equality.
fn str_eq(a: &str, b: &str) -> (r: bool)
    ensures
        r == (a@ == b@),
{
    let na = a.unicode_len();
    let nb = b.unicode_len();
    if na != nb {
        return false;
    }
    let mut i: usize = 0;
    while i < na
        invariant
            na == a@.len(),
            na == nb,
            nb == b@.len(),
            0 <= i <= na,
            forall|j: int| 0 <= j < i ==> a@[j] == b@[j],
        decreases na - i,
    {
        if a.get_char(i) != b.get_char(i) {
            return false;
        }
        i = i + 1;
    }
    proof {
        assert(a@ =~= b@);
    }
    true
}

/// View of an optionally held string.
pub open spec fn opt_view(o: Option<String>) -> Option<Seq<char>> {
    match o {
        Option::Some(s) => Option::Some(s@),
        Option::None => Option::None,
    }
}

/// The track descriptor that a path, its tag pairs and its duration
/// determine: the last usable value of each tag, a fallback title taken
/// from the file name, and empty text for everything missing.
pub open spec fn song_from_tags(
    path: Seq<char>,
    pairs: Seq<(Seq<char>, Seq<char>)>,
    duration: u64,
) -> SongModel {
    SongModel {
        title: match last_tag(pairs, "title"@) {
            Option::Some(t) => t,
            Option::None => default_title(path),
        },
        artist: tag_or_empty(pairs, "artist"@),
        album: tag_or_empty(pairs, "album"@),
        duration: duration,
        date: tag_or_empty(pairs, "date"@),
        playing: false,
        path: path,
    }
}

/// Build one track descriptor from the file path, the raw tag pairs the
/// metadata reader produced, and the duration in whole seconds.
pub fn build_song(path: &str, tags: &Vec<(String, String)>, duration: u64) -> (s: Song)
    ensures
        s@ == song_from_tags(path@, pair_views(tags@), duration),
{
    let mut title: Option<String> = None;
    let mut artist: Option<String> = None;
    let mut album: Option<String> = None;
    let mut date: Option<String> = None;
    let mut k: usize = 0;
    proof {
        assert(pair_views(tags@).take(0) =~= Seq::<(Seq<char>, Seq<char>)>::empty());
    }
    while k < tags.len()
        invariant
            0 <= k <= tags@.len(),
            opt_view(title) == last_tag(pair_views(tags@).take(k as int), "title"@),
            opt_view(artist) == last_tag(pair_views(tags@).take(k as int), "artist"@),
            opt_view(album) == last_tag(pair_views(tags@).take(k as int), "album"@),
            opt_view(date) == last_tag(pair_views(tags@).take(k as int), "date"@),
        decreases tags@.len() - k,
    {
        proof {
            lemma_tag_keys_distinct();
            let pv = pair_views(tags@);
            assert(pv.take(k + 1).drop_last() =~= pv.take(k as int));
            assert(pv.take(k + 1).last() == pv[k as int]);
        }
        let value = &tags[k].1;
        let value_garbled = value.as_str().unicode_len() > 0 && value.as_str().get_char(0)
            == '?';
        if !value_garbled {
            let low = lowercase(tags[k].0.as_str());
            if str_eq(low.as_str(), "title") {
                title = Some(tags[k].1.clone());
            } else if str_eq(low.as_str(), "album") {
                album = Some(tags[k].1.clone());
            } else if str_eq(low.as_str(), "artist") {
                artist = Some(tags[k].1.clone());
            } else if str_eq(low.as_str(), "date") {
                date = Some(tags[k].1.clone());
            }
        }
        k = k + 1;
    }
    proof {
        assert(pair_views(tags@).take(tags@.len() as int) =~= pair_views(tags@));
    }
    let title_s = match title {
        Some(t) => t,
        None => {
            let name = basename_exec(path);
            proof {
                lemma_ext_lens();
            }
            let t1 = trim_matches(name.as_str(), ".flac");
            let t2 = trim_matches(t1.as_str(), ".mp3");
            let t3 = trim_matches(t2.as_str(), ".wav");
            let t4 = trim_matches(t3.as_str(), ".m4a");
            trim_matches(t4.as_str(), ".ogg")
        },
    };
    let artist_s = match artist {
        Some(a) => a,
        None => String::new(),
    };
    let album_s = match album {
        Some(a) => a,
        None => String::new(),
    };
    let date_s = match date {
        Some(d) => d,
        None => String::new(),
    };
    Song {
        title: title_s,
        artist: artist_s,
        album: album_s,
        duration,
        date: date_s,
        playing: false,
        path: path.to_owned(),
    }
}

} // verus!
