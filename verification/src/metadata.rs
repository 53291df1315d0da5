//! Catalogue helpers for song collections: which collection a file belongs
//! to, judged by its path, the artist that its folder names, and the order
//! of a catalogue of tracks.

use vstd::prelude::*;
use crate::text::{contains_text, ends_with, is_infix_of, lowercase, str_eq, to_lowercase};
use crate::cli::playlist::{bytes_less, lemma_bytes_less_split, lemma_bytes_less_transitive, text_less};
use vstd::utf8::encode_utf8;

verus! {

/// The collection of a lower-cased path: identifier, name, description and
/// format, by the first of these tests that holds: the path mentions
/// `sndh`, `projectay`, `arkos`, or a `ym` folder.
pub open spec fn collection_of(lower: Seq<char>) -> Option<(Seq<char>, Seq<char>, Seq<char>, Seq<char>)> {
    if is_infix_of("sndh"@, lower) {
        Some(("sndh"@, "SNDH Collection"@, "Atari ST/STE music from the SNDH archive"@, "SNDH"@))
    } else if is_infix_of("projectay"@, lower) {
        Some(("ay"@, "Project AY"@, "ZX Spectrum AY music"@, "AY"@))
    } else if is_infix_of("arkos"@, lower) {
        Some(("arkos"@, "Arkos Tracker"@, "Arkos Tracker 2 songs"@, "AKS"@))
    } else if is_infix_of("/ym/"@, lower) || is_infix_of("\\ym\\"@, lower) || "/ym"@.is_suffix_of(
        lower,
    ) {
        Some(("ym"@, "YM Collection"@, "YM format chiptunes"@, "YM"@))
    } else {
        None
    }
}

/// The collection that a file belongs to, from its path as text.
pub fn detect_collection(path_text: &str) -> (r: Option<
    (&'static str, &'static str, &'static str, &'static str),
>)
    ensures
        match (r, collection_of(lowercase(path_text@))) {
            (Some(t), Some(u)) => t.0@ == u.0 && t.1@ == u.1 && t.2@ == u.2 && t.3@ == u.3,
            (None, None) => true,
            _ => false,
        },
{
    let lower = to_lowercase(path_text);
    let p = lower.as_str();
    if contains_text(p, "sndh") {
        Some(("sndh", "SNDH Collection", "Atari ST/STE music from the SNDH archive", "SNDH"))
    } else if contains_text(p, "projectay") {
        Some(("ay", "Project AY", "ZX Spectrum AY music", "AY"))
    } else if contains_text(p, "arkos") {
        Some(("arkos", "Arkos Tracker", "Arkos Tracker 2 songs", "AKS"))
    } else if contains_text(p, "/ym/") || contains_text(p, "\\ym\\") || ends_with(p, "/ym") {
        Some(("ym", "YM Collection", "YM format chiptunes", "YM"))
    } else {
        None
    }
}

/// The first position at or after `from` where `s` holds `c`.
pub open spec fn first_index_from(s: Seq<char>, c: char, from: int) -> Option<int>
    decreases s.len() - from,
{
    if from < 0 || from >= s.len() {
        None
    } else if s[from] == c {
        Some(from)
    } else {
        first_index_from(s, c, from + 1)
    }
}

proof fn lemma_first_index_from(s: Seq<char>, c: char, from: int)
    requires
        0 <= from,
    ensures
        first_index_from(s, c, from) matches Some(i) ==> from <= i < s.len() && s[i] == c
            && forall|j: int| from <= j < i ==> s[j] != c,
        first_index_from(s, c, from) is None ==> forall|j: int| from <= j < s.len() ==> s[j] != c,
    decreases s.len() - from,
{
    if from < s.len() && s[from] != c {
        lemma_first_index_from(s, c, from + 1);
    }
}

/// The first position of `c` in `s`, scanning from `from`.
fn find_char(s: &str, c: char, from: usize) -> (r: Option<usize>)
    requires
        from <= s@.len(),
    ensures
        match (r, first_index_from(s@, c, from as int)) {
            (Some(a), Some(b)) => a == b,
            (None, None) => true,
            _ => false,
        },
{
    proof {
        lemma_first_index_from(s@, c, from as int);
    }
    let n = s.unicode_len();
    let mut i = from;
    while i < n
        invariant
            from <= i <= n,
            n == s@.len(),
            forall|j: int| from <= j < i ==> s@[j] != c,
            first_index_from(s@, c, from as int) == first_index_from(s@, c, i as int),
        decreases n - i,
    {
        if s.get_char(i) == c {
            return Some(i);
        }
        i = i + 1;
    }
    None
}

/// The artist that a folder name gives: the part between the first `(`
/// and the first `)` when both occur; for `Last.First` with a single dot,
/// not at the end, `First Last`; otherwise the name itself.
pub open spec fn artist_from_folder_spec(s: Seq<char>) -> Seq<char> {
    match (first_index_from(s, '(', 0), first_index_from(s, ')', 0)) {
        (Some(a), Some(b)) => s.subrange(a + 1, b),
        _ => match first_index_from(s, '.', 0) {
            Some(d) => if s.last() != '.' && first_index_from(s, '.', d + 1) is None {
                s.subrange(d + 1, s.len() as int) + seq![' '] + s.subrange(0, d)
            } else {
                s
            },
            None => s,
        },
    }
}

/// The artist that a folder name gives (see [`artist_from_folder_spec`]).
/// A `)` before the first `(` has no meaning as a range and is not
/// accepted.
pub fn artist_from_folder(folder: &str) -> (r: String)
    requires
        match (first_index_from(folder@, '(', 0), first_index_from(folder@, ')', 0)) {
            (Some(a), Some(b)) => a < b,
            _ => true,
        },
    ensures
        r@ == artist_from_folder_spec(folder@),
{
    proof {
        lemma_first_index_from(folder@, '(', 0);
        lemma_first_index_from(folder@, ')', 0);
        lemma_first_index_from(folder@, '.', 0);
    }
    let n = folder.unicode_len();
    if let Some(start) = find_char(folder, '(', 0) {
        if let Some(end) = find_char(folder, ')', 0) {
            return String::from_str(folder.substring_char(start + 1, end));
        }
    }
    if let Some(dot) = find_char(folder, '.', 0) {
        proof {
            lemma_first_index_from(folder@, '.', dot + 1);
        }
        if folder.get_char(n - 1) != '.' && find_char(folder, '.', dot + 1).is_none() {
            let mut out = String::from_str(folder.substring_char(dot + 1, n));
            out.append(" ");
            out.append(folder.substring_char(0, dot));
            proof {
                reveal_strlit(" ");
            }
            assert(out@ =~= folder@.subrange(dot + 1, n as int) + seq![' '] + folder@.subrange(0, dot as int));
            return out;
        }
    }
    String::from_str(folder)
}

/// Two byte strings neither of which sorts before the other are equal.
proof fn lemma_bytes_less_total(a: Seq<u8>, b: Seq<u8>)
    requires
        !bytes_less(a, b),
        !bytes_less(b, a),
    ensures
        a == b,
    decreases a.len(),
{
    if a.len() > 0 && b.len() > 0 {
        lemma_bytes_less_total(a.drop_first(), b.drop_first());
        assert forall|i: int| 0 <= i < a.len() implies a[i] == b[i] by {
            if i > 0 {
                assert(a[i] == a.drop_first()[i - 1]);
                assert(b[i] == b.drop_first()[i - 1]);
            }
        }
    }
    assert(a =~= b);
}

/// One track of a catalogue, with what the catalogue's order reads.
#[derive(Clone, Debug)]
pub struct CatalogEntry {
    /// Path of the file, relative to the scanned folder.
    pub path: String,
    /// Song title.
    pub title: String,
    /// Song author.
    pub author: String,
    /// File format.
    pub format: String,
    /// Collection identifier (`sndh`, `ym`, `ay`, `arkos`).
    pub collection: String,
}

/// Rank of a collection in a catalogue: SNDH, YM, AY, Arkos, then any other.
pub open spec fn collection_rank(c: Seq<char>) -> int {
    if c == "sndh"@ {
        0
    } else if c == "ym"@ {
        1
    } else if c == "ay"@ {
        2
    } else if c == "arkos"@ {
        3
    } else {
        99
    }
}

/// The bytes of the lower-cased author, by which tracks are ordered.
pub open spec fn author_key(e: CatalogEntry) -> Seq<u8> {
    encode_utf8(lowercase(e.author@))
}

/// The bytes of the lower-cased title, by which tracks are ordered.
pub open spec fn title_key(e: CatalogEntry) -> Seq<u8> {
    encode_utf8(lowercase(e.title@))
}

/// Track `a` sorts before track `b`: a lower collection rank, else a
/// smaller lower-cased author, else the same author and a smaller
/// lower-cased title.
pub open spec fn catalog_less(a: CatalogEntry, b: CatalogEntry) -> bool {
    ||| collection_rank(a.collection@) < collection_rank(b.collection@)
    ||| collection_rank(a.collection@) == collection_rank(b.collection@) && (bytes_less(
        author_key(a),
        author_key(b),
    ) || author_key(a) == author_key(b) && bytes_less(title_key(a), title_key(b)))
}

/// Entry `a` of `es` comes before entry `b` in the sorted catalogue: it
/// sorts before it, or neither sorts before the other and it came first.
pub open spec fn catalog_before(es: Seq<CatalogEntry>, a: int, b: int) -> bool {
    ||| catalog_less(es[a], es[b])
    ||| (!catalog_less(es[b], es[a]) && a < b)
}

/// `ids` lists every index of `es` once, in catalogue order.
pub open spec fn is_catalog_order(es: Seq<CatalogEntry>, ids: Seq<int>) -> bool {
    &&& ids.len() == es.len()
    &&& forall|t: int| 0 <= t < ids.len() ==> 0 <= #[trigger] ids[t] < es.len()
    &&& forall|s: int, t: int| 0 <= s < t < ids.len() ==> #[trigger] ids[s] != #[trigger] ids[t]
    &&& forall|s: int, t: int|
        0 <= s < t < ids.len() ==> catalog_before(es, #[trigger] ids[s], #[trigger] ids[t])
}

/// The same track twice: same collection, and the same author and title
/// once lower-cased.
pub open spec fn same_track(a: CatalogEntry, b: CatalogEntry) -> bool {
    &&& a.collection@ == b.collection@
    &&& lowercase(a.author@) == lowercase(b.author@)
    &&& lowercase(a.title@) == lowercase(b.title@)
}

/// A run of tracks with every track that repeats the last one kept left
/// out (the first of each run of equal tracks stays).
pub open spec fn dedup_tracks(s: Seq<CatalogEntry>) -> Seq<CatalogEntry>
    decreases s.len(),
{
    if s.len() == 0 {
        Seq::empty()
    } else {
        let d = dedup_tracks(s.drop_last());
        if d.len() > 0 && same_track(d.last(), s.last()) {
            d
        } else {
            d.push(s.last())
        }
    }
}

/// No two neighbours of a deduplicated run are the same track.
proof fn lemma_dedup_no_neighbour_repeats(s: Seq<CatalogEntry>)
    ensures
        forall|i: int|
            0 <= i < dedup_tracks(s).len() - 1 ==> !same_track(
                #[trigger] dedup_tracks(s)[i],
                dedup_tracks(s)[i + 1],
            ),
    decreases s.len(),
{
    if s.len() > 0 {
        lemma_dedup_no_neighbour_repeats(s.drop_last());
        let d = dedup_tracks(s.drop_last());
        assert forall|i: int|
            0 <= i < dedup_tracks(s).len() - 1 implies !same_track(
                #[trigger] dedup_tracks(s)[i],
                dedup_tracks(s)[i + 1],
            ) by {
            if !(d.len() > 0 && same_track(d.last(), s.last())) && i < d.len() - 1 {
                assert(dedup_tracks(s)[i] == d[i] && dedup_tracks(s)[i + 1] == d[i + 1]);
            }
        }
    }
}

/// Number of tracks of collection `id`.
pub open spec fn count_collection(s: Seq<CatalogEntry>, id: Seq<char>) -> nat
    decreases s.len(),
{
    if s.len() == 0 {
        0
    } else {
        count_collection(s.drop_last(), id) + if s.last().collection@ == id {
            1nat
        } else {
            0nat
        }
    }
}

/// The catalogue order is transitive.
proof fn lemma_catalog_less_transitive(a: CatalogEntry, b: CatalogEntry, c: CatalogEntry)
    requires
        catalog_less(a, b),
        catalog_less(b, c),
    ensures
        catalog_less(a, c),
{
    if collection_rank(a.collection@) == collection_rank(b.collection@) && collection_rank(
        b.collection@,
    ) == collection_rank(c.collection@) {
        if bytes_less(author_key(a), author_key(b)) && bytes_less(author_key(b), author_key(c)) {
            lemma_bytes_less_transitive(author_key(a), author_key(b), author_key(c));
        } else if author_key(a) == author_key(b) && author_key(b) == author_key(c) {
            lemma_bytes_less_transitive(title_key(a), title_key(b), title_key(c));
        }
    }
}

/// Whatever `b` is, a pair in catalogue order has `b` above the first or
/// below the second.
proof fn lemma_catalog_less_split(a: CatalogEntry, b: CatalogEntry, c: CatalogEntry)
    requires
        catalog_less(a, c),
    ensures
        catalog_less(a, b) || catalog_less(b, c),
{
    let ra = collection_rank(a.collection@);
    let rb = collection_rank(b.collection@);
    let rc = collection_rank(c.collection@);
    if ra == rb && rb == rc {
        let (aa, ab, ac) = (author_key(a), author_key(b), author_key(c));
        if bytes_less(aa, ac) {
            lemma_bytes_less_split(aa, ab, ac);
        } else {
            if !bytes_less(aa, ab) && !bytes_less(ab, aa) {
                lemma_bytes_less_total(aa, ab);
                lemma_bytes_less_split(title_key(a), title_key(b), title_key(c));
            }
        }
    }
}

/// The rank of a collection identifier.
fn rank_of(collection: &str) -> (r: usize)
    ensures
        r == collection_rank(collection@),
{
    if str_eq(collection, "sndh") {
        0
    } else if str_eq(collection, "ym") {
        1
    } else if str_eq(collection, "ay") {
        2
    } else if str_eq(collection, "arkos") {
        3
    } else {
        99
    }
}

/// Whether the track with rank `r1`, lower-cased author `a1` and title
/// `t1` sorts before the one with `r2`, `a2` and `t2`.
fn key_less(r1: usize, a1: &str, t1: &str, r2: usize, a2: &str, t2: &str) -> (b: bool)
    ensures
        b == (r1 < r2 || r1 == r2 && (bytes_less(encode_utf8(a1@), encode_utf8(a2@)) || encode_utf8(
            a1@,
        ) == encode_utf8(a2@) && bytes_less(encode_utf8(t1@), encode_utf8(t2@)))),
{
    if r1 != r2 {
        return r1 < r2;
    }
    if text_less(a1, a2) {
        return true;
    }
    if text_less(a2, a1) {
        return false;
    }
    proof {
        lemma_bytes_less_total(encode_utf8(a1@), encode_utf8(a2@));
    }
    text_less(t1, t2)
}

/// Orders a catalogue: tracks sorted by collection (SNDH, YM, AY, Arkos,
/// then others), lower-cased author and lower-cased title, equal ones
/// keeping their order; then every track that repeats the one before it
/// (same collection, author and title, ignoring case) left out. Also
/// returns the number of tracks of each collection, in that order.
pub fn order_catalog(entries: Vec<CatalogEntry>) -> (r: (Vec<CatalogEntry>, [usize; 4]))
    ensures
        exists|ids: Seq<int>|
            is_catalog_order(entries@, ids) && r.0@ == dedup_tracks(
                Seq::new(ids.len(), |t: int| entries@[ids[t]]),
            ),
        r.1@ == seq![
            count_collection(r.0@, "sndh"@) as usize,
            count_collection(r.0@, "ym"@) as usize,
            count_collection(r.0@, "ay"@) as usize,
            count_collection(r.0@, "arkos"@) as usize,
        ],
        forall|i: int| 0 <= i < r.0@.len() - 1 ==> !same_track(#[trigger] r.0@[i], r.0@[i + 1]),
{
    let ghost orig = entries@;
    let n = entries.len();
    let mut input = entries;
    let mut out: Vec<CatalogEntry> = Vec::new();
    let mut ranks: Vec<usize> = Vec::new();
    let mut authors: Vec<String> = Vec::new();
    let mut titles: Vec<String> = Vec::new();
    let ghost mut ids: Seq<int> = Seq::empty();
    let mut i: usize = 0;
    while i < n
        invariant
            i <= n,
            n == orig.len(),
            input@ == orig.subrange(i as int, n as int),
            out@.len() == i,
            ranks@.len() == i,
            authors@.len() == i,
            titles@.len() == i,
            ids.len() == i,
            forall|t: int| 0 <= t < i ==> 0 <= #[trigger] ids[t] < i,
            forall|s: int, t: int| 0 <= s < t < i ==> #[trigger] ids[s] != #[trigger] ids[t],
            forall|s: int, t: int|
                0 <= s < t < i ==> catalog_before(orig, #[trigger] ids[s], #[trigger] ids[t]),
            forall|t: int| 0 <= t < i ==> #[trigger] out@[t] == orig[ids[t]],
            forall|t: int|
                0 <= t < i ==> #[trigger] ranks@[t] == collection_rank(orig[ids[t]].collection@),
            forall|t: int|
                0 <= t < i ==> encode_utf8(#[trigger] authors@[t]@) == author_key(orig[ids[t]]),
            forall|t: int|
                0 <= t < i ==> encode_utf8(#[trigger] titles@[t]@) == title_key(orig[ids[t]]),
        decreases n - i,
    {
        let e = input.remove(0);
        assert(e == orig[i as int]);
        let rank = rank_of(e.collection.as_str());
        let author = to_lowercase(e.author.as_str());
        let title = to_lowercase(e.title.as_str());
        let mut j = out.len();
        while j > 0 && key_less(
            rank,
            author.as_str(),
            title.as_str(),
            ranks[j - 1],
            authors[j - 1].as_str(),
            titles[j - 1].as_str(),
        )
            invariant
                j <= i,
                ranks@.len() == i,
                authors@.len() == i,
                titles@.len() == i,
                rank == collection_rank(orig[i as int].collection@),
                encode_utf8(author@) == author_key(orig[i as int]),
                encode_utf8(title@) == title_key(orig[i as int]),
                forall|t: int|
                    0 <= t < i ==> #[trigger] ranks@[t] == collection_rank(orig[ids[t]].collection@),
                forall|t: int|
                    0 <= t < i ==> encode_utf8(#[trigger] authors@[t]@) == author_key(orig[ids[t]]),
                forall|t: int|
                    0 <= t < i ==> encode_utf8(#[trigger] titles@[t]@) == title_key(orig[ids[t]]),
                forall|t: int|
                    j <= t < i ==> catalog_less(orig[i as int], orig[#[trigger] ids[t]]),
            decreases j,
        {
            assert(ranks@[j - 1] == collection_rank(orig[ids[j - 1]].collection@));
            assert(encode_utf8(authors@[j - 1]@) == author_key(orig[ids[j - 1]]));
            assert(encode_utf8(titles@[j - 1]@) == title_key(orig[ids[j - 1]]));
            j = j - 1;
        }
        proof {
            let ghost new_ids = ids.insert(j as int, i as int);
            if j > 0 {
                assert(ranks@[j - 1] == collection_rank(orig[ids[j - 1]].collection@));
                assert(encode_utf8(authors@[j - 1]@) == author_key(orig[ids[j - 1]]));
                assert(encode_utf8(titles@[j - 1]@) == title_key(orig[ids[j - 1]]));
                assert(!catalog_less(orig[i as int], orig[ids[j - 1]]));
            }
            assert forall|s: int, t: int| 0 <= s < t < i + 1 implies catalog_before(
                orig,
                #[trigger] new_ids[s],
                #[trigger] new_ids[t],
            ) by {
                if t < j {
                    assert(new_ids[s] == ids[s] && new_ids[t] == ids[t]);
                } else if t == j {
                    let x = ids[s];
                    let y = ids[j - 1];
                    assert(new_ids[s] == x);
                    assert(new_ids[t] == i);
                    if s < j - 1 {
                        assert(catalog_before(orig, x, y));
                        if catalog_less(orig[i as int], orig[x]) {
                            if catalog_less(orig[x], orig[y]) {
                                lemma_catalog_less_transitive(orig[i as int], orig[x], orig[y]);
                            } else {
                                lemma_catalog_less_split(orig[i as int], orig[y], orig[x]);
                            }
                        }
                    }
                } else if s < j {
                    assert(new_ids[s] == ids[s] && new_ids[t] == ids[t - 1]);
                } else if s == j {
                    assert(new_ids[s] == i && new_ids[t] == ids[t - 1]);
                } else {
                    assert(new_ids[s] == ids[s - 1] && new_ids[t] == ids[t - 1]);
                }
            }
            ids = new_ids;
        }
        out.insert(j, e);
        ranks.insert(j, rank);
        authors.insert(j, author);
        titles.insert(j, title);
        i = i + 1;
    }
    let ghost sorted = Seq::new(ids.len(), |t: int| orig[ids[t]]);
    assert(out@ =~= sorted);
    assert(is_catalog_order(orig, ids));
    let kept = dedup_sorted(&out);
    proof {
        lemma_dedup_no_neighbour_repeats(out@);
    }
    let counts = count_collections(&kept);
    (kept, counts)
}

/// A copy of a track.
fn copy_entry(e: &CatalogEntry) -> (r: CatalogEntry)
    ensures
        r == *e,
{
    CatalogEntry {
        path: e.path.clone(),
        title: e.title.clone(),
        author: e.author.clone(),
        format: e.format.clone(),
        collection: e.collection.clone(),
    }
}

/// The tracks with each repeat of the last kept one left out.
fn dedup_sorted(tracks: &Vec<CatalogEntry>) -> (r: Vec<CatalogEntry>)
    ensures
        r@ == dedup_tracks(tracks@),
{
    let mut out: Vec<CatalogEntry> = Vec::new();
    let mut last_author = String::new();
    let mut last_title = String::new();
    let mut k: usize = 0;
    while k < tracks.len()
        invariant
            k <= tracks@.len(),
            out@ == dedup_tracks(tracks@.subrange(0, k as int)),
            out@.len() > 0 ==> last_author@ == lowercase(out@.last().author@),
            out@.len() > 0 ==> last_title@ == lowercase(out@.last().title@),
        decreases tracks@.len() - k,
    {
        let e = &tracks[k];
        let author = to_lowercase(e.author.as_str());
        let title = to_lowercase(e.title.as_str());
        let repeat = out.len() > 0 && str_eq(
            out[out.len() - 1].collection.as_str(),
            e.collection.as_str(),
        ) && str_eq(last_author.as_str(), author.as_str()) && str_eq(
            last_title.as_str(),
            title.as_str(),
        );
        proof {
            let s = tracks@.subrange(0, k + 1);
            assert(s.drop_last() =~= tracks@.subrange(0, k as int));
            assert(s.last() == tracks@[k as int]);
            assert(repeat == (out@.len() > 0 && same_track(out@.last(), tracks@[k as int])));
        }
        if !repeat {
            let c = copy_entry(e);
            out.push(c);
            last_author = author;
            last_title = title;
        }
        k = k + 1;
    }
    assert(tracks@.subrange(0, tracks@.len() as int) =~= tracks@);
    out
}

/// The number of tracks of SNDH, YM, AY and Arkos, in that order.
fn count_collections(tracks: &Vec<CatalogEntry>) -> (r: [usize; 4])
    ensures
        r@ == seq![
            count_collection(tracks@, "sndh"@) as usize,
            count_collection(tracks@, "ym"@) as usize,
            count_collection(tracks@, "ay"@) as usize,
            count_collection(tracks@, "arkos"@) as usize,
        ],
{
    proof {
        reveal_strlit("sndh");
        reveal_strlit("ym");
        reveal_strlit("ay");
        reveal_strlit("arkos");
        assert("sndh"@.len() == 4 && "ym"@.len() == 2 && "ay"@.len() == 2 && "arkos"@.len() == 5);
        assert("ym"@[0] != "ay"@[0]);
    }
    let mut c0: usize = 0;
    let mut c1: usize = 0;
    let mut c2: usize = 0;
    let mut c3: usize = 0;
    let mut k: usize = 0;
    while k < tracks.len()
        invariant
            k <= tracks@.len(),
            c0 == count_collection(tracks@.subrange(0, k as int), "sndh"@),
            c1 == count_collection(tracks@.subrange(0, k as int), "ym"@),
            c2 == count_collection(tracks@.subrange(0, k as int), "ay"@),
            c3 == count_collection(tracks@.subrange(0, k as int), "arkos"@),
            c0 <= k,
            c1 <= k,
            c2 <= k,
            c3 <= k,
            "sndh"@ != "ym"@,
            "sndh"@ != "ay"@,
            "sndh"@ != "arkos"@,
            "ym"@ != "ay"@,
            "ym"@ != "arkos"@,
            "ay"@ != "arkos"@,
        decreases tracks@.len() - k,
    {
        let ghost now = tracks@.subrange(0, k + 1);
        proof {
            assert(now.drop_last() =~= tracks@.subrange(0, k as int));
            assert(now.last() == tracks@[k as int]);
        }
        let r = rank_of(tracks[k].collection.as_str());
        if r == 0 {
            c0 = c0 + 1;
        } else if r == 1 {
            c1 = c1 + 1;
        } else if r == 2 {
            c2 = c2 + 1;
        } else if r == 3 {
            c3 = c3 + 1;
        }
        k = k + 1;
    }
    assert(tracks@.subrange(0, tracks@.len() as int) =~= tracks@);
    let counts: [usize; 4] = [c0, c1, c2, c3];
    assert(counts@ =~= seq![c0, c1, c2, c3]);
    counts
}

} // verus!
