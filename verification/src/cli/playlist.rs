//! The song list of directory playback: entries and the text the list shows
//! for them, moving the selection, and type-ahead search over titles,
//! authors and file names.

use vstd::prelude::*;
use crate::text::{contains_text, is_infix_of, lowercase, pop_char, push_char, starts_with, to_lowercase};
use crate::cli::viz_helpers::{digit_char, digit_str};

verus! {

/// Longest duration shown, in seconds (99:59).
pub const MAX_SHOWN_SECONDS: u32 = 5999;

/// `n` (below one hundred) written with two digits.
pub open spec fn two_digits(n: nat) -> Seq<char> {
    seq![digit_char(n / 10), digit_char(n % 10)]
}

/// The duration suffix of a list line: ` (mm:ss)`, capped at 99:59; nothing
/// when the duration is unknown.
pub open spec fn duration_text(d: Option<u32>) -> Seq<char> {
    match d {
        Some(s) => {
            let c: nat = if s < MAX_SHOWN_SECONDS {
                s as nat
            } else {
                MAX_SHOWN_SECONDS as nat
            };
            " ("@ + two_digits(c / 60) + ":"@ + two_digits(c % 60) + ")"@
        },
        None => Seq::empty(),
    }
}

/// A title or author that says nothing: empty, or the `(unknown)` marker.
pub open spec fn is_unknown_text(s: Seq<char>) -> bool {
    s.len() == 0 || s == "(unknown)"@
}

/// The file name shown in place of an unknown title.
pub open spec fn stem_text(stem: Option<String>) -> Seq<char> {
    match stem {
        Some(s) => s@,
        None => "???"@,
    }
}

/// The file name that a search looks into, lower-cased; nothing when the
/// file has no readable name.
pub open spec fn stem_search_text(stem: Option<String>) -> Seq<char> {
    match stem {
        Some(s) => lowercase(s@),
        None => Seq::empty(),
    }
}

/// One song of the list.
#[derive(Clone, Debug)]
pub struct PlaylistEntry {
    /// Full path of the file, as text.
    pub path: String,
    /// File name without its extension, when it is valid text.
    pub file_stem: Option<String>,
    /// Song title (from the metadata, or `(unknown)`).
    pub title: String,
    /// Song author (from the metadata, or `(unknown)`).
    pub author: String,
    /// Duration in whole seconds, when known.
    pub duration_secs: Option<u32>,
    /// File format (YM, AKS, AY, SNDH).
    pub format: String,
}

impl PlaylistEntry {
    /// The line shown in the list: `author - title`, the title alone when
    /// the author is unknown, or the file name when the title is unknown;
    /// followed by the duration when it is known.
    pub open spec fn display_text(&self) -> Seq<char> {
        if is_unknown_text(self.title@) {
            stem_text(self.file_stem) + duration_text(self.duration_secs)
        } else if is_unknown_text(self.author@) {
            self.title@ + duration_text(self.duration_secs)
        } else {
            self.author@ + " - "@ + self.title@ + duration_text(self.duration_secs)
        }
    }

    /// The lower-cased `query` occurs in the lower-cased title, author or
    /// file name.
    pub open spec fn matches(&self, query: Seq<char>) -> bool {
        ||| is_infix_of(query, lowercase(self.title@))
        ||| is_infix_of(query, lowercase(self.author@))
        ||| is_infix_of(query, stem_search_text(self.file_stem))
    }

    /// The lower-cased list line begins with `query`.
    pub open spec fn starts_with_query(&self, query: Seq<char>) -> bool {
        query.is_prefix_of(lowercase(self.display_text()))
    }

    /// The line shown for this entry in the list.
    pub fn display_string(&self) -> (s: String)
        ensures
            s@ == self.display_text(),
    {
        proof {
            reveal_strlit("(unknown)");
            reveal_strlit("???");
            reveal_strlit(" - ");
        }
        let unknown = String::from_str("(unknown)");
        let mut out = String::new();
        if self.title.as_str().is_empty() || self.title == unknown {
            match &self.file_stem {
                Some(stem) => out.append(stem.as_str()),
                None => out.append("???"),
            }
        } else if self.author.as_str().is_empty() || self.author == unknown {
            out.append(self.title.as_str());
        } else {
            out.append(self.author.as_str());
            out.append(" - ");
            out.append(self.title.as_str());
        }
        append_duration(&mut out, self.duration_secs);
        out
    }

    /// Whether the lower-cased `query_lower` occurs in the lower-cased title,
    /// author or file name.
    fn matches_query(&self, query_lower: &str) -> (b: bool)
        ensures
            b == self.matches(query_lower@),
    {
        let title = to_lowercase(self.title.as_str());
        if contains_text(title.as_str(), query_lower) {
            return true;
        }
        let author = to_lowercase(self.author.as_str());
        if contains_text(author.as_str(), query_lower) {
            return true;
        }
        let stem = match &self.file_stem {
            Some(s) => to_lowercase(s.as_str()),
            None => String::new(),
        };
        contains_text(stem.as_str(), query_lower)
    }

    /// Whether the lower-cased list line begins with `query_lower`.
    fn line_starts_with(&self, query_lower: &str) -> (b: bool)
        ensures
            b == self.starts_with_query(query_lower@),
    {
        let line = to_lowercase(self.display_string().as_str());
        starts_with(line.as_str(), query_lower)
    }
}

/// Appends the duration suffix of a list line.
fn append_duration(out: &mut String, d: Option<u32>)
    ensures
        final(out)@ == old(out)@ + duration_text(d),
{
    proof {
        reveal_strlit(" (");
        reveal_strlit(":");
        reveal_strlit(")");
    }
    let ghost o = out@;
    match d {
        None => {
            assert(out@ =~= o + duration_text(d));
        },
        Some(s) => {
            let c: u32 = if s < MAX_SHOWN_SECONDS {
                s
            } else {
                MAX_SHOWN_SECONDS
            };
            let minutes = c / 60;
            let seconds = c % 60;
            out.append(" (");
            out.append(digit_str((minutes / 10) as u8));
            out.append(digit_str((minutes % 10) as u8));
            out.append(":");
            out.append(digit_str((seconds / 10) as u8));
            out.append(digit_str((seconds % 10) as u8));
            out.append(")");
            assert(out@ =~= o + duration_text(d));
        },
    }
}

/// Selection after moving up: the previous entry, or the last one from the
/// top.
pub open spec fn previous_index(selected: int, len: int) -> int {
    if len == 0 {
        selected
    } else if selected == 0 {
        len - 1
    } else {
        selected - 1
    }
}

/// Selection after moving down: the next entry, or the first one from the
/// bottom.
pub open spec fn next_index(selected: int, len: int) -> int {
    if len == 0 {
        selected
    } else {
        (selected + 1) % len
    }
}

/// Number of entries that a page move skips.
pub const PAGE_STEP: usize = 10;

/// Selection after a page up: ten entries up, stopping at the first.
pub open spec fn page_up_index(selected: int, len: int) -> int {
    if len == 0 {
        selected
    } else if selected >= PAGE_STEP {
        selected - PAGE_STEP
    } else {
        0
    }
}

/// Selection after a page down: ten entries down, stopping at the last.
pub open spec fn page_down_index(selected: int, len: int) -> int {
    if len == 0 {
        selected
    } else if selected + PAGE_STEP <= len - 1 {
        selected + PAGE_STEP
    } else {
        len - 1
    }
}

/// Whether entry `e` is found by `query`: its line starts with it when
/// `by_prefix`, it matches it otherwise.
pub open spec fn hit(e: PlaylistEntry, query: Seq<char>, by_prefix: bool) -> bool {
    if by_prefix {
        e.starts_with_query(query)
    } else {
        e.matches(query)
    }
}

/// Some entry in `lo..hi` is found by `query`.
pub open spec fn any_hit(
    es: Seq<PlaylistEntry>,
    query: Seq<char>,
    by_prefix: bool,
    lo: int,
    hi: int,
) -> bool {
    exists|j: int| lo <= j < hi && #[trigger] hit(es[j], query, by_prefix)
}

/// `i` is the first entry in `lo..hi` found by `query`.
pub open spec fn first_hit(
    es: Seq<PlaylistEntry>,
    query: Seq<char>,
    by_prefix: bool,
    lo: int,
    hi: int,
    i: int,
) -> bool {
    &&& lo <= i < hi
    &&& hit(es[i], query, by_prefix)
    &&& forall|j: int| lo <= j < i ==> !#[trigger] hit(es[j], query, by_prefix)
}

/// Entry `k` places after `start`, going down and wrapping to the top.
pub open spec fn forward_slot(start: int, k: int, len: int) -> int {
    if start + k < len {
        start + k
    } else {
        start + k - len
    }
}

/// Entry `k` places before `start`, going up and wrapping to the bottom.
pub open spec fn backward_slot(start: int, k: int, len: int) -> int {
    if k <= start {
        start - k
    } else {
        len - (k - start)
    }
}

/// `k` is the first step, walking from `start` in the given direction, that
/// reaches an entry matching `query`.
pub open spec fn first_step_hit(
    es: Seq<PlaylistEntry>,
    query: Seq<char>,
    start: int,
    forward: bool,
    k: int,
) -> bool {
    &&& 0 <= k < es.len()
    &&& es[step_slot(start, k, es.len() as int, forward)].matches(query)
    &&& forall|j: int|
        0 <= j < k ==> !#[trigger] es[step_slot(start, j, es.len() as int, forward)].matches(
            query,
        )
}

/// Entry `k` steps from `start` in the given direction.
pub open spec fn step_slot(start: int, k: int, len: int, forward: bool) -> int {
    if forward {
        forward_slot(start, k, len)
    } else {
        backward_slot(start, k, len)
    }
}

/// Selection once the query has changed: with a one-byte query, the first
/// entry whose line starts with it; otherwise, or when there is none, the
/// first matching entry from the selection down, then the first from the
/// top; the selection stays when nothing matches.
pub open spec fn jump_result(
    es: Seq<PlaylistEntry>,
    selected: int,
    query: Seq<char>,
    single: bool,
    r: int,
) -> bool {
    let len = es.len() as int;
    let lo = if selected < len {
        selected
    } else {
        len
    };
    if single && any_hit(es, query, true, 0, len) {
        first_hit(es, query, true, 0, len, r)
    } else if any_hit(es, query, false, lo, len) {
        first_hit(es, query, false, lo, len, r)
    } else if any_hit(es, query, false, 0, lo) {
        first_hit(es, query, false, 0, lo, r)
    } else {
        r == selected
    }
}

/// Selection after a repeated search that walks from `start` in the given
/// direction: the first entry reached that matches, or `selected` when none
/// does.
pub open spec fn step_result(
    es: Seq<PlaylistEntry>,
    query: Seq<char>,
    start: int,
    forward: bool,
    selected: int,
    r: int,
) -> bool {
    if exists|k: int|
        0 <= k < es.len() && #[trigger] es[step_slot(start, k, es.len() as int, forward)].matches(
            query,
        ) {
        exists|k: int|
            #[trigger] first_step_hit(es, query, start, forward, k) && r == step_slot(
                start,
                k,
                es.len() as int,
                forward,
            )
    } else {
        r == selected
    }
}

/// Where a repeated search downwards starts: the entry after the selection.
pub open spec fn next_search_start(selected: int, len: int) -> int {
    (selected + 1) % len
}

/// Where a repeated search upwards starts: the entry before the selection,
/// or the last one from the top.
pub open spec fn previous_search_start(selected: int, len: int) -> int {
    if selected == 0 {
        len - 1
    } else {
        selected - 1
    }
}

/// Moving down and then up again comes back to the same entry, and so does
/// moving up and then down.
pub proof fn lemma_next_previous_inverse(selected: int, len: int)
    requires
        0 <= selected < len,
    ensures
        previous_index(next_index(selected, len), len) == selected,
        next_index(previous_index(selected, len), len) == selected,
{
    if selected + 1 < len {
        assert((selected + 1) % len == selected + 1) by (nonlinear_arith)
            requires
                0 <= selected + 1 < len,
        ;
    } else {
        assert((selected + 1) % len == 0) by (nonlinear_arith)
            requires
                selected + 1 == len,
                len > 0,
        ;
    }
    if selected == 0 {
        assert(len % len == 0) by (nonlinear_arith)
            requires
                len > 0,
        ;
    } else {
        assert(selected % len == selected) by (nonlinear_arith)
            requires
                0 <= selected < len,
        ;
    }
}

/// Every move keeps a selection that lies in the list inside it.
pub proof fn lemma_moves_stay_in_list(selected: int, len: int)
    requires
        0 <= selected < len,
    ensures
        0 <= previous_index(selected, len) < len,
        0 <= next_index(selected, len) < len,
        0 <= page_up_index(selected, len) < len,
        0 <= page_down_index(selected, len) < len,
{
    assert(0 <= (selected + 1) % len < len) by (nonlinear_arith)
        requires
            len > 0,
    ;
}

/// A jump after the query changed lands on an entry of the list whenever
/// the selection was in it.
pub proof fn lemma_jump_stays_in_list(
    es: Seq<PlaylistEntry>,
    selected: int,
    query: Seq<char>,
    single: bool,
    r: int,
)
    requires
        0 <= selected < es.len(),
        jump_result(es, selected, query, single, r),
    ensures
        0 <= r < es.len(),
{
}

/// A repeated search, in either direction, lands on an entry of the list
/// whenever the selection was in it.
pub proof fn lemma_step_stays_in_list(
    es: Seq<PlaylistEntry>,
    selected: int,
    query: Seq<char>,
    forward: bool,
    r: int,
)
    requires
        0 <= selected < es.len(),
        step_result(
            es,
            query,
            if forward {
                next_search_start(selected, es.len() as int)
            } else {
                previous_search_start(selected, es.len() as int)
            },
            forward,
            selected,
            r,
        ),
    ensures
        0 <= r < es.len(),
{
    let len = es.len() as int;
    let start = if forward {
        next_search_start(selected, len)
    } else {
        previous_search_start(selected, len)
    };
    assert(0 <= (selected + 1) % len < len) by (nonlinear_arith)
        requires
            len > 0,
    ;
    if exists|k: int|
        0 <= k < len && #[trigger] es[step_slot(start, k, len, forward)].matches(query) {
        let k = choose|k: int|
            #[trigger] first_step_hit(es, query, start, forward, k) && r == step_slot(
                start,
                k,
                len,
                forward,
            );
        assert(first_step_hit(es, query, start, forward, k));
    }
}

/// Lexicographic order on byte strings: `a` sorts before `b`.
pub open spec fn bytes_less(a: Seq<u8>, b: Seq<u8>) -> bool
    decreases a.len(),
{
    if b.len() == 0 {
        false
    } else if a.len() == 0 {
        true
    } else if a[0] < b[0] {
        true
    } else if a[0] > b[0] {
        false
    } else {
        bytes_less(a.drop_first(), b.drop_first())
    }
}

/// Whether `a` sorts before `b`, their UTF-8 bytes compared
/// lexicographically (the order of `<` on text).
pub(crate) fn text_less(a: &str, b: &str) -> (r: bool)
    ensures
        r == bytes_less(vstd::utf8::encode_utf8(a@), vstd::utf8::encode_utf8(b@)),
{
    let x = a.as_bytes();
    let y = b.as_bytes();
    assert(x@.subrange(0, x@.len() as int) =~= x@);
    assert(y@.subrange(0, y@.len() as int) =~= y@);
    let mut i: usize = 0;
    while i < x.len() && i < y.len()
        invariant
            i <= x@.len(),
            i <= y@.len(),
            x@ == vstd::utf8::encode_utf8(a@),
            y@ == vstd::utf8::encode_utf8(b@),
            bytes_less(x@, y@) == bytes_less(
                x@.subrange(i as int, x@.len() as int),
                y@.subrange(i as int, y@.len() as int),
            ),
        decreases x@.len() - i,
    {
        let ghost xs = x@.subrange(i as int, x@.len() as int);
        let ghost ys = y@.subrange(i as int, y@.len() as int);
        if x[i] != y[i] {
            assert(xs[0] == x@[i as int] && ys[0] == y@[i as int]);
            return x[i] < y[i];
        }
        assert(xs.drop_first() =~= x@.subrange(i + 1, x@.len() as int));
        assert(ys.drop_first() =~= y@.subrange(i + 1, y@.len() as int));
        i = i + 1;
    }
    i == x.len() && i < y.len()
}

/// The byte order is transitive.
pub(crate) proof fn lemma_bytes_less_transitive(a: Seq<u8>, b: Seq<u8>, c: Seq<u8>)
    requires
        bytes_less(a, b),
        bytes_less(b, c),
    ensures
        bytes_less(a, c),
    decreases a.len(),
{
    if a.len() > 0 && b.len() > 0 && c.len() > 0 && a[0] == b[0] && b[0] == c[0] {
        lemma_bytes_less_transitive(a.drop_first(), b.drop_first(), c.drop_first());
    }
}

/// Whatever `b` is, a pair in byte order has `b` above the first or below
/// the second.
pub(crate) proof fn lemma_bytes_less_split(a: Seq<u8>, b: Seq<u8>, c: Seq<u8>)
    requires
        bytes_less(a, c),
    ensures
        bytes_less(a, b) || bytes_less(b, c),
    decreases a.len(),
{
    if a.len() > 0 && b.len() > 0 && c.len() > 0 && a[0] == b[0] && b[0] == c[0] {
        lemma_bytes_less_split(a.drop_first(), b.drop_first(), c.drop_first());
    }
}

/// The key by which a scanned list is ordered: the UTF-8 bytes of the
/// lower-cased list line.
pub open spec fn sort_key(e: PlaylistEntry) -> Seq<u8> {
    vstd::utf8::encode_utf8(lowercase(e.display_text()))
}

/// Entry `a` of `es` comes before entry `b` in a sorted list: its key is
/// smaller, or the keys are equal and it came first.
pub open spec fn listed_before(es: Seq<PlaylistEntry>, a: int, b: int) -> bool {
    ||| bytes_less(sort_key(es[a]), sort_key(es[b]))
    ||| (!bytes_less(sort_key(es[b]), sort_key(es[a])) && a < b)
}

/// `ids` lists every index of `es` once, in sorted order.
pub open spec fn is_list_order(es: Seq<PlaylistEntry>, ids: Seq<int>) -> bool {
    &&& ids.len() == es.len()
    &&& forall|t: int| 0 <= t < ids.len() ==> 0 <= #[trigger] ids[t] < es.len()
    &&& forall|s: int, t: int| 0 <= s < t < ids.len() ==> #[trigger] ids[s] != #[trigger] ids[t]
    &&& forall|s: int, t: int|
        0 <= s < t < ids.len() ==> listed_before(es, #[trigger] ids[s], #[trigger] ids[t])
}

/// The list of songs, the selected one and the type-ahead query.
pub struct Playlist {
    /// All entries, in list order.
    pub entries: Vec<PlaylistEntry>,
    /// Index of the selected entry.
    pub selected: usize,
    /// Current type-ahead query.
    pub search_query: String,
}

impl Playlist {
    /// `q` is this list with the same entries and query and the selection
    /// at `selected`.
    pub open spec fn moved_to(self, q: Playlist, selected: int) -> bool {
        &&& q.entries@ == self.entries@
        &&& q.search_query@ == self.search_query@
        &&& q.selected == selected
    }

    /// `q` is this list with the query cleared.
    pub open spec fn cleared_to(self, q: Playlist) -> bool {
        &&& q.entries@ == self.entries@
        &&& q.selected == self.selected
        &&& q.search_query@.len() == 0
    }

    /// `q` is this list after typing `c`: the query grows by `c` and the
    /// selection jumps to what the new query finds.
    pub open spec fn appended_to(self, c: char, q: Playlist) -> bool {
        &&& q.entries@ == self.entries@
        &&& q.search_query@ == self.search_query@.push(c)
        &&& jump_result(
            self.entries@,
            self.selected as int,
            lowercase(q.search_query@),
            vstd::utf8::encode_utf8(q.search_query@).len() as usize == 1,
            q.selected as int,
        )
    }

    /// `q` is this list after a backspace: the query loses its last
    /// character and, if some query is left, the selection jumps to what it
    /// finds.
    pub open spec fn backspaced_to(self, q: Playlist) -> bool {
        &&& q.entries@ == self.entries@
        &&& q.search_query@ == (if self.search_query@.len() == 0 {
            self.search_query@
        } else {
            self.search_query@.drop_last()
        })
        &&& q.search_query@.len() == 0 ==> q.selected == self.selected
        &&& q.search_query@.len() > 0 ==> jump_result(
            self.entries@,
            self.selected as int,
            lowercase(q.search_query@),
            vstd::utf8::encode_utf8(q.search_query@).len() as usize == 1,
            q.selected as int,
        )
    }

    /// `q` is this list after a repeated search downwards (`forward`) or
    /// upwards: nothing moves without a query or entries; otherwise the
    /// selection goes to the next match in that direction, wrapping around.
    pub open spec fn searched_to(self, forward: bool, q: Playlist) -> bool {
        &&& q.entries@ == self.entries@
        &&& q.search_query@ == self.search_query@
        &&& (self.search_query@.len() == 0 || self.entries@.len() == 0) ==> q.selected
            == self.selected
        &&& (self.search_query@.len() > 0 && self.entries@.len() > 0) ==> step_result(
            self.entries@,
            lowercase(self.search_query@),
            if forward {
                next_search_start(self.selected as int, self.entries@.len() as int)
            } else {
                previous_search_start(self.selected as int, self.entries@.len() as int)
            },
            forward,
            self.selected as int,
            q.selected as int,
        )
    }
}

impl Default for Playlist {
    fn default() -> (p: Self)
        ensures
            p.entries@.len() == 0,
            p.selected == 0,
            p.search_query@.len() == 0,
    {
        Playlist { entries: Vec::new(), selected: 0, search_query: String::new() }
    }
}

impl Playlist {
    /// A playlist of `entries` in the given order, with the first selected
    /// and no query.
    pub fn from_entries(entries: Vec<PlaylistEntry>) -> (p: Self)
        ensures
            p.entries@ == entries@,
            p.selected == 0,
            p.search_query@.len() == 0,
    {
        Playlist { entries, selected: 0, search_query: String::new() }
    }

    /// A playlist of scanned `entries`, sorted by their lower-cased list
    /// line (entries with equal lines keep their order), with the first
    /// selected and no query.
    pub fn from_scanned(entries: Vec<PlaylistEntry>) -> (p: Self)
        ensures
            p.entries@.len() == entries@.len(),
            exists|ids: Seq<int>|
                is_list_order(entries@, ids) && forall|t: int|
                    0 <= t < ids.len() ==> #[trigger] p.entries@[t] == entries@[ids[t]],
            p.selected == 0,
            p.search_query@.len() == 0,
    {
        let ghost orig = entries@;
        let n = entries.len();
        let mut input = entries;
        let mut out: Vec<PlaylistEntry> = Vec::new();
        let mut keys: Vec<String> = Vec::new();
        let ghost mut ids: Seq<int> = Seq::empty();
        let mut i: usize = 0;
        while i < n
            invariant
                i <= n,
                n == orig.len(),
                input@ == orig.subrange(i as int, n as int),
                out@.len() == i,
                keys@.len() == i,
                ids.len() == i,
                forall|t: int| 0 <= t < i ==> 0 <= #[trigger] ids[t] < i,
                forall|s: int, t: int| 0 <= s < t < i ==> #[trigger] ids[s] != #[trigger] ids[t],
                forall|s: int, t: int|
                    0 <= s < t < i ==> listed_before(orig, #[trigger] ids[s], #[trigger] ids[t]),
                forall|t: int| 0 <= t < i ==> #[trigger] out@[t] == orig[ids[t]],
                forall|t: int|
                    0 <= t < i ==> vstd::utf8::encode_utf8(#[trigger] keys@[t]@) == sort_key(
                        orig[ids[t]],
                    ),
            decreases n - i,
        {
            let e = input.remove(0);
            assert(e == orig[i as int]);
            let key = to_lowercase(e.display_string().as_str());
            let mut j = out.len();
            while j > 0 && text_less(key.as_str(), keys[j - 1].as_str())
                invariant
                    j <= i,
                    keys@.len() == i,
                    vstd::utf8::encode_utf8(key@) == sort_key(orig[i as int]),
                    forall|t: int|
                        0 <= t < i ==> vstd::utf8::encode_utf8(#[trigger] keys@[t]@) == sort_key(
                            orig[ids[t]],
                        ),
                    forall|t: int|
                        j <= t < i ==> bytes_less(sort_key(orig[i as int]), sort_key(orig[#[trigger] ids[t]])),
                decreases j,
            {
                j = j - 1;
            }
            proof {
                let ghost new_ids = ids.insert(j as int, i as int);
                if j > 0 {
                    assert(!bytes_less(sort_key(orig[i as int]), sort_key(orig[ids[j - 1]])));
                }
                assert forall|s: int, t: int| 0 <= s < t < i + 1 implies listed_before(
                    orig,
                    #[trigger] new_ids[s],
                    #[trigger] new_ids[t],
                ) by {
                    if t < j {
                        assert(new_ids[s] == ids[s] && new_ids[t] == ids[t]);
                    } else if t == j {
                        let x = ids[s];
                        let y = ids[j - 1];
                        assert(new_ids[s] == x);
                        assert(new_ids[t] == i);
                        if s < j - 1 {
                            assert(listed_before(orig, x, y));
                            if bytes_less(sort_key(orig[i as int]), sort_key(orig[x])) {
                                if bytes_less(sort_key(orig[x]), sort_key(orig[y])) {
                                    lemma_bytes_less_transitive(
                                        sort_key(orig[i as int]),
                                        sort_key(orig[x]),
                                        sort_key(orig[y]),
                                    );
                                } else {
                                    lemma_bytes_less_split(
                                        sort_key(orig[i as int]),
                                        sort_key(orig[y]),
                                        sort_key(orig[x]),
                                    );
                                }
                            }
                        }
                    } else if s < j {
                        assert(new_ids[s] == ids[s] && new_ids[t] == ids[t - 1]);
                    } else if s == j {
                        assert(new_ids[s] == i && new_ids[t] == ids[t - 1]);
                    } else {
                        assert(new_ids[s] == ids[s - 1] && new_ids[t] == ids[t - 1]);
                    }
                }
                ids = new_ids;
            }
            out.insert(j, e);
            keys.insert(j, key);
            i = i + 1;
        }
        assert(is_list_order(orig, ids));
        let p = Playlist { entries: out, selected: 0, search_query: String::new() };
        assert(forall|t: int| 0 <= t < ids.len() ==> #[trigger] p.entries@[t] == orig[ids[t]]);
        p
    }

    /// Whether the list has no entry.
    pub fn is_empty(&self) -> (b: bool)
        ensures
            b == (self.entries@.len() == 0),
    {
        self.entries.len() == 0
    }

    /// Number of entries.
    pub fn len(&self) -> (n: usize)
        ensures
            n == self.entries@.len(),
    {
        self.entries.len()
    }

    /// Moves the selection up, wrapping from the first entry to the last.
    pub fn select_previous(&mut self)
        ensures
            old(self).moved_to(*final(self), previous_index(old(self).selected as int, old(self).entries@.len() as int)),
    {
        if self.entries.len() > 0 {
            if self.selected == 0 {
                self.selected = self.entries.len() - 1;
            } else {
                self.selected = self.selected - 1;
            }
        }
    }

    /// Moves the selection down, wrapping from the last entry to the first.
    pub fn select_next(&mut self)
        requires
            old(self).entries@.len() == 0 || old(self).selected < usize::MAX,
        ensures
            old(self).moved_to(*final(self), next_index(old(self).selected as int, old(self).entries@.len() as int)),
    {
        if self.entries.len() > 0 {
            self.selected = (self.selected + 1) % self.entries.len();
        }
    }

    /// Moves the selection ten entries up, stopping at the first.
    pub fn page_up(&mut self)
        ensures
            old(self).moved_to(*final(self), page_up_index(old(self).selected as int, old(self).entries@.len() as int)),
    {
        if self.entries.len() > 0 {
            self.selected = if self.selected >= PAGE_STEP {
                self.selected - PAGE_STEP
            } else {
                0
            };
        }
    }

    /// Moves the selection ten entries down, stopping at the last.
    pub fn page_down(&mut self)
        requires
            old(self).entries@.len() == 0 || old(self).selected + PAGE_STEP <= usize::MAX,
        ensures
            old(self).moved_to(*final(self), page_down_index(old(self).selected as int, old(self).entries@.len() as int)),
    {
        if self.entries.len() > 0 {
            let last = self.entries.len() - 1;
            let moved = self.selected + PAGE_STEP;
            self.selected = if moved <= last {
                moved
            } else {
                last
            };
        }
    }

    /// The selected entry, if the selection lies in the list.
    pub fn selected_entry(&self) -> (r: Option<&PlaylistEntry>)
        ensures
            self.selected < self.entries@.len() ==> r == Some(&self.entries@[self.selected as int]),
            self.selected >= self.entries@.len() ==> r is None,
    {
        if self.selected < self.entries.len() {
            Some(&self.entries[self.selected])
        } else {
            None
        }
    }

    /// Path of the selected entry, if the selection lies in the list.
    pub fn selected_path(&self) -> (r: Option<&str>)
        ensures
            self.selected < self.entries@.len() ==> (r matches Some(p) && p@
                == self.entries@[self.selected as int].path@),
            self.selected >= self.entries@.len() ==> r is None,
    {
        match self.selected_entry() {
            Some(e) => Some(e.path.as_str()),
            None => None,
        }
    }

    /// Whether a type-ahead query is being typed.
    pub fn is_searching(&self) -> (b: bool)
        ensures
            b == (self.search_query@.len() > 0),
    {
        !self.search_query.as_str().is_empty()
    }

    /// The current type-ahead query.
    pub fn search_query(&self) -> (q: &str)
        ensures
            q@ == self.search_query@,
    {
        self.search_query.as_str()
    }

    /// Clears the type-ahead query.
    pub fn search_clear(&mut self)
        ensures
            old(self).cleared_to(*final(self)),
    {
        self.search_query = String::new();
    }
    /// First entry in `lo..hi` found by `query_lower`.
    fn find_first(&self, query_lower: &str, by_prefix: bool, lo: usize, hi: usize) -> (r: Option<
        usize,
    >)
        requires
            lo <= hi <= self.entries@.len(),
        ensures
            r matches Some(i) ==> first_hit(
                self.entries@,
                query_lower@,
                by_prefix,
                lo as int,
                hi as int,
                i as int,
            ),
            r is None ==> !any_hit(self.entries@, query_lower@, by_prefix, lo as int, hi as int),
    {
        let mut i = lo;
        while i < hi
            invariant
                lo <= i <= hi <= self.entries@.len(),
                forall|j: int| lo <= j < i ==> !#[trigger] hit(self.entries@[j], query_lower@, by_prefix),
            decreases hi - i,
        {
            let found = if by_prefix {
                self.entries[i].line_starts_with(query_lower)
            } else {
                self.entries[i].matches_query(query_lower)
            };
            if found {
                return Some(i);
            }
            i = i + 1;
        }
        None
    }

    /// Moves the selection to the entry that the current query finds.
    fn jump_to_search_match(&mut self)
        ensures
            final(self).entries@ == old(self).entries@,
            final(self).search_query@ == old(self).search_query@,
            old(self).search_query@.len() == 0 ==> final(self).selected == old(self).selected,
            old(self).search_query@.len() > 0 ==> jump_result(
                old(self).entries@,
                old(self).selected as int,
                lowercase(old(self).search_query@),
                vstd::utf8::encode_utf8(old(self).search_query@).len() as usize == 1,
                final(self).selected as int,
            ),
    {
        if self.search_query.as_str().is_empty() || self.entries.len() == 0 {
            return;
        }
        let query_lower = to_lowercase(self.search_query.as_str());
        let q = query_lower.as_str();
        let len = self.entries.len();
        let is_single_char = self.search_query.as_str().len() == 1;
        assert(is_single_char == (vstd::utf8::encode_utf8(self.search_query@).len() as usize == 1));
        if is_single_char {
            if let Some(i) = self.find_first(q, true, 0, len) {
                assert(hit(self.entries@[i as int], q@, true));
                self.selected = i;
                return;
            }
        }
        let lo = if self.selected < len {
            self.selected
        } else {
            len
        };
        if let Some(i) = self.find_first(q, false, lo, len) {
            self.selected = i;
            return;
        }
        if let Some(i) = self.find_first(q, false, 0, lo) {
            self.selected = i;
        }
    }

    /// Adds a character to the query and jumps to the entry it finds.
    pub fn search_append(&mut self, c: char)
        ensures
            old(self).appended_to(c, *final(self)),
    {
        push_char(&mut self.search_query, c);
        self.jump_to_search_match();
    }

    /// Removes the last character of the query and, while the query is not
    /// empty, jumps to the entry it finds.
    pub fn search_backspace(&mut self)
        ensures
            old(self).backspaced_to(*final(self)),
    {
        let _ = pop_char(&mut self.search_query);
        if !self.search_query.as_str().is_empty() {
            self.jump_to_search_match();
        }
    }

    /// Jumps to the next entry, after the selection and wrapping to the
    /// top, that matches the query.
    pub fn search_next(&mut self)
        requires
            old(self).search_query@.len() == 0 || old(self).entries@.len() == 0
                || old(self).selected < usize::MAX,
        ensures
            old(self).searched_to(true, *final(self)),
    {
        if self.search_query.as_str().is_empty() || self.entries.len() == 0 {
            return;
        }
        let query_lower = to_lowercase(self.search_query.as_str());
        let q = query_lower.as_str();
        let len = self.entries.len();
        let start = (self.selected + 1) % len;
        let ghost es = self.entries@;
        let mut k: usize = 0;
        while k < len
            invariant
                k <= len,
                len == es.len(),
                self.entries@ == es,
                es == old(self).entries@,
                self.search_query@ == old(self).search_query@,
                self.selected == old(self).selected,
                q@ == lowercase(old(self).search_query@),
                old(self).search_query@.len() > 0,
                start == next_search_start(old(self).selected as int, len as int),
                start < len,
                forall|j: int|
                    0 <= j < k ==> !#[trigger] es[step_slot(start as int, j, len as int, true)].matches(
                        q@,
                    ),
            decreases len - k,
        {
            let idx = if k < len - start {
                start + k
            } else {
                k - (len - start)
            };
            assert(idx == step_slot(start as int, k as int, len as int, true));
            if self.entries[idx].matches_query(q) {
                self.selected = idx;
                assert(first_step_hit(es, q@, start as int, true, k as int));
                return;
            }
            k = k + 1;
        }
    }

    /// Jumps to the previous entry, before the selection and wrapping to the
    /// bottom, that matches the query.
    pub fn search_previous(&mut self)
        requires
            old(self).search_query@.len() == 0 || old(self).entries@.len() == 0
                || old(self).selected <= old(self).entries@.len(),
        ensures
            old(self).searched_to(false, *final(self)),
    {
        if self.search_query.as_str().is_empty() || self.entries.len() == 0 {
            return;
        }
        let query_lower = to_lowercase(self.search_query.as_str());
        let q = query_lower.as_str();
        let len = self.entries.len();
        let start = if self.selected == 0 {
            len - 1
        } else {
            self.selected - 1
        };
        let ghost es = self.entries@;
        let mut k: usize = 0;
        while k < len
            invariant
                k <= len,
                len == es.len(),
                self.entries@ == es,
                es == old(self).entries@,
                self.search_query@ == old(self).search_query@,
                self.selected == old(self).selected,
                q@ == lowercase(old(self).search_query@),
                old(self).search_query@.len() > 0,
                start == previous_search_start(old(self).selected as int, len as int),
                start < len,
                forall|j: int|
                    0 <= j < k ==> !#[trigger] es[step_slot(start as int, j, len as int, false)].matches(
                        q@,
                    ),
            decreases len - k,
        {
            let idx = if k <= start {
                start - k
            } else {
                len - (k - start)
            };
            assert(idx == step_slot(start as int, k as int, len as int, false));
            if self.entries[idx].matches_query(q) {
                self.selected = idx;
                assert(first_step_hit(es, q@, start as int, false, k as int));
                return;
            }
            k = k + 1;
        }
    }
}

} // verus!
