use vstd::prelude::*;
use crate::config::{HistoryConfig, HistoryMode};
use crate::upload::copy_opt;

verus! {

/// Largest number of rows a search returns.
pub const SEARCH_LIMIT: usize = 100;

/// One recorded upload.
#[derive(Debug, Clone)]
pub struct HistoryEntry {
    /// Store-assigned identifier; 0 before the row is stored.
    pub id: i64,
    pub filename: String,
    pub remote_path: String,
    pub url: Option<String>,
    pub destination: String,
    pub size: usize,
    /// Creation time, in milliseconds since the Unix epoch (UTC).
    pub created_at: i64,
    pub thumbnail_path: Option<String>,
    pub local_copy_path: Option<String>,
}

impl HistoryEntry {
    /// A field-for-field copy.
    pub fn duplicate(&self) -> (r: Self)
        ensures
            r == *self,
    {
        HistoryEntry {
            id: self.id,
            filename: self.filename.clone(),
            remote_path: self.remote_path.clone(),
            url: copy_opt(&self.url),
            destination: self.destination.clone(),
            size: self.size,
            created_at: self.created_at,
            thumbnail_path: copy_opt(&self.thumbnail_path),
            local_copy_path: copy_opt(&self.local_copy_path),
        }
    }
}

/// The character a file name keeps in place of `c`: path-hostile characters become `_`.
pub open spec fn safe_char(c: char) -> char {
    if c == '/' || c == '\\' || c == ':' || c == '*' || c == '?' || c == '"' || c == '<' || c == '>' || c == '|' {
        '_'
    } else {
        c
    }
}

/// `s` with every path-hostile character replaced by `_`.
pub open spec fn sanitized(s: Seq<char>) -> Seq<char> {
    s.map_values(|c: char| safe_char(c))
}

/// Replaces the characters `/ \ : * ? " < > |` with `_`.
pub fn sanitize_filename(filename: &str) -> (r: String)
    ensures
        r@ == sanitized(filename@),
{
    let len = filename.unicode_len();
    let mut out = String::new();
    let mut i: usize = 0;
    while i < len
        invariant
            i <= len,
            len == filename@.len(),
            out@ == sanitized(filename@.subrange(0, i as int)),
        decreases len - i,
    {
        let c = filename.get_char(i);
        if c == '/' || c == '\\' || c == ':' || c == '*' || c == '?' || c == '"' || c == '<' || c == '>' || c == '|' {
            out.append("_");
            proof { reveal_strlit("_"); }
        } else {
            out.append(filename.substring_char(i, i + 1));
        }
        proof {
            assert(filename@.subrange(0, i + 1) =~= filename@.subrange(0, i as int).push(c));
            assert(out@ =~= sanitized(filename@.subrange(0, i + 1)));
        }
        i = i + 1;
    }
    proof {
        assert(filename@.subrange(0, len as int) =~= filename@);
    }
    out
}

/// File name of the thumbnail saved for an upload called `filename`.
pub fn thumbnail_filename(filename: &str) -> (r: String)
    ensures
        r@ == "thumb_"@ + sanitized(filename@) + ".png"@,
{
    let mut s = String::from_str("thumb_");
    let clean = sanitize_filename(filename);
    s.append(clean.as_str());
    s.append(".png");
    s
}

/// What an insertion stores besides the row.
#[derive(Debug, Clone, Copy, PartialEq, Eq, Structural)]
pub struct StoragePlan {
    /// Nothing at all is stored: history is disabled.
    pub skip: bool,
    pub save_thumbnail: bool,
    pub save_full_copy: bool,
}

/// What to store for a new row: nothing when history is disabled; with
/// image bytes, a thumbnail in `thumbnails` and `full` modes and a verbatim
/// copy in `full` mode.
pub fn storage_plan(config: &HistoryConfig, has_image: bool) -> (r: StoragePlan)
    ensures
        r.skip == !config.enabled,
        r.save_thumbnail == (config.enabled && has_image && config.mode != HistoryMode::Metadata),
        r.save_full_copy == (config.enabled && has_image && config.mode == HistoryMode::Full),
{
    if !config.enabled {
        return StoragePlan { skip: true, save_thumbnail: false, save_full_copy: false };
    }
    match config.mode {
        HistoryMode::Metadata => StoragePlan { skip: false, save_thumbnail: false, save_full_copy: false },
        HistoryMode::Thumbnails => StoragePlan { skip: false, save_thumbnail: has_image, save_full_copy: false },
        HistoryMode::Full => StoragePlan { skip: false, save_thumbnail: has_image, save_full_copy: has_image },
    }
}

/// The rows retention removes from rows ordered newest first: all beyond
/// the newest `max_entries`; none when `max_entries` is 0 (unbounded).
pub open spec fn evicted<T>(rows: Seq<T>, max_entries: nat) -> Seq<T> {
    if max_entries == 0 || rows.len() <= max_entries {
        Seq::empty()
    } else {
        rows.subrange(max_entries as int, rows.len() as int)
    }
}

/// The rows that remain after retention.
pub open spec fn retained<T>(rows: Seq<T>, max_entries: nat) -> Seq<T> {
    if max_entries == 0 || rows.len() <= max_entries {
        rows
    } else {
        rows.subrange(0, max_entries as int)
    }
}

/// The files that belong to a row.
pub open spec fn row_files(e: HistoryEntry) -> Seq<Seq<char>> {
    let t = match e.thumbnail_path { Some(p) => seq![p@], None => Seq::<Seq<char>>::empty() };
    let l = match e.local_copy_path { Some(p) => seq![p@], None => Seq::<Seq<char>>::empty() };
    t + l
}

/// The files of all the rows, in row order.
pub open spec fn files_of(rows: Seq<HistoryEntry>) -> Seq<Seq<char>>
    decreases rows.len(),
{
    if rows.len() == 0 {
        Seq::empty()
    } else {
        files_of(rows.drop_last()) + row_files(rows.last())
    }
}

/// The rows to evict from `rows` (newest first) under `max_entries`, oldest last.
pub fn eviction_set(rows: &Vec<HistoryEntry>, max_entries: usize) -> (r: Vec<HistoryEntry>)
    ensures
        r@ == evicted(rows@, max_entries as nat),
{
    let mut out: Vec<HistoryEntry> = Vec::new();
    if max_entries == 0 || rows.len() <= max_entries {
        return out;
    }
    let mut i: usize = max_entries;
    while i < rows.len()
        invariant
            max_entries <= i <= rows@.len(),
            out@ == rows@.subrange(max_entries as int, i as int),
        decreases rows@.len() - i,
    {
        out.push(rows[i].duplicate());
        proof {
            assert(out@ =~= rows@.subrange(max_entries as int, i + 1));
        }
        i = i + 1;
    }
    out
}

/// The thumbnail and local-copy files of `rows`, which are deleted with them.
pub fn files_to_remove(rows: &Vec<HistoryEntry>) -> (r: Vec<String>)
    ensures
        crate::keychain::texts_view(r@) == files_of(rows@),
{
    let mut out: Vec<String> = Vec::new();
    let mut i: usize = 0;
    while i < rows.len()
        invariant
            i <= rows@.len(),
            crate::keychain::texts_view(out@) == files_of(rows@.subrange(0, i as int)),
        decreases rows@.len() - i,
    {
        let ghost before = crate::keychain::texts_view(out@);
        proof {
            assert(rows@.subrange(0, i + 1).drop_last() =~= rows@.subrange(0, i as int));
        }
        match &rows[i].thumbnail_path {
            Some(p) => out.push(p.clone()),
            None => {},
        }
        match &rows[i].local_copy_path {
            Some(p) => out.push(p.clone()),
            None => {},
        }
        proof {
            assert(crate::keychain::texts_view(out@) =~= before + row_files(rows@[i as int]));
        }
        i = i + 1;
    }
    proof {
        assert(rows@.subrange(0, rows@.len() as int) =~= rows@);
    }
    out
}

/// Running retention on what retention left removes nothing more.
pub proof fn lemma_cleanup_idempotent<T>(rows: Seq<T>, max_entries: nat)
    ensures
        evicted(retained(rows, max_entries), max_entries).len() == 0,
{
}

/// After retention on more than `max_entries` rows (a bound other than 0),
/// exactly `max_entries` remain, the evicted rows are the oldest ones, and
/// together with those kept they make up all the rows.
pub proof fn lemma_retention_bound<T>(rows: Seq<T>, max_entries: nat)
    requires
        max_entries > 0,
        rows.len() > max_entries,
    ensures
        retained(rows, max_entries).len() == max_entries,
        evicted(rows, max_entries).len() == rows.len() - max_entries,
        retained(rows, max_entries) + evicted(rows, max_entries) == rows,
{
    assert(retained(rows, max_entries) + evicted(rows, max_entries) =~= rows);
}

/// Whether `needle` occurs in `hay` at position `i`.
pub open spec fn occurs_at(hay: Seq<char>, needle: Seq<char>, i: int) -> bool {
    0 <= i && i + needle.len() <= hay.len() && hay.subrange(i, i + needle.len()) == needle
}

/// Whether `needle` occurs anywhere in `hay` (case-sensitive).
pub open spec fn has_substring(hay: Seq<char>, needle: Seq<char>) -> bool {
    exists|i: int| occurs_at(hay, needle, i)
}

/// Whether `needle` occurs in `hay`, comparing characters exactly.
pub fn contains_text(hay: &str, needle: &str) -> (r: bool)
    ensures
        r == has_substring(hay@, needle@),
{
    let h = hay.unicode_len();
    let n = needle.unicode_len();
    if n > h {
        proof {
            assert forall|i: int| !occurs_at(hay@, needle@, i) by {}
        }
        return false;
    }
    let mut i: usize = 0;
    while i <= h - n
        invariant
            h == hay@.len(),
            n == needle@.len(),
            n <= h,
            i <= h - n + 1,
            forall|k: int| 0 <= k < i ==> !occurs_at(hay@, needle@, k),
        decreases h - n + 1 - i,
    {
        let mut j: usize = 0;
        let mut same = true;
        while j < n
            invariant
                h == hay@.len(),
                n == needle@.len(),
                i + n <= h,
                j <= n,
                same == (forall|m: int| 0 <= m < j ==> hay@[i + m] == needle@[m]),
            decreases n - j,
        {
            if hay.get_char(i + j) != needle.get_char(j) {
                same = false;
            }
            j = j + 1;
        }
        if same {
            proof {
                assert(hay@.subrange(i as int, i + n) =~= needle@);
                assert(occurs_at(hay@, needle@, i as int));
            }
            return true;
        }
        proof {
            assert(!occurs_at(hay@, needle@, i as int)) by {
                if occurs_at(hay@, needle@, i as int) {
                    assert forall|m: int| 0 <= m < n implies hay@[i + m] == needle@[m] by {
                        assert(hay@.subrange(i as int, i + n)[m] == hay@[i + m]);
                    }
                }
            }
        }
        i = i + 1;
    }
    proof {
        assert forall|k: int| !occurs_at(hay@, needle@, k) by {
            if 0 <= k && k < i {
            }
        }
    }
    false
}

/// A row matches a query when its file name or URL contains it.
pub open spec fn matches_query(e: HistoryEntry, query: Seq<char>) -> bool {
    has_substring(e.filename@, query) || (e.url matches Some(u) && has_substring(u@, query))
}

/// The rows of `entries` that match `query`, in order, up to `limit`.
pub open spec fn search_result(entries: Seq<HistoryEntry>, query: Seq<char>, limit: nat) -> Seq<HistoryEntry>
    decreases entries.len(),
{
    if entries.len() == 0 {
        Seq::empty()
    } else {
        let before = search_result(entries.drop_last(), query, limit);
        if before.len() < limit && matches_query(entries.last(), query) {
            before.push(entries.last())
        } else {
            before
        }
    }
}

proof fn lemma_search_limit(entries: Seq<HistoryEntry>, query: Seq<char>, limit: nat)
    ensures
        search_result(entries, query, limit).len() <= limit,
    decreases entries.len(),
{
    if entries.len() > 0 {
        lemma_search_limit(entries.drop_last(), query, limit);
    }
}

/// Case-sensitive search over `entries` (newest first) by file name or URL,
/// at most 100 results.
pub fn search_entries(entries: &Vec<HistoryEntry>, query: &str) -> (r: Vec<HistoryEntry>)
    ensures
        r@ == search_result(entries@, query@, SEARCH_LIMIT as nat),
        r@.len() <= SEARCH_LIMIT,
{
    let mut out: Vec<HistoryEntry> = Vec::new();
    let mut i: usize = 0;
    while i < entries.len()
        invariant
            i <= entries@.len(),
            out@ == search_result(entries@.subrange(0, i as int), query@, SEARCH_LIMIT as nat),
        decreases entries@.len() - i,
    {
        proof {
            assert(entries@.subrange(0, i + 1).drop_last() =~= entries@.subrange(0, i as int));
            lemma_search_limit(entries@.subrange(0, i as int), query@, SEARCH_LIMIT as nat);
        }
        if out.len() < SEARCH_LIMIT {
            let e = &entries[i];
            let hit = contains_text(e.filename.as_str(), query) || match &e.url {
                Some(u) => contains_text(u.as_str(), query),
                None => false,
            };
            if hit {
                out.push(e.duplicate());
            }
        }
        i = i + 1;
    }
    proof {
        assert(entries@.subrange(0, entries@.len() as int) =~= entries@);
        lemma_search_limit(entries@, query@, SEARCH_LIMIT as nat);
    }
    out
}

} // verus!
