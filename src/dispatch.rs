use vstd::prelude::*;
use crate::config::{ClipboardCopyMode, Config, UploadConfig, is_absent, is_first_match};
use crate::error::SnaptoError;
use crate::keychain::texts_view;
use crate::history::HistoryEntry;
use crate::upload::{AnyUploader, UploadResult, built_from, create_uploader, kind_is_known, ssh_config_ok};
use crate::config::is_remote_kind;

verus! {

/// The ordered destination list of a dispatch: the primary, then each
/// additional destination not already in the list.
pub open spec fn destination_list(primary: Seq<char>, additional: Seq<Seq<char>>) -> Seq<Seq<char>>
    decreases additional.len(),
{
    if additional.len() == 0 {
        seq![primary]
    } else {
        let acc = destination_list(primary, additional.drop_last());
        if acc.contains(additional.last()) {
            acc
        } else {
            acc.push(additional.last())
        }
    }
}

/// Builds the ordered, duplicate-free destination list. Additional
/// destinations are used only when no destination was named explicitly.
pub fn build_destination_list(primary: &String, explicit: bool, additional: &Vec<String>) -> (r: Vec<String>)
    ensures
        explicit ==> texts_view(r@) == seq![primary@],
        !explicit ==> texts_view(r@) == destination_list(primary@, texts_view(additional@)),
{
    let mut names: Vec<String> = Vec::new();
    names.push(primary.clone());
    proof {
        assert(texts_view(names@) =~= seq![primary@]);
    }
    if explicit {
        return names;
    }
    let ghost add = texts_view(additional@);
    let mut i: usize = 0;
    while i < additional.len()
        invariant
            i <= additional@.len(),
            add == texts_view(additional@),
            texts_view(names@) == destination_list(primary@, add.subrange(0, i as int)),
        decreases additional@.len() - i,
    {
        let ghost before = texts_view(names@);
        proof {
            assert(add.subrange(0, i + 1).drop_last() =~= add.subrange(0, i as int));
            assert(add.subrange(0, i + 1).last() == additional@[i as int]@);
        }
        let mut found = false;
        let mut j: usize = 0;
        while j < names.len()
            invariant
                j <= names@.len(),
                before == texts_view(names@),
                found <==> exists|k: int| 0 <= k < j && names@[k]@ == additional@[i as int]@,
                i < additional@.len(),
            decreases names@.len() - j,
        {
            if names[j] == additional[i] {
                found = true;
            }
            j = j + 1;
        }
        proof {
            if found {
                let k = choose|k: int| 0 <= k < j && names@[k]@ == additional@[i as int]@;
                assert(before[k] == additional@[i as int]@);
                assert(before.contains(additional@[i as int]@));
            } else {
                assert(!before.contains(additional@[i as int]@)) by {
                    if before.contains(additional@[i as int]@) {
                        let k = choose|k: int| 0 <= k < before.len() && before[k] == additional@[i as int]@;
                        assert(names@[k]@ == additional@[i as int]@);
                    }
                }
            }
        }
        if !found {
            names.push(additional[i].clone());
            proof {
                assert(texts_view(names@) =~= before.push(additional@[i as int]@));
            }
        }
        i = i + 1;
    }
    proof {
        assert(add.subrange(0, additional@.len() as int) =~= add);
    }
    names
}

/// The settings of the destination called `name`: its first occurrence.
pub open spec fn entry_of(c: Config, name: Seq<char>) -> Option<UploadConfig> {
    if exists|i: int| is_first_match(c.uploads@, name, i) {
        Some(c.uploads@[choose|i: int| is_first_match(c.uploads@, name, i)].1)
    } else {
        None
    }
}

/// The destination exists and is disabled: a dispatch skips it.
pub open spec fn is_skipped(c: Config, name: Seq<char>) -> bool {
    entry_of(c, name) matches Some(u) && !u.enabled
}

/// Position `j` is passed over by a dispatch: a disabled destination other
/// than the primary one (position 0).
pub open spec fn passes_over(c: Config, names: Seq<Seq<char>>, j: int) -> bool {
    j > 0 && is_skipped(c, names[j])
}

/// `i` is the first position from `from` on that a dispatch does not pass over.
pub open spec fn first_pending(c: Config, names: Seq<Seq<char>>, from: int, i: int) -> bool {
    &&& from <= i < names.len()
    &&& forall|j: int| from <= j < i ==> passes_over(c, names, j)
    &&& !passes_over(c, names, i)
}

/// A dispatch whose primary destination is disabled starts at the primary:
/// by `next_step`, it ends there with `DestinationDisabled`, before any upload.
pub proof fn lemma_disabled_primary_is_pending(c: Config, names: Seq<Seq<char>>)
    requires
        names.len() > 0,
        entry_of(c, names[0]) is Some,
        !entry_of(c, names[0])->Some_0.enabled,
    ensures
        first_pending(c, names, 0, 0),
        forall|step: Option<(usize, AnyUploader)>, fatal: Option<SnaptoError>, next: int, awaiting: bool|
            pending_outcome(c, names[0], 0, step, fatal, next, awaiting) ==> step is None
                && (fatal matches Some(SnaptoError::DestinationDisabled(n)) && n@ == names[0]),
{
}

proof fn lemma_first_pending_unique(c: Config, names: Seq<Seq<char>>, from: int, i: int, k: int)
    requires
        first_pending(c, names, from, i),
        first_pending(c, names, from, k),
    ensures
        i == k,
{
    if i < k {
        assert(passes_over(c, names, i));
    } else if k < i {
        assert(passes_over(c, names, k));
    }
}

/// What a dispatch does at the pending destination `name` (position `i`):
/// `step` is what `next_step` returned, `fatal` the error that ends the
/// dispatch, `next` and `awaiting` the state afterwards.
pub open spec fn pending_outcome(
    c: Config,
    name: Seq<char>,
    i: int,
    step: Option<(usize, AnyUploader)>,
    fatal: Option<SnaptoError>,
    next: int,
    awaiting: bool,
) -> bool {
    let handed_out = step is Some && step->Some_0.0 == i && next == i + 1 && awaiting
        && entry_of(c, name) is Some && built_from(step->Some_0.1, name, entry_of(c, name)->Some_0);
    let config_error = step is None && fatal matches Some(SnaptoError::Config(crate::error::ConfigError::Invalid(_)));
    match entry_of(c, name) {
        None => step is None && (fatal matches Some(SnaptoError::DestinationNotFound(n)) && n@ == name),
        Some(u) => if !u.enabled {
            step is None && (fatal matches Some(SnaptoError::DestinationDisabled(n)) && n@ == name)
        } else if !kind_is_known(u.uploader_type@) {
            config_error
        } else if is_remote_kind(u.uploader_type@) {
            if ssh_config_ok(u) { handed_out } else { config_error }
        } else if u.local_path is None {
            config_error
        } else {
            handed_out || config_error
        },
    }
}

pub(crate) proof fn lemma_entry_of(c: Config, name: Seq<char>, i: int)
    requires
        is_first_match(c.uploads@, name, i),
    ensures
        entry_of(c, name) == Some(c.uploads@[i].1),
{
    let k = choose|k: int| is_first_match(c.uploads@, name, k);
    if k < i {
        assert(c.uploads@[k].0@ != name);
    } else if k > i {
        assert(c.uploads@[i].0@ != name);
    }
}

proof fn lemma_entry_absent(c: Config, name: Seq<char>)
    requires
        is_absent(c.uploads@, name),
    ensures
        entry_of(c, name) is None,
{
}

/// What one destination produced in a dispatch.
#[derive(Debug)]
pub struct DestinationOutcome {
    pub name: String,
    pub result: Result<UploadResult, SnaptoError>,
}

/// The single result of a successful dispatch.
#[derive(Debug)]
pub struct UploadOutcome {
    /// Destination that produced the primary result.
    pub destination: String,
    /// First successful result, by destination order.
    pub primary_result: UploadResult,
    /// Every attempted destination, in order.
    pub results: Vec<DestinationOutcome>,
    /// Disabled destinations that were passed over.
    pub skipped: Vec<String>,
}

/// Names and results of recorded uploads.
pub open spec fn outcomes_view(v: Seq<DestinationOutcome>) -> Seq<(Seq<char>, Result<UploadResult, SnaptoError>)> {
    v.map_values(|o: DestinationOutcome| (o.name@, o.result))
}

/// Drives one dispatch, one destination at a time. The caller asks for the
/// next uploader with `next_step`, performs the upload, reports it with
/// `record`, and calls `finish` once `next_step` returns `None`.
/// A failure of the first destination ends the dispatch with that error;
/// later failures are recorded and the dispatch goes on.
pub struct Dispatcher {
    names: Vec<String>,
    next: usize,
    awaiting: bool,
    primary: Option<(String, UploadResult)>,
    fatal: Option<SnaptoError>,
    results: Vec<DestinationOutcome>,
    skipped: Vec<String>,
}

impl Dispatcher {
    pub closed spec fn spec_names(&self) -> Seq<Seq<char>> {
        texts_view(self.names@)
    }

    /// Position of the next destination to consider.
    pub closed spec fn spec_next(&self) -> int {
        self.next as int
    }

    /// An upload was handed out and its result is not recorded yet.
    pub closed spec fn spec_awaiting(&self) -> bool {
        self.awaiting
    }

    /// The first successful result so far.
    pub closed spec fn spec_primary(&self) -> Option<UploadResult> {
        match self.primary {
            Some(p) => Some(p.1),
            None => None,
        }
    }

    /// The error that ends the dispatch, if one occurred.
    pub closed spec fn spec_fatal(&self) -> Option<SnaptoError> {
        self.fatal
    }

    /// Name of the destination that produced the primary result.
    pub closed spec fn spec_primary_name(&self) -> Option<Seq<char>> {
        match self.primary {
            Some(p) => Some(p.0@),
            None => None,
        }
    }

    /// Every recorded upload, in order: destination name and result.
    pub closed spec fn spec_results(&self) -> Seq<(Seq<char>, Result<UploadResult, SnaptoError>)> {
        outcomes_view(self.results@)
    }

    /// Number of uploads recorded so far.
    pub closed spec fn spec_attempts(&self) -> int {
        self.results@.len() as int
    }

    pub closed spec fn wf(&self) -> bool {
        &&& self.next <= self.names@.len()
        &&& self.awaiting ==> self.next >= 1 && self.fatal is None
    }

    /// Nothing is left to do: `finish` gives the result.
    pub open spec fn spec_done(&self) -> bool {
        &&& !self.spec_awaiting()
        &&& (self.spec_fatal() is Some || self.spec_next() == self.spec_names().len())
    }

    /// A dispatch over `names`, in that order.
    pub fn new(names: Vec<String>) -> (r: Self)
        ensures
            r.wf(),
            r.spec_names() == texts_view(names@),
            r.spec_next() == 0,
            !r.spec_awaiting(),
            r.spec_primary() is None,
            r.spec_fatal() is None,
            r.spec_attempts() == 0,
    {
        Dispatcher {
            names,
            next: 0,
            awaiting: false,
            primary: None,
            fatal: None,
            results: Vec::new(),
            skipped: Vec::new(),
        }
    }

    /// The next uploader to run and its position, passing over disabled
    /// destinations. `None` when the dispatch is over: a destination is
    /// missing or fails its pre-flight check (that error ends the dispatch),
    /// an earlier error ended it, or no destination is left.
    pub fn next_step(&mut self, config: &Config) -> (r: Option<(usize, AnyUploader)>)
        requires
            old(self).wf(),
            !old(self).spec_awaiting(),
        ensures
            final(self).wf(),
            final(self).spec_names() == old(self).spec_names(),
            final(self).spec_primary() == old(self).spec_primary(),
            final(self).spec_attempts() == old(self).spec_attempts(),
            final(self).spec_results() == old(self).spec_results(),
            final(self).spec_primary_name() == old(self).spec_primary_name(),
            old(self).spec_fatal() is Some ==> r is None && final(self).spec_fatal() == old(self).spec_fatal(),
            r is None ==> final(self).spec_done(),
            r matches Some(p) ==> {
                let i = p.0 as int;
                &&& old(self).spec_fatal() is None
                &&& old(self).spec_next() <= i < old(self).spec_names().len()
                &&& forall|j: int| old(self).spec_next() <= j < i ==> passes_over(*config, old(self).spec_names(), j)
                &&& entry_of(*config, old(self).spec_names()[i]) matches Some(u)
                &&& u.enabled
                &&& built_from(p.1, old(self).spec_names()[i], u)
                &&& (p.1 is Ssh ==> ssh_config_ok(u))
                &&& final(self).spec_next() == i + 1
                &&& final(self).spec_awaiting()
            },
            // Disabled secondary destinations are never uploaded to: when all
            // that are left are disabled, the dispatch ends without an upload.
            old(self).spec_fatal() is None && (forall|j: int| old(self).spec_next() <= j < old(self).spec_names().len()
                ==> passes_over(*config, old(self).spec_names(), j))
                ==> r is None && final(self).spec_fatal() is None && final(self).spec_next() == old(self).spec_names().len(),
            // At the first destination not passed over: a missing one ends the
            // dispatch with `DestinationNotFound`, a disabled primary with
            // `DestinationDisabled`, an unknown kind or incomplete settings with
            // a configuration error; a complete SSH/SFTP destination is handed
            // out, and so is a local one unless its path does not expand.
            forall|i: int| old(self).spec_fatal() is None && #[trigger] first_pending(*config, old(self).spec_names(), old(self).spec_next(), i)
                ==> pending_outcome(*config, old(self).spec_names()[i], i, r, final(self).spec_fatal(),
                    final(self).spec_next(), final(self).spec_awaiting()),
    {
        if self.fatal.is_some() {
            return None;
        }
        let ghost start = self.next as int;
        let ghost names = texts_view(self.names@);
        while self.next < self.names.len()
            invariant
                self.next <= self.names@.len(),
                start <= self.next,
                !self.awaiting,
                self.fatal is None,
                old(self).fatal is None,
                names == texts_view(self.names@),
                self.primary == old(self).primary,
                self.results == old(self).results,
                self.names == old(self).names,
                start == old(self).next as int,
                forall|j: int| start <= j < self.next ==> passes_over(*config, names, j),
            decreases self.names@.len() - self.next,
        {
            let i = self.next;
            proof {
                assert(names[i as int] == self.names@[i as int]@);
            }
            match config.find_upload(&self.names[i]) {
                None => {
                    proof {
                        lemma_entry_absent(*config, names[i as int]);
                        assert(first_pending(*config, names, start, i as int));
                    }
                    self.fatal = Some(SnaptoError::DestinationNotFound(self.names[i].clone()));
                    proof {
                        assert forall|k: int| #[trigger] first_pending(*config, names, start, k) implies k == i by {
                            lemma_first_pending_unique(*config, names, start, i as int, k);
                        }
                    }
                    return None;
                }
                Some(k) => {
                    proof {
                        lemma_entry_of(*config, names[i as int], k as int);
                    }
                    let u = &config.uploads[k].1;
                    if !u.enabled && i > 0 {
                        self.skipped.push(self.names[i].clone());
                        self.next = i + 1;
                    } else {
                        proof {
                            assert(first_pending(*config, names, start, i as int));
                            assert forall|k2: int| #[trigger] first_pending(*config, names, start, k2) implies k2 == i by {
                                lemma_first_pending_unique(*config, names, start, i as int, k2);
                            }
                        }
                        if !u.enabled {
                            self.fatal = Some(SnaptoError::DestinationDisabled(self.names[i].clone()));
                            return None;
                        }
                        match create_uploader(self.names[i].as_str(), u) {
                            Err(e) => {
                                self.fatal = Some(e);
                                return None;
                            }
                            Ok(up) => {
                                let checked = up.validate();
                                proof {
                                    assert(entry_of(*config, names[i as int]) == Some(*u));
                                    assert(built_from(up, names[i as int], *u));
                                    match up {
                                        AnyUploader::Ssh(ref sv) => {
                                            assert(is_remote_kind(u.uploader_type@));
                                            assert(sv.spec_config() == *u);
                                        }
                                        AnyUploader::Local(ref lv) => {
                                            assert(u.uploader_type@ == "local"@);
                                            assert(lv.spec_config() == *u);
                                            assert(!is_remote_kind(u.uploader_type@)) by {
                                                reveal_strlit("local");
                                                reveal_strlit("sftp");
                                                reveal_strlit("ssh");
                                                assert("local"@.len() != "sftp"@.len());
                                                assert("local"@.len() != "ssh"@.len());
                                            }
                                        }
                                    }
                                }
                                match checked {
                                    Err(e) => {
                                        self.fatal = Some(e);
                                        return None;
                                    }
                                    Ok(()) => {
                                        self.next = i + 1;
                                        self.awaiting = true;
                                        return Some((i, up));
                                    }
                                }
                            }
                        }
                    }
                }
            }
        }
        None
    }

    /// Records the result of the upload handed out last. A failure of the
    /// first destination ends the dispatch with that error; the first
    /// success becomes the primary result.
    pub fn record(&mut self, result: Result<UploadResult, SnaptoError>)
        requires
            old(self).wf(),
            old(self).spec_awaiting(),
        ensures
            final(self).wf(),
            !final(self).spec_awaiting(),
            final(self).spec_names() == old(self).spec_names(),
            final(self).spec_next() == old(self).spec_next(),
            final(self).spec_attempts() == old(self).spec_attempts() + 1,
            result is Err && old(self).spec_next() == 1 ==> final(self).spec_fatal() == Some(result->Err_0),
            result is Err && old(self).spec_next() != 1 ==> final(self).spec_fatal() is None,
            result is Ok ==> final(self).spec_fatal() is None,
            final(self).spec_primary() == match (old(self).spec_primary(), result) {
                (None, Ok(u)) => Some(u),
                _ => old(self).spec_primary(),
            },
            final(self).spec_primary_name() == match (old(self).spec_primary(), result) {
                (None, Ok(_)) => Some(old(self).spec_names()[old(self).spec_next() - 1]),
                _ => old(self).spec_primary_name(),
            },
            final(self).spec_results() == old(self).spec_results().push(
                (old(self).spec_names()[old(self).spec_next() - 1], result)),
    {
        let i = self.next - 1;
        let name = self.names[i].clone();
        match &result {
            Ok(u) => {
                if self.primary.is_none() {
                    self.primary = Some((name.clone(), u.duplicate()));
                }
            }
            Err(e) => {
                if i == 0 {
                    self.fatal = Some(e.duplicate());
                }
            }
        }
        let ghost before = self.results@;
        self.results.push(DestinationOutcome { name, result });
        proof {
            assert(outcomes_view(self.results@) =~= outcomes_view(before).push(
                (old(self).spec_names()[old(self).spec_next() - 1], result)));
        }
        self.awaiting = false;
    }

    /// The outcome once the dispatch is over: the error that ended it, else
    /// the first successful result, else `NoDestinationsAvailable`.
    pub fn finish(self) -> (r: Result<UploadOutcome, SnaptoError>)
        requires
            self.wf(),
            self.spec_done(),
        ensures
            self.spec_fatal() matches Some(e) ==> r == Err::<UploadOutcome, SnaptoError>(e),
            self.spec_fatal() is None && self.spec_primary() is None
                ==> r == Err::<UploadOutcome, SnaptoError>(SnaptoError::NoDestinationsAvailable),
            self.spec_fatal() is None && self.spec_primary() is Some ==> (r matches Ok(o)
                && Some(o.primary_result) == self.spec_primary()
                && Some(o.destination@) == self.spec_primary_name()
                && outcomes_view(o.results@) == self.spec_results()
                && o.results@.len() == self.spec_attempts()),
    {
        match self.fatal {
            Some(e) => Err(e),
            None => match self.primary {
                None => Err(SnaptoError::NoDestinationsAvailable),
                Some((destination, primary_result)) => Ok(UploadOutcome {
                    destination,
                    primary_result,
                    results: self.results,
                    skipped: self.skipped,
                }),
            },
        }
    }
}

/// Bytes per second for `size_bytes` sent in `duration_ms`; with a duration
/// that rounds to 0 the size itself. Saturates at `u64::MAX`.
pub fn throughput(size_bytes: u64, duration_ms: u64) -> (r: u64)
    ensures
        duration_ms == 0 ==> r == size_bytes,
        duration_ms > 0 && size_bytes as int * 1000 / duration_ms as int <= u64::MAX ==> r == size_bytes as int * 1000 / duration_ms as int,
        duration_ms > 0 && size_bytes as int * 1000 / duration_ms as int > u64::MAX ==> r == u64::MAX,
{
    if duration_ms == 0 {
        return size_bytes;
    }
    let scaled: u128 = size_bytes as u128 * 1000;
    let q: u128 = scaled / duration_ms as u128;
    if q > u64::MAX as u128 {
        u64::MAX
    } else {
        q as u64
    }
}

/// The text to copy to the clipboard after an upload, if any.
pub open spec fn clipboard_choice(mode: ClipboardCopyMode, url: Option<Seq<char>>, remote_path: Seq<char>) -> Option<Seq<char>> {
    match mode {
        ClipboardCopyMode::Auto => match url { Some(u) => Some(u), None => Some(remote_path) },
        ClipboardCopyMode::Url => url,
        ClipboardCopyMode::Path => Some(remote_path),
    }
}

/// The text to copy to the clipboard for `result` under `mode`: the URL
/// when there is one (`auto`), only the URL (`url`), or the path (`path`).
pub fn clipboard_text(mode: ClipboardCopyMode, result: &UploadResult) -> (r: Option<String>)
    ensures
        crate::upload::opt_view(r) == clipboard_choice(mode, crate::upload::opt_view(result.url), result.remote_path@),
{
    match mode {
        ClipboardCopyMode::Auto => match &result.url {
            Some(u) => Some(u.clone()),
            None => Some(result.remote_path.clone()),
        },
        ClipboardCopyMode::Url => crate::upload::copy_opt(&result.url),
        ClipboardCopyMode::Path => Some(result.remote_path.clone()),
    }
}

/// The history row of a successful dispatch: its size is the byte length
/// of the payload that was sent.
pub fn history_entry_for(outcome: &UploadOutcome, filename: &str, payload: &[u8], created_at: i64) -> (r: HistoryEntry)
    ensures
        r.size == payload@.len(),
        r.id == 0,
        r.filename@ == filename@,
        r.destination == outcome.destination,
        r.remote_path == outcome.primary_result.remote_path,
        r.url == outcome.primary_result.url,
        r.created_at == created_at,
        r.thumbnail_path is None && r.local_copy_path is None,
{
    HistoryEntry {
        id: 0,
        filename: String::from_str(filename),
        remote_path: outcome.primary_result.remote_path.clone(),
        url: crate::upload::copy_opt(&outcome.primary_result.url),
        destination: outcome.destination.clone(),
        size: payload.len(),
        created_at,
        thumbnail_path: None,
        local_copy_path: None,
    }
}

} // verus!
