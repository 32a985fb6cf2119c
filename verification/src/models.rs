//! Task state, the task registry, and the HTTP data types.
//!
//! [`TaskMap`] is the sole shared mutable state of the service: a mapping
//! from token to current [`TaskStatus`], modelled as a
//! `Map<Seq<char>, TaskStatusView>`.  A token is present exactly while its
//! job is non-terminal or terminal-but-not-yet-observed; a poll that observes
//! a terminal status removes the entry in the same step (single delivery).
//! The HTTP layer around the library holds a [`ServerState`] behind a lock
//! and serializes the response types with their verified JSON renderings.

use vstd::prelude::*;
use vstd::map::*;

use vstd::string::StringExecFns;

use crate::exception::AppError;
use crate::exception::AppErrorView;
use crate::text::esc_seq;
use crate::text::push_json_escaped;

verus! {

/// The current stage of one submitted job.
pub enum TaskStatus {
    /// Pipeline finished successfully; the result artifact exists on disk.
    Done,
    /// Terminal failure, carrying its cause.
    Failed(AppError),
    /// The fetch stage is in progress.
    Download,
    /// The inference stage is in progress.
    Pending,
}

/// Mathematical model of a [`TaskStatus`].
pub enum TaskStatusView {
    Done,
    Failed(AppErrorView),
    Download,
    Pending,
}

impl View for TaskStatus {
    type V = TaskStatusView;

    open spec fn view(&self) -> TaskStatusView {
        match self {
            TaskStatus::Done => TaskStatusView::Done,
            TaskStatus::Failed(e) => TaskStatusView::Failed(e@),
            TaskStatus::Download => TaskStatusView::Download,
            TaskStatus::Pending => TaskStatusView::Pending,
        }
    }
}

impl Clone for TaskStatus {
    fn clone(&self) -> (r: Self)
        ensures
            r@ == self@,
    {
        match self {
            TaskStatus::Done => TaskStatus::Done,
            TaskStatus::Failed(e) => TaskStatus::Failed(e.clone()),
            TaskStatus::Download => TaskStatus::Download,
            TaskStatus::Pending => TaskStatus::Pending,
        }
    }
}

/// No two entries carry the same token.
pub(crate) open spec fn entry_keys_distinct(s: Seq<(String, TaskStatus)>) -> bool {
    forall|i: int, j: int|
        0 <= i < j < s.len() ==> (#[trigger] s[i]).0@ != (#[trigger] s[j]).0@
}

/// Some entry carries token `k`.
pub(crate) open spec fn has_key(s: Seq<(String, TaskStatus)>, k: Seq<char>) -> bool {
    exists|i: int| 0 <= i < s.len() && (#[trigger] s[i]).0@ == k
}

/// The index of the entry carrying token `k` (unique when keys are distinct).
pub(crate) open spec fn key_index(s: Seq<(String, TaskStatus)>, k: Seq<char>) -> int {
    choose|i: int| 0 <= i < s.len() && (#[trigger] s[i]).0@ == k
}

/// The mapping that a sequence of entries denotes.
pub(crate) open spec fn entries_map(s: Seq<(String, TaskStatus)>) -> Map<
    Seq<char>,
    TaskStatusView,
> {
    Map::new(|k: Seq<char>| has_key(s, k), |k: Seq<char>| s[key_index(s, k)].1@)
}

proof fn lemma_key_index(s: Seq<(String, TaskStatus)>, k: Seq<char>)
    requires
        entry_keys_distinct(s),
        has_key(s, k),
    ensures
        0 <= key_index(s, k) < s.len(),
        s[key_index(s, k)].0@ == k,
        forall|i: int| 0 <= i < s.len() && (#[trigger] s[i]).0@ == k ==> i == key_index(s, k),
{
    let w = key_index(s, k);
    assert(0 <= w < s.len() && s[w].0@ == k);
    assert forall|i: int| 0 <= i < s.len() && (#[trigger] s[i]).0@ == k implies i == w by {
        if i < w {
            assert(s[i].0@ != s[w].0@);
        } else if w < i {
            assert(s[w].0@ != s[i].0@);
        }
    }
}

proof fn lemma_entries_map_push(s: Seq<(String, TaskStatus)>, e: (String, TaskStatus))
    requires
        entry_keys_distinct(s),
        !has_key(s, e.0@),
    ensures
        entry_keys_distinct(s.push(e)),
        entries_map(s.push(e)) == entries_map(s).insert(e.0@, e.1@),
{
    let s2 = s.push(e);
    assert forall|i: int, j: int| 0 <= i < j < s2.len() implies (#[trigger] s2[i]).0@
        != (#[trigger] s2[j]).0@ by {
        if j < s.len() {
            assert(s2[i] == s[i] && s2[j] == s[j]);
        } else {
            assert(s2[j] == e);
            assert(s2[i] == s[i]);
            assert(!(0 <= i < s.len() && s[i].0@ == e.0@));
        }
    }
    assert_maps_equal!(entries_map(s.push(e)), entries_map(s).insert(e.0@, e.1@), k => {
        if k == e.0@ {
            assert(s2[s.len() as int] == e);
            assert(has_key(s2, k));
            lemma_key_index(s2, k);
            assert(key_index(s2, k) == s.len());
        } else {
            if has_key(s, k) {
                let i = key_index(s, k);
                lemma_key_index(s, k);
                assert(s2[i] == s[i]);
                assert(has_key(s2, k));
                lemma_key_index(s2, k);
                assert(key_index(s2, k) == i);
            }
            if has_key(s2, k) {
                let i = key_index(s2, k);
                lemma_key_index(s2, k);
                assert(i < s.len()) by {
                    if i == s.len() {
                        assert(s2[i] == e);
                    }
                }
                assert(s2[i] == s[i]);
                assert(has_key(s, k));
            }
        }
    });
}

proof fn lemma_entries_map_remove(s: Seq<(String, TaskStatus)>, i: int)
    requires
        entry_keys_distinct(s),
        0 <= i < s.len(),
    ensures
        entry_keys_distinct(s.remove(i)),
        entries_map(s.remove(i)) == entries_map(s).remove(s[i].0@),
{
    let s2 = s.remove(i);
    assert forall|p: int, q: int| 0 <= p < q < s2.len() implies (#[trigger] s2[p]).0@
        != (#[trigger] s2[q]).0@ by {
        let p0 = if p < i { p } else { p + 1 };
        let q0 = if q < i { q } else { q + 1 };
        assert(s2[p] == s[p0] && s2[q] == s[q0]);
        assert(s[p0].0@ != s[q0].0@);
    }
    let key = s[i].0@;
    assert_maps_equal!(entries_map(s.remove(i)), entries_map(s).remove(s[i].0@), k => {
        if k == key {
            if has_key(s2, k) {
                let j = key_index(s2, k);
                lemma_key_index(s2, k);
                let j0 = if j < i { j } else { j + 1 };
                assert(s2[j] == s[j0]);
                lemma_key_index(s, k);
                assert(j0 == i);
                assert(false);
            }
        } else {
            if has_key(s, k) {
                let j = key_index(s, k);
                lemma_key_index(s, k);
                assert(j != i);
                let j2 = if j < i { j } else { j - 1 };
                assert(s2[j2] == s[j]);
                assert(has_key(s2, k));
                lemma_key_index(s2, k);
                let j3 = key_index(s2, k);
                let j30 = if j3 < i { j3 } else { j3 + 1 };
                assert(s2[j3] == s[j30]);
                lemma_key_index(s, k);
                assert(j30 == j);
            }
            if has_key(s2, k) {
                let j = key_index(s2, k);
                lemma_key_index(s2, k);
                let j0 = if j < i { j } else { j + 1 };
                assert(s2[j] == s[j0]);
                assert(has_key(s, k));
            }
        }
    });
}

/// The task registry: a mapping from token to current status.
///
/// Stored as a vector of entries with pairwise-distinct tokens; viewed as the
/// mapping those entries denote.
pub struct TaskMap {
    entries: Vec<(String, TaskStatus)>,
}

impl View for TaskMap {
    type V = Map<Seq<char>, TaskStatusView>;

    closed spec fn view(&self) -> Map<Seq<char>, TaskStatusView> {
        entries_map(self.entries@)
    }
}

impl TaskMap {
    /// Well-formedness: no two entries carry the same token.  Established by
    /// [`Self::new`] and preserved by every method.
    pub closed spec fn wf(&self) -> bool {
        entry_keys_distinct(self.entries@)
    }

    /// An empty registry.
    pub fn new() -> (r: TaskMap)
        ensures
            r.wf(),
            r@ == Map::<Seq<char>, TaskStatusView>::empty(),
    {
        let r = TaskMap { entries: Vec::new() };
        proof {
            assert(r@ =~= Map::<Seq<char>, TaskStatusView>::empty());
        }
        r
    }

    /// The index of the entry carrying `key`, if one does.
    fn find_index(&self, key: &String) -> (r: Option<usize>)
        ensures
            match r {
                Some(i) => i < self.entries@.len() && self.entries@[i as int].0@ == key@,
                None => !has_key(self.entries@, key@),
            },
    {
        let mut i: usize = 0;
        while i < self.entries.len()
            invariant
                i <= self.entries@.len(),
                forall|j: int| 0 <= j < i ==> (#[trigger] self.entries@[j]).0@ != key@,
            decreases self.entries@.len() - i,
        {
            let e = &self.entries[i];
            if e.0 == *key {
                return Some(i);
            }
            i += 1;
        }
        None
    }

    /// Does the registry hold an entry for `uuid`?
    pub fn contains(&self, uuid: &str) -> (r: bool)
        ensures
            r == self@.contains_key(uuid@),
    {
        let key = uuid.to_owned();
        self.find_index(&key).is_some()
    }

    /// The current status recorded for `uuid`, if any.
    pub fn get(&self, uuid: &str) -> (r: Option<TaskStatus>)
        requires
            self.wf(),
        ensures
            match r {
                Some(st) => self@.contains_key(uuid@) && st@ == self@[uuid@],
                None => !self@.contains_key(uuid@),
            },
    {
        let key = uuid.to_owned();
        match self.find_index(&key) {
            Some(i) => {
                let e = &self.entries[i];
                proof {
                    lemma_key_index(self.entries@, uuid@);
                }
                Some(e.1.clone())
            },
            None => None,
        }
    }

    /// Records `status` for `uuid` (last writer wins) and returns what the
    /// registry held for it before, if anything.
    pub fn update(&mut self, uuid: &str, status: TaskStatus) -> (prev: Option<TaskStatus>)
        requires
            old(self).wf(),
        ensures
            final(self).wf(),
            final(self)@ == old(self)@.insert(uuid@, status@),
            match prev {
                Some(p) => old(self)@.contains_key(uuid@) && p@ == old(self)@[uuid@],
                None => !old(self)@.contains_key(uuid@),
            },
    {
        let key = uuid.to_owned();
        let ghost s0 = self.entries@;
        match self.find_index(&key) {
            Some(i) => {
                proof {
                    lemma_key_index(s0, uuid@);
                    lemma_entries_map_remove(s0, i as int);
                }
                let prev_entry = self.entries.remove(i);
                let ghost s1 = self.entries@;
                proof {
                    if has_key(s1, uuid@) {
                        let j = key_index(s1, uuid@);
                        lemma_key_index(s1, uuid@);
                        let j0 = if j < i as int { j } else { j + 1 };
                        assert(s1[j] == s0[j0]);
                        lemma_key_index(s0, uuid@);
                        assert(false);
                    }
                    lemma_entries_map_push(s1, (key, status));
                }
                self.entries.push((key, status));
                proof {
                    assert(self@ =~= old(self)@.insert(uuid@, status@));
                }
                Some(prev_entry.1)
            },
            None => {
                proof {
                    lemma_entries_map_push(s0, (key, status));
                }
                self.entries.push((key, status));
                None
            },
        }
    }

    /// Removes the entry for `uuid`, returning what it held.
    pub fn take(&mut self, uuid: &str) -> (prev: Option<TaskStatus>)
        requires
            old(self).wf(),
        ensures
            final(self).wf(),
            final(self)@ == old(self)@.remove(uuid@),
            match prev {
                Some(p) => old(self)@.contains_key(uuid@) && p@ == old(self)@[uuid@],
                None => !old(self)@.contains_key(uuid@),
            },
    {
        let key = uuid.to_owned();
        match self.find_index(&key) {
            Some(i) => {
                proof {
                    lemma_key_index(self.entries@, uuid@);
                    lemma_entries_map_remove(self.entries@, i as int);
                }
                let prev_entry = self.entries.remove(i);
                Some(prev_entry.1)
            },
            None => {
                proof {
                    assert(self@ =~= old(self)@.remove(uuid@));
                }
                None
            },
        }
    }
}

/// The shared state of the service: the registry and the root of the
/// per-token working directories.
pub struct ServerState {
    pub task_status: TaskMap,
    pub work_dir: String,
}

impl ServerState {
    /// Well-formedness of the registry inside.
    pub open spec fn wf(&self) -> bool {
        self.task_status.wf()
    }

    /// A fresh state with an empty registry.
    pub fn new(work_dir: String) -> (r: ServerState)
        ensures
            r.wf(),
            r.task_status@ == Map::<Seq<char>, TaskStatusView>::empty(),
            r.work_dir@ == work_dir@,
    {
        ServerState { task_status: TaskMap::new(), work_dir }
    }

    /// Records `status` for `uuid`, returning the previous status if any.
    pub fn update_task(&mut self, uuid: &str, status: TaskStatus) -> (prev: Option<TaskStatus>)
        requires
            old(self).wf(),
        ensures
            final(self).wf(),
            final(self).task_status@ == old(self).task_status@.insert(uuid@, status@),
            final(self).work_dir == old(self).work_dir,
            match prev {
                Some(p) => old(self).task_status@.contains_key(uuid@) && p@ == old(
                    self,
                ).task_status@[uuid@],
                None => !old(self).task_status@.contains_key(uuid@),
            },
    {
        self.task_status.update(uuid, status)
    }

    /// The current status recorded for `uuid`, if any.
    pub fn get_task(&self, uuid: &str) -> (r: Option<TaskStatus>)
        requires
            self.wf(),
        ensures
            match r {
                Some(st) => self.task_status@.contains_key(uuid@) && st@
                    == self.task_status@[uuid@],
                None => !self.task_status@.contains_key(uuid@),
            },
    {
        self.task_status.get(uuid)
    }

    /// Removes the entry for `uuid`, returning what it held.
    pub fn remove_task(&mut self, uuid: &str) -> (prev: Option<TaskStatus>)
        requires
            old(self).wf(),
        ensures
            final(self).wf(),
            final(self).task_status@ == old(self).task_status@.remove(uuid@),
            final(self).work_dir == old(self).work_dir,
            match prev {
                Some(p) => old(self).task_status@.contains_key(uuid@) && p@ == old(
                    self,
                ).task_status@[uuid@],
                None => !old(self).task_status@.contains_key(uuid@),
            },
    {
        self.task_status.take(uuid)
    }

    /// Does the registry hold an entry for `uuid`?
    pub fn has_task(&self, uuid: &str) -> (r: bool)
        ensures
            r == self.task_status@.contains_key(uuid@),
    {
        self.task_status.contains(uuid)
    }
}

/// A type with an exact, verified JSON rendering.
pub trait ToJson {
    /// The JSON text this value renders to.
    spec fn json_view(&self) -> Seq<char>;

    /// Renders the value exactly as [`Self::json_view`] states it.
    fn to_json(&self) -> (r: String)
        ensures
            r@ == self.json_view(),
    ;
}

/// The JSON rendering of a boolean.
pub open spec fn json_bool(b: bool) -> Seq<char> {
    if b {
        "true"@
    } else {
        "false"@
    }
}

/// The JSON rendering of an optional string: `null`, or a quoted, escaped
/// string body.
pub open spec fn json_opt_string(o: Option<String>) -> Seq<char> {
    match o {
        Option::None => "null"@,
        Option::Some(s) => "\""@ + esc_seq(s@) + "\""@,
    }
}

impl TaskStatus {
    /// The wire label of the stage, as it appears in a poll response.
    pub open spec fn label_view(&self) -> Seq<char> {
        match self {
            TaskStatus::Done => "Done"@,
            TaskStatus::Failed(_) => "Err"@,
            TaskStatus::Download => "Download"@,
            TaskStatus::Pending => "Pending"@,
        }
    }

    /// Returns the wire label exactly as [`Self::label_view`] states it.
    pub fn label(&self) -> (r: &'static str)
        ensures
            r@ == self.label_view(),
    {
        match self {
            TaskStatus::Done => "Done",
            TaskStatus::Failed(_) => "Err",
            TaskStatus::Download => "Download",
            TaskStatus::Pending => "Pending",
        }
    }
}

/// Request body of the submission endpoint.
pub struct InitiateReq {
    pub url: String,
    pub uuid: String,
}

/// Success payload of the submission endpoint: the token assigned to the job.
pub struct InitiateResp {
    pub uuid: String,
}

/// Request body of the poll endpoint.
pub struct PollStatusReq {
    pub uuid: String,
}

/// Success payload of the poll endpoint.
pub struct PollStatusResp {
    pub done: bool,
    pub stage: TaskStatus,
    pub result: Option<String>,
}

/// Request body of the archive endpoint.
pub struct FetchArchiveReq {
    pub uuid: String,
}

/// Success payload of the archive endpoint when packaging was just initiated.
pub struct FetchArchiveResp {
    pub init: bool,
}

impl ToJson for InitiateResp {
    open spec fn json_view(&self) -> Seq<char> {
        "{\"uuid\":\""@ + esc_seq(self.uuid@) + "\"}"@
    }

    fn to_json(&self) -> (r: String) {
        let mut s = String::from_str("{\"uuid\":\"");
        push_json_escaped(&mut s, self.uuid.as_str());
        s.append("\"}");
        proof {
            assert(s@ =~= self.json_view());
        }
        s
    }
}

impl ToJson for PollStatusResp {
    open spec fn json_view(&self) -> Seq<char> {
        "{\"done\":"@ + json_bool(self.done) + ",\"stage\":\""@ + self.stage.label_view()
            + "\",\"result\":"@ + json_opt_string(self.result) + "}"@
    }

    fn to_json(&self) -> (r: String) {
        let mut s = String::from_str("{\"done\":");
        if self.done {
            s.append("true");
        } else {
            s.append("false");
        }
        proof {
            assert(s@ =~= "{\"done\":"@ + json_bool(self.done));
        }
        s.append(",\"stage\":\"");
        s.append(self.stage.label());
        s.append("\",\"result\":");
        proof {
            assert(s@ =~= "{\"done\":"@ + json_bool(self.done) + ",\"stage\":\""@
                + self.stage.label_view() + "\",\"result\":"@);
        }
        match &self.result {
            Option::None => {
                s.append("null");
                proof {
                    assert(json_opt_string(self.result) == "null"@);
                }
            },
            Option::Some(content) => {
                s.append("\"");
                push_json_escaped(&mut s, content.as_str());
                s.append("\"");
                proof {
                    assert(json_opt_string(self.result) == "\""@ + esc_seq(content@) + "\""@);
                }
            },
        }
        s.append("}");
        proof {
            assert(s@ =~= self.json_view());
        }
        s
    }
}

impl ToJson for FetchArchiveResp {
    open spec fn json_view(&self) -> Seq<char> {
        "{\"init\":"@ + json_bool(self.init) + "}"@
    }

    fn to_json(&self) -> (r: String) {
        let mut s = String::from_str("{\"init\":");
        if self.init {
            s.append("true");
        } else {
            s.append("false");
        }
        s.append("}");
        proof {
            assert(s@ =~= self.json_view());
        }
        s
    }
}

/// The envelope every endpoint returns: either a success payload or an
/// error, never both.
pub enum AppResp<T> {
    Success(T),
    Exception(AppError),
}

impl<T: ToJson> AppResp<T> {
    /// The JSON wire shape: `{"success":true,"data":...}` on success,
    /// `{"success":false,"err":{"source":...,"info":...}}` on failure.
    pub open spec fn json_view(&self) -> Seq<char> {
        match self {
            AppResp::Success(data) => "{\"success\":true,\"data\":"@ + data.json_view() + "}"@,
            AppResp::Exception(e) => "{\"success\":false,\"err\":"@ + e.err_obj_view() + "}"@,
        }
    }

    /// Renders the envelope exactly as [`Self::json_view`] states it.
    pub fn to_json(&self) -> (r: String)
        ensures
            r@ == self.json_view(),
    {
        match self {
            AppResp::Success(data) => {
                let mut s = String::from_str("{\"success\":true,\"data\":");
                let body = data.to_json();
                s.append(body.as_str());
                s.append("}");
                proof {
                    assert(s@ =~= self.json_view());
                }
                s
            },
            AppResp::Exception(e) => {
                let mut s = String::from_str("{\"success\":false,\"err\":");
                let obj = e.err_obj_json();
                s.append(obj.as_str());
                s.append("}");
                proof {
                    assert(s@ =~= self.json_view());
                }
                s
            },
        }
    }
}

} // verus!
