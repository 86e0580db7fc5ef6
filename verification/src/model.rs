//! The edit session as a mathematical value, and its transitions.

use crate::barcode::DiffEntry;
use crate::failure::{failure_text, FailureModel};
use crate::text::is_blank;
use vstd::multiset::Multiset;
use vstd::prelude::*;

verus! {

/// Whether `entry` can be applied to the list `view`: an addition brings a
/// code that is not blank, a removal takes a code that the list holds.
pub open spec fn entry_applies(view: Seq<Seq<char>>, entry: DiffEntry) -> bool {
    match entry {
        DiffEntry::Added(c) => !is_blank(c),
        DiffEntry::Removed(c) => view.contains(c),
    }
}

/// The list after `entry`: an added code goes to the end, a removed code
/// leaves at its first occurrence.
pub open spec fn apply_entry(view: Seq<Seq<char>>, entry: DiffEntry) -> Seq<Seq<char>> {
    match entry {
        DiffEntry::Added(c) => view.push(c),
        DiffEntry::Removed(c) => view.remove_value(c),
    }
}

/// The list that results from `base` when the operations of `log` are
/// applied in order.
pub open spec fn replay(base: Seq<Seq<char>>, log: Seq<DiffEntry>) -> Seq<Seq<char>>
    decreases log.len(),
{
    if log.len() == 0 {
        base
    } else {
        apply_entry(replay(base, log.drop_last()), log.last())
    }
}

/// Whether each operation of `log` could be applied when its turn came,
/// starting from `base`.
pub open spec fn log_applies(base: Seq<Seq<char>>, log: Seq<DiffEntry>) -> bool
    decreases log.len(),
{
    log.len() == 0 || (log_applies(base, log.drop_last()) && entry_applies(
        replay(base, log.drop_last()),
        log.last(),
    ))
}

/// The codes that the additions of `log` brought, each as often as it was
/// added.
pub open spec fn added_codes(log: Seq<DiffEntry>) -> Multiset<Seq<char>>
    decreases log.len(),
{
    if log.len() == 0 {
        Multiset::empty()
    } else {
        match log.last() {
            DiffEntry::Added(c) => added_codes(log.drop_last()).insert(c),
            DiffEntry::Removed(_) => added_codes(log.drop_last()),
        }
    }
}

/// The codes that the removals of `log` took, each as often as it was
/// removed.
pub open spec fn removed_codes(log: Seq<DiffEntry>) -> Multiset<Seq<char>>
    decreases log.len(),
{
    if log.len() == 0 {
        Multiset::empty()
    } else {
        match log.last() {
            DiffEntry::Added(_) => removed_codes(log.drop_last()),
            DiffEntry::Removed(c) => removed_codes(log.drop_last()).insert(c),
        }
    }
}

/// An article as loaded: its identity, name, cost in its canonical text
/// form, and barcodes.
pub struct ArticleModel {
    pub id: u64,
    pub name: Seq<char>,
    pub cost: Seq<char>,
    pub barcodes: Seq<Seq<char>>,
}

/// The update that a commit asks for. The list of operations is always
/// present, empty where nothing was added or removed.
pub struct RequestModel {
    pub id: u64,
    pub name: Seq<char>,
    pub cost: Seq<char>,
    pub barcodes: Option<Seq<DiffEntry>>,
}

/// The state of an edit session.
pub struct SessionModel {
    /// The article as it was loaded; never changed.
    pub article: ArticleModel,
    /// The name as edited.
    pub name: Seq<char>,
    /// The cost as edited, as text.
    pub cost: Seq<char>,
    /// The visible barcode list.
    pub barcodes: Seq<Seq<char>>,
    /// The operations performed on the barcode list, oldest first.
    pub diff: Seq<DiffEntry>,
    /// The error slot; empty means that no error is shown.
    pub error: Seq<char>,
}

impl SessionModel {
    /// The session right after the article was loaded.
    pub open spec fn start(article: ArticleModel) -> SessionModel {
        SessionModel {
            article,
            name: article.name,
            cost: article.cost,
            barcodes: article.barcodes,
            diff: Seq::empty(),
            error: Seq::empty(),
        }
    }

    /// The visible list is what the log makes of the loaded list, and every
    /// logged operation could be applied when it was performed.
    pub open spec fn wf(self) -> bool {
        &&& log_applies(self.article.barcodes, self.diff)
        &&& self.barcodes == replay(self.article.barcodes, self.diff)
    }

    pub open spec fn set_name(self, text: Seq<char>) -> SessionModel {
        SessionModel { name: text, ..self }
    }

    pub open spec fn set_cost(self, text: Seq<char>) -> SessionModel {
        SessionModel { cost: text, ..self }
    }

    /// Performs one operation on the visible list and records it.
    pub open spec fn record(self, entry: DiffEntry) -> SessionModel {
        SessionModel {
            barcodes: apply_entry(self.barcodes, entry),
            diff: self.diff.push(entry),
            ..self
        }
    }

    /// A blank code changes nothing; any other code is appended to the visible
    /// list and recorded as added.
    pub open spec fn add_barcode(self, code: Seq<char>) -> SessionModel {
        if is_blank(code) {
            self
        } else {
            self.record(DiffEntry::Added(code))
        }
    }

    /// The first occurrence of the code leaves the visible list, and the
    /// removal is recorded.
    pub open spec fn remove_barcode(self, code: Seq<char>) -> SessionModel
        recommends
            self.barcodes.contains(code),
    {
        self.record(DiffEntry::Removed(code))
    }

    /// The update that a commit asks for in this state.
    pub open spec fn request(self) -> RequestModel {
        RequestModel {
            id: self.article.id,
            name: self.name,
            cost: self.cost,
            barcodes: Some(self.diff),
        }
    }

    /// The state once an update has come back: unchanged after a success;
    /// after a failure the error slot holds its message and the rest is kept.
    pub open spec fn complete(self, outcome: Result<(), FailureModel>) -> SessionModel {
        match outcome {
            Ok(_) => self,
            Err(failure) => SessionModel { error: failure_text(failure), ..self },
        }
    }
}

/// One call on the barcode list of a session.
pub enum EditCall {
    AddBarcode(Seq<char>),
    RemoveBarcode(Seq<char>),
}

impl EditCall {
    /// Whether the call changes the session: every removal does, an addition
    /// does unless its code is blank.
    pub open spec fn takes_effect(self) -> bool {
        match self {
            EditCall::AddBarcode(code) => !is_blank(code),
            EditCall::RemoveBarcode(_) => true,
        }
    }

    /// The operation that the call records when it takes effect.
    pub open spec fn entry(self) -> DiffEntry {
        match self {
            EditCall::AddBarcode(code) => DiffEntry::Added(code),
            EditCall::RemoveBarcode(code) => DiffEntry::Removed(code),
        }
    }
}

/// How many of the calls take effect: the additions of a code that is not
/// blank, and the removals.
pub open spec fn effective_calls(calls: Seq<EditCall>) -> nat
    decreases calls.len(),
{
    if calls.len() == 0 {
        0
    } else if calls.last().takes_effect() {
        effective_calls(calls.drop_last()) + 1
    } else {
        effective_calls(calls.drop_last())
    }
}

/// The operations that the calls record, in the order of the calls.
pub open spec fn recorded(calls: Seq<EditCall>) -> Seq<DiffEntry>
    decreases calls.len(),
{
    if calls.len() == 0 {
        Seq::empty()
    } else if calls.last().takes_effect() {
        recorded(calls.drop_last()).push(calls.last().entry())
    } else {
        recorded(calls.drop_last())
    }
}

impl SessionModel {
    /// Whether the call may be made in this state: a removal names a code
    /// of the visible list.
    pub open spec fn permits(self, call: EditCall) -> bool {
        match call {
            EditCall::AddBarcode(_) => true,
            EditCall::RemoveBarcode(code) => self.barcodes.contains(code),
        }
    }

    /// The state after one call.
    pub open spec fn call(self, call: EditCall) -> SessionModel {
        match call {
            EditCall::AddBarcode(code) => self.add_barcode(code),
            EditCall::RemoveBarcode(code) => self.remove_barcode(code),
        }
    }

    /// The state after the calls, made in order.
    pub open spec fn run(self, calls: Seq<EditCall>) -> SessionModel
        decreases calls.len(),
    {
        if calls.len() == 0 {
            self
        } else {
            self.run(calls.drop_last()).call(calls.last())
        }
    }

    /// Whether each of the calls may be made when its turn comes.
    pub open spec fn permits_all(self, calls: Seq<EditCall>) -> bool
        decreases calls.len(),
    {
        calls.len() == 0 || (self.permits_all(calls.drop_last()) && self.run(
            calls.drop_last(),
        ).permits(calls.last()))
    }
}

/// A well-formed session stays well-formed when an applicable operation is
/// performed and recorded.
pub proof fn lemma_record_keeps_wf(s: SessionModel, entry: DiffEntry)
    requires
        s.wf(),
        entry_applies(s.barcodes, entry),
    ensures
        s.record(entry).wf(),
{
    assert(s.diff.push(entry).drop_last() =~= s.diff);
}

} // verus!
