//! What holds of every edit session.

use crate::barcode::DiffEntry;
use crate::failure::{description, failure_text, lemma_description_not_empty, FailureModel};
use crate::model::{
    added_codes, apply_entry, effective_calls, entry_applies, lemma_record_keeps_wf, log_applies,
    recorded, removed_codes, replay, ArticleModel, EditCall, SessionModel,
};
use crate::text::is_blank;
use vstd::prelude::*;
use vstd::seq_lib::{to_multiset_build, to_multiset_contains, to_multiset_remove};

verus! {

/// Applying an applicable operation to a list adds the added code to its
/// contents, or takes one occurrence of the removed code out of them.
proof fn lemma_apply_entry_contents(view: Seq<Seq<char>>, entry: DiffEntry)
    requires
        entry_applies(view, entry),
    ensures
        entry is Added ==> apply_entry(view, entry).to_multiset() == view.to_multiset().insert(
            entry.code(),
        ),
        entry is Removed ==> apply_entry(view, entry).to_multiset() == view.to_multiset().remove(
            entry.code(),
        ),
        entry is Removed ==> view.to_multiset().count(entry.code()) > 0,
{
    match entry {
        DiffEntry::Added(c) => {
            to_multiset_build(view, c);
        },
        DiffEntry::Removed(c) => {
            view.index_of_first_ensures(c);
            let i = view.index_of_first(c).unwrap();
            to_multiset_remove(view, i);
            to_multiset_contains(view, c);
        },
    }
}

/// Replaying an applicable log leaves the contents of the base list, plus
/// the codes added, minus the codes removed; and nothing was removed more
/// often than the base list and the additions together held it.
pub proof fn lemma_replay_contents(base: Seq<Seq<char>>, log: Seq<DiffEntry>)
    requires
        log_applies(base, log),
    ensures
        replay(base, log).to_multiset() == base.to_multiset().add(added_codes(log)).sub(
            removed_codes(log),
        ),
        removed_codes(log).subset_of(base.to_multiset().add(added_codes(log))),
    decreases log.len(),
{
    broadcast use vstd::multiset::group_multiset_axioms;

    let total = base.to_multiset().add(added_codes(log));
    if log.len() == 0 {
        assert(replay(base, log).to_multiset() =~= total.sub(removed_codes(log)));
    } else {
        let before = log.drop_last();
        let entry = log.last();
        lemma_replay_contents(base, before);
        lemma_apply_entry_contents(replay(base, before), entry);
        let total_before = base.to_multiset().add(added_codes(before));
        assert(forall|c: Seq<char>| removed_codes(before).count(c) <= total_before.count(c));
        assert forall|c: Seq<char>| removed_codes(log).count(c) <= total.count(c) by {
            assert(removed_codes(before).count(c) <= total_before.count(c));
        }
        assert(replay(base, log).to_multiset() =~= total.sub(removed_codes(log)));
    }
}

/// A code of the replayed list is a code of the base list or a code that the
/// log added.
pub proof fn lemma_replay_origin(base: Seq<Seq<char>>, log: Seq<DiffEntry>, code: Seq<char>)
    requires
        replay(base, log).contains(code),
    ensures
        base.contains(code) || log.contains(DiffEntry::Added(code)),
    decreases log.len(),
{
    if log.len() > 0 {
        let before = log.drop_last();
        let view = replay(base, before);
        match log.last() {
            DiffEntry::Added(c) => {
                if c == code {
                    assert(log[log.len() - 1] == DiffEntry::Added(code));
                } else {
                    let k = choose|k: int| 0 <= k < view.push(c).len() && view.push(c)[k] == code;
                    assert(view[k] == code);
                }
            },
            DiffEntry::Removed(c) => {
                view.index_of_first_ensures(c);
                if view.contains(c) {
                    let i = view.index_of_first(c).unwrap();
                    let k = choose|k: int|
                        0 <= k < view.remove(i).len() && view.remove(i)[k] == code;
                    if k < i {
                        assert(view[k] == code);
                    } else {
                        assert(view[k + 1] == code);
                    }
                }
            },
        }
        assert(view.contains(code) || log.last() == DiffEntry::Added(code));
        if view.contains(code) {
            lemma_replay_origin(base, before, code);
            if before.contains(DiffEntry::Added(code)) {
                let k = choose|k: int| 0 <= k < before.len() && before[k] == DiffEntry::Added(code);
                assert(log[k] == DiffEntry::Added(code));
            }
        } else {
            assert(log[log.len() - 1] == DiffEntry::Added(code));
        }
    }
}

/// In a well-formed session the visible list holds, order aside, the codes
/// of the loaded article, plus every code added since, minus every code
/// removed since.
pub proof fn law_visible_list_of_session(s: SessionModel)
    requires
        s.wf(),
    ensures
        s.barcodes.to_multiset() == s.article.barcodes.to_multiset().add(added_codes(s.diff)).sub(
            removed_codes(s.diff),
        ),
{
    lemma_replay_contents(s.article.barcodes, s.diff);
}

/// In a well-formed session every code of the visible list was in the loaded
/// article or was added during the session.
pub proof fn law_visible_code_origin(s: SessionModel, code: Seq<char>)
    requires
        s.wf(),
        s.barcodes.contains(code),
    ensures
        s.article.barcodes.contains(code) || s.diff.contains(DiffEntry::Added(code)),
{
    lemma_replay_origin(s.article.barcodes, s.diff, code);
}

/// Right after a code was removed from a visible list that held no code
/// twice, the list does not hold it.
pub proof fn law_removed_code_is_gone(s: SessionModel, code: Seq<char>)
    requires
        s.barcodes.no_duplicates(),
        s.barcodes.contains(code),
    ensures
        !s.remove_barcode(code).barcodes.contains(code),
{
    let view = s.barcodes;
    view.index_of_first_ensures(code);
    let i = view.index_of_first(code).unwrap();
    let after = view.remove(i);
    if after.contains(code) {
        let k = choose|k: int| 0 <= k < after.len() && after[k] == code;
        if k < i {
            assert(view[k] == code);
        } else {
            assert(view[k + 1] == code);
        }
    }
}

/// A sequence of calls, each permitted when it is made, keeps a well-formed
/// session well-formed; it appends to the log what the calls record and
/// leaves the visible list that these operations make of the one before.
pub proof fn law_run(s: SessionModel, calls: Seq<EditCall>)
    requires
        s.wf(),
        s.permits_all(calls),
    ensures
        s.run(calls).wf(),
        s.run(calls).diff == s.diff + recorded(calls),
        s.run(calls).barcodes == replay(s.barcodes, recorded(calls)),
        log_applies(s.barcodes, recorded(calls)),
        s.run(calls).article == s.article,
        s.run(calls).name == s.name,
        s.run(calls).cost == s.cost,
        s.run(calls).error == s.error,
    decreases calls.len(),
{
    if calls.len() == 0 {
        assert(s.diff + recorded(calls) =~= s.diff);
    } else {
        let before = calls.drop_last();
        let call = calls.last();
        law_run(s, before);
        let mid = s.run(before);
        if call.takes_effect() {
            lemma_record_keeps_wf(mid, call.entry());
            assert(recorded(calls).drop_last() =~= recorded(before));
            assert(s.diff + recorded(calls) =~= (s.diff + recorded(before)).push(call.entry()));
        }
    }
}

/// The log grows by one entry for each addition of a code that is not blank
/// and for each removal, and by nothing else; what it held stays, in
/// its order, in front of the new entries.
pub proof fn law_log_length(s: SessionModel, calls: Seq<EditCall>)
    ensures
        s.run(calls).diff.len() == s.diff.len() + effective_calls(calls),
        s.run(calls).diff.subrange(0, s.diff.len() as int) == s.diff,
    decreases calls.len(),
{
    if calls.len() == 0 {
        assert(s.diff.subrange(0, s.diff.len() as int) =~= s.diff);
    } else {
        let before = calls.drop_last();
        law_log_length(s, before);
        let mid = s.run(before);
        let after = s.run(calls);
        assert(after.diff.subrange(0, s.diff.len() as int) =~= mid.diff.subrange(
            0,
            s.diff.len() as int,
        ));
    }
}

/// After any sequence of additions and removals on a freshly loaded article,
/// each removal naming a code that is visible when it is made, the visible
/// list holds, order aside, the codes of the article, plus the codes added
/// that were not blank, minus the codes removed.
pub proof fn law_visible_list(article: ArticleModel, calls: Seq<EditCall>)
    requires
        SessionModel::start(article).permits_all(calls),
    ensures
        SessionModel::start(article).run(calls).barcodes.to_multiset()
            == article.barcodes.to_multiset().add(added_codes(recorded(calls))).sub(
            removed_codes(recorded(calls)),
        ),
{
    let s = SessionModel::start(article);
    law_run(s, calls);
    lemma_replay_contents(article.barcodes, recorded(calls));
}

/// Adding a blank code changes nothing: not the visible list, not the log,
/// nor anything else.
pub proof fn law_blank_code_is_ignored(s: SessionModel, code: Seq<char>)
    requires
        is_blank(code),
    ensures
        s.add_barcode(code) == s,
{
}

/// A commit takes the whole log as it stands, and the name and cost as
/// edited.
pub proof fn law_request_carries_log(s: SessionModel)
    ensures
        s.request().barcodes == Some(s.diff),
        s.request().id == s.article.id,
        s.request().name == s.name,
        s.request().cost == s.cost,
{
}

/// Whatever an update comes back with, the edited name and cost, the visible
/// list and the log stay as they were; a success leaves the error slot too.
pub proof fn law_completion_keeps_edits(s: SessionModel, outcome: Result<(), FailureModel>)
    ensures
        s.complete(outcome).article == s.article,
        s.complete(outcome).name == s.name,
        s.complete(outcome).cost == s.cost,
        s.complete(outcome).barcodes == s.barcodes,
        s.complete(outcome).diff == s.diff,
        outcome is Ok ==> s.complete(outcome) == s,
        outcome matches Err(failure) ==> s.complete(outcome).error == failure_text(failure),
{
}

/// A failure that is not the server's own message leaves an error to show:
/// the slot holds the description of the failure, which is not empty.
pub proof fn law_other_failure_is_shown(s: SessionModel, failure: FailureModel)
    requires
        !(failure is ServerError),
    ensures
        s.complete(Err(failure)).error == description(failure),
        s.complete(Err(failure)).error.len() > 0,
{
    lemma_description_not_empty(failure);
}

/// Of two updates the one that comes back last decides the error slot,
/// whichever was sent first: its message stands if it failed; if it
/// succeeded, the slot is as the earlier one left it.
pub proof fn law_last_completion_decides(
    s: SessionModel,
    earlier: Result<(), FailureModel>,
    later: Result<(), FailureModel>,
)
    ensures
        later matches Err(failure) ==> s.complete(earlier).complete(later).error == failure_text(
            failure,
        ),
        later is Ok ==> s.complete(earlier).complete(later).error == s.complete(earlier).error,
{
}

} // verus!
