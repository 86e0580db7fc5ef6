//! The edit session: the editable copy of an article, the log of what was
//! done to its barcode list, and the error slot.

use crate::barcode::{codes, copy_barcodes, copy_log, entries, Barcode, BarcodeDiff, DiffEntry};
use crate::failure::{failure_message, FailureModel, UpdateError};
use crate::model::{lemma_record_keeps_wf, ArticleModel, RequestModel, SessionModel};
use crate::text::{is_blank, text_is_blank};
use vstd::prelude::*;

verus! {

/// An inventory article as loaded: identity, name, cost in its canonical
/// text form, and barcodes.
#[derive(Debug, PartialEq, Eq)]
pub struct Article {
    pub id: u64,
    pub name: String,
    pub cost: String,
    pub barcodes: Vec<Barcode>,
}

impl View for Article {
    type V = ArticleModel;

    open spec fn view(&self) -> ArticleModel {
        ArticleModel {
            id: self.id,
            name: self.name@,
            cost: self.cost@,
            barcodes: codes(self.barcodes@),
        }
    }
}

impl Clone for Article {
    fn clone(&self) -> (copy: Self)
        ensures
            copy@ == self@,
    {
        Article {
            id: self.id,
            name: self.name.clone(),
            cost: self.cost.clone(),
            barcodes: copy_barcodes(&self.barcodes),
        }
    }
}

/// One update to send: the article's identity, the new name and cost, and
/// the operations on its barcode list in the order in which they were made.
#[derive(Debug, PartialEq, Eq)]
pub struct UpdateRequest {
    pub id: u64,
    pub name: String,
    pub cost: String,
    pub barcodes: Option<Vec<BarcodeDiff>>,
}

impl View for UpdateRequest {
    type V = RequestModel;

    open spec fn view(&self) -> RequestModel {
        RequestModel {
            id: self.id,
            name: self.name@,
            cost: self.cost@,
            barcodes: match self.barcodes {
                Some(log) => Some(entries(log@)),
                None => None,
            },
        }
    }
}

/// The outcome of an update as a mathematical value.
pub open spec fn outcome_model(outcome: Result<(), UpdateError>) -> Result<(), FailureModel> {
    match outcome {
        Ok(_) => Ok(()),
        Err(failure) => Err(failure@),
    }
}

/// The state of one edit session on one article.
#[derive(Debug)]
pub struct EditSession {
    article: Article,
    name: String,
    cost: String,
    barcodes: Vec<Barcode>,
    diff: Vec<BarcodeDiff>,
    error: String,
}

impl View for EditSession {
    type V = SessionModel;

    closed spec fn view(&self) -> SessionModel {
        SessionModel {
            article: self.article@,
            name: self.name@,
            cost: self.cost@,
            barcodes: codes(self.barcodes@),
            diff: entries(self.diff@),
            error: self.error@,
        }
    }
}

impl Clone for EditSession {
    fn clone(&self) -> (copy: Self)
        ensures
            copy@ == self@,
    {
        EditSession {
            article: self.article.clone(),
            name: self.name.clone(),
            cost: self.cost.clone(),
            barcodes: copy_barcodes(&self.barcodes),
            diff: copy_log(&self.diff),
            error: self.error.clone(),
        }
    }
}

/// Pushing onto a list of barcodes pushes the text onto its texts.
proof fn lemma_codes_push(list: Seq<Barcode>, b: Barcode)
    ensures
        codes(list.push(b)) == codes(list).push(b@),
{
    assert(codes(list.push(b)) =~= codes(list).push(b@));
}

/// Pushing onto a log pushes the operation onto its operations.
proof fn lemma_entries_push(log: Seq<BarcodeDiff>, d: BarcodeDiff)
    ensures
        entries(log.push(d)) == entries(log).push(d@),
{
    assert(entries(log.push(d)) =~= entries(log).push(d@));
}

impl EditSession {
    /// The visible list is what the logged operations make of the loaded
    /// list, each of them applicable when it was performed.
    pub open spec fn wf(&self) -> bool {
        self@.wf()
    }

    /// Opens a session on a loaded article: the editable fields start as
    /// the article's, the log and the error slot start empty.
    pub fn new(article: Article) -> (session: EditSession)
        ensures
            session@ == SessionModel::start(article@),
            session.wf(),
    {
        let name = article.name.clone();
        let cost = article.cost.clone();
        let barcodes = copy_barcodes(&article.barcodes);
        let session = EditSession {
            article,
            name,
            cost,
            barcodes,
            diff: Vec::new(),
            error: String::new(),
        };
        assert(entries(session.diff@) =~= Seq::empty());
        session
    }

    /// The identity of the article under edit.
    pub fn id(&self) -> (id: u64)
        ensures
            id == self@.article.id,
    {
        self.article.id
    }

    /// The article as it was loaded.
    pub fn article(&self) -> (article: &Article)
        ensures
            article@ == self@.article,
    {
        &self.article
    }

    /// The name as edited.
    pub fn name(&self) -> (name: &String)
        ensures
            name@ == self@.name,
    {
        &self.name
    }

    /// The cost as edited, as text.
    pub fn cost(&self) -> (cost: &String)
        ensures
            cost@ == self@.cost,
    {
        &self.cost
    }

    /// The visible barcode list, in display order.
    pub fn barcodes(&self) -> (list: &Vec<Barcode>)
        ensures
            codes(list@) == self@.barcodes,
    {
        &self.barcodes
    }

    /// A snapshot of the log of operations, oldest first.
    pub fn diff(&self) -> (log: Vec<BarcodeDiff>)
        ensures
            entries(log@) == self@.diff,
    {
        copy_log(&self.diff)
    }

    /// The error slot.
    pub fn error(&self) -> (text: &String)
        ensures
            text@ == self@.error,
    {
        &self.error
    }

    /// Whether an error is shown: the error slot is not empty.
    pub fn has_error(&self) -> (shown: bool)
        ensures
            shown == (self@.error.len() > 0),
    {
        !self.error.as_str().is_empty()
    }

    /// Replaces the name; nothing is validated here.
    pub fn set_name(&mut self, text: String)
        ensures
            final(self)@ == old(self)@.set_name(text@),
            old(self).wf() ==> final(self).wf(),
    {
        self.name = text;
    }

    /// Replaces the cost text; nothing is validated here.
    pub fn set_cost(&mut self, text: String)
        ensures
            final(self)@ == old(self)@.set_cost(text@),
            old(self).wf() ==> final(self).wf(),
    {
        self.cost = text;
    }

    /// The place of the first visible barcode equal to `code`, if there is
    /// one.
    pub fn position(&self, code: &String) -> (place: Option<usize>)
        ensures
            place is Some <==> self@.barcodes.contains(code@),
            place is Some ==> self@.barcodes.index_of_first(code@) == Some(place->0 as int),
    {
        let mut i: usize = 0;
        while i < self.barcodes.len()
            invariant
                i <= self.barcodes.len(),
                forall|j: int| 0 <= j < i ==> self.barcodes[j]@ != code@,
            decreases self.barcodes.len() - i,
        {
            if self.barcodes[i].0 == *code {
                proof {
                    let texts = codes(self.barcodes@);
                    texts.index_of_first_ensures(code@);
                    assert(texts[i as int] == code@);
                    let first = texts.index_of_first(code@).unwrap();
                    if first < i {
                        assert(self.barcodes[first]@ != code@);
                    } else if i < first {
                        assert(texts[i as int] != code@);
                    }
                }
                return Some(i);
            }
            i += 1;
        }
        proof {
            let texts = codes(self.barcodes@);
            if texts.contains(code@) {
                let k = choose|k: int| 0 <= k < texts.len() && texts[k] == code@;
                assert(self.barcodes[k]@ != code@);
            }
        }
        None
    }

    /// Adds a barcode. A code that is blank is turned down and nothing
    /// changes; any other code is appended to the visible list as it is and
    /// recorded as added. Codes already in the list are not looked for.
    /// Returns whether the code was taken.
    pub fn add_barcode(&mut self, code: String) -> (taken: bool)
        ensures
            taken == !is_blank(code@),
            final(self)@ == old(self)@.add_barcode(code@),
            old(self).wf() ==> final(self).wf(),
    {
        if text_is_blank(code.as_str()) {
            return false;
        }
        proof {
            lemma_codes_push(self.barcodes@, Barcode(code));
            lemma_entries_push(self.diff@, BarcodeDiff::Added(code));
            if old(self).wf() {
                lemma_record_keeps_wf(old(self)@, DiffEntry::Added(code@));
            }
        }
        self.barcodes.push(Barcode(code.clone()));
        self.diff.push(BarcodeDiff::Added(code));
        true
    }

    /// Removes the first visible barcode equal to `code` and records the
    /// removal. The code must be in the visible list: rows are removed
    /// from what is shown.
    pub fn remove_barcode(&mut self, code: String)
        requires
            old(self)@.barcodes.contains(code@),
        ensures
            final(self)@ == old(self)@.remove_barcode(code@),
            old(self).wf() ==> final(self).wf(),
    {
        let place = self.position(&code);
        let i: usize = place.unwrap();
        proof {
            lemma_entries_push(self.diff@, BarcodeDiff::Removed(code));
            old(self)@.barcodes.index_of_first_ensures(code@);
            assert(codes(self.barcodes@.remove(i as int)) =~= codes(self.barcodes@).remove(
                i as int,
            ));
            if old(self).wf() {
                lemma_record_keeps_wf(old(self)@, DiffEntry::Removed(code@));
            }
        }
        self.barcodes.remove(i);
        self.diff.push(BarcodeDiff::Removed(code));
    }

    /// Assembles the update of a commit from the current name and cost and a
    /// snapshot of the whole log. The session is left as it is.
    pub fn commit(&self) -> (request: UpdateRequest)
        ensures
            request@ == self@.request(),
    {
        UpdateRequest {
            id: self.article.id,
            name: self.name.clone(),
            cost: self.cost.clone(),
            barcodes: Some(copy_log(&self.diff)),
        }
    }

    /// Takes in the outcome of an update. A success changes nothing. A
    /// failure writes its message over the error slot and keeps the edited
    /// fields, the visible list and the log, so that the commit can be
    /// repeated.
    pub fn complete(&mut self, outcome: Result<(), UpdateError>)
        ensures
            final(self)@ == old(self)@.complete(outcome_model(outcome)),
            old(self).wf() ==> final(self).wf(),
    {
        match outcome {
            Ok(_) => {},
            Err(failure) => {
                self.error = failure_message(failure);
            },
        }
    }
}

} // verus!
