//! Barcodes and the structural operations recorded on an article's barcode
//! list.

use vstd::prelude::*;

verus! {

/// One scannable code of an article. Two barcodes are equal when their texts
/// are.
#[derive(Debug, PartialEq, Eq)]
pub struct Barcode(pub String);

impl View for Barcode {
    type V = Seq<char>;

    open spec fn view(&self) -> Seq<char> {
        self.0@
    }
}

impl Clone for Barcode {
    fn clone(&self) -> (copy: Self)
        ensures
            copy@ == self@,
    {
        Barcode(self.0.clone())
    }
}

/// One operation on the barcode list as a mathematical value.
pub enum DiffEntry {
    Added(Seq<char>),
    Removed(Seq<char>),
}

impl DiffEntry {
    /// The code that the operation added or removed.
    pub open spec fn code(self) -> Seq<char> {
        match self {
            DiffEntry::Added(c) => c,
            DiffEntry::Removed(c) => c,
        }
    }
}

/// One recorded operation on the barcode list: a code was added, or a code
/// was removed. It stands for what was done, not for a resulting state.
#[derive(Debug, PartialEq, Eq)]
pub enum BarcodeDiff {
    Added(String),
    Removed(String),
}

impl View for BarcodeDiff {
    type V = DiffEntry;

    open spec fn view(&self) -> DiffEntry {
        match self {
            BarcodeDiff::Added(c) => DiffEntry::Added(c@),
            BarcodeDiff::Removed(c) => DiffEntry::Removed(c@),
        }
    }
}

impl Clone for BarcodeDiff {
    fn clone(&self) -> (copy: Self)
        ensures
            copy@ == self@,
    {
        match self {
            BarcodeDiff::Added(c) => BarcodeDiff::Added(c.clone()),
            BarcodeDiff::Removed(c) => BarcodeDiff::Removed(c.clone()),
        }
    }
}

/// The texts of a list of barcodes, in order.
pub open spec fn codes(list: Seq<Barcode>) -> Seq<Seq<char>> {
    list.map_values(|b: Barcode| b@)
}

/// The operations of a log, in order.
pub open spec fn entries(log: Seq<BarcodeDiff>) -> Seq<DiffEntry> {
    log.map_values(|d: BarcodeDiff| d@)
}

/// Copies a list of barcodes.
pub fn copy_barcodes(list: &Vec<Barcode>) -> (copy: Vec<Barcode>)
    ensures
        codes(copy@) == codes(list@),
{
    let mut copy: Vec<Barcode> = Vec::new();
    let mut i: usize = 0;
    while i < list.len()
        invariant
            i <= list.len(),
            copy.len() == i,
            forall|j: int| 0 <= j < i ==> copy[j]@ == list[j]@,
        decreases list.len() - i,
    {
        copy.push(list[i].clone());
        i += 1;
    }
    assert(codes(copy@) =~= codes(list@));
    copy
}

/// Copies a log of operations.
pub fn copy_log(log: &Vec<BarcodeDiff>) -> (copy: Vec<BarcodeDiff>)
    ensures
        entries(copy@) == entries(log@),
{
    let mut copy: Vec<BarcodeDiff> = Vec::new();
    let mut i: usize = 0;
    while i < log.len()
        invariant
            i <= log.len(),
            copy.len() == i,
            forall|j: int| 0 <= j < i ==> copy[j]@ == log[j]@,
        decreases log.len() - i,
    {
        copy.push(log[i].clone());
        i += 1;
    }
    assert(entries(copy@) =~= entries(log@));
    copy
}

} // verus!
