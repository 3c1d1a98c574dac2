//! The external address space as the traversal sees it: a finite table of
//! addresses, each answering a read with either the pointee record or a read
//! error.  An address outside the table fails to read.

use vstd::prelude::*;
use crate::model::Record;
use crate::model::RecordModel;

verus! {

/// What one read of an address yields.
#[derive(Clone)]
pub enum ReadOutcome {
    /// The decoded record resident at the address.
    Value(Record),
    /// A read error, with its message.
    Fault(String),
}

/// One address of the external space and what reading it yields.
#[derive(Clone)]
pub struct MemEntry {
    pub addr: u64,
    pub outcome: ReadOutcome,
}

/// The readable part of the external address space.
#[derive(Clone)]
pub struct Memory {
    pub entries: Vec<MemEntry>,
}

/// The mathematical model of one read outcome.
pub enum OutcomeModel {
    Value(RecordModel),
    Fault(Seq<char>),
}

/// The mathematical model of one memory entry.
pub struct EntryModel {
    pub addr: u64,
    pub outcome: OutcomeModel,
}

impl View for ReadOutcome {
    type V = OutcomeModel;

    open spec fn view(&self) -> OutcomeModel {
        match self {
            ReadOutcome::Value(r) => OutcomeModel::Value(r@),
            ReadOutcome::Fault(m) => OutcomeModel::Fault(m@),
        }
    }
}

impl View for MemEntry {
    type V = EntryModel;

    open spec fn view(&self) -> EntryModel {
        EntryModel { addr: self.addr, outcome: self.outcome@ }
    }
}

impl View for Memory {
    type V = Seq<EntryModel>;

    open spec fn view(&self) -> Seq<EntryModel> {
        self.entries@.map_values(|e: MemEntry| e@)
    }
}

/// The message a read reports for an address no entry covers.
pub open spec fn unmapped_msg() -> Seq<char> {
    "unmapped address"@
}

/// What reading `addr` yields, scanning the entries from position `i` on:
/// the first entry for `addr` decides, and an uncovered address faults.
pub open spec fn lookup_from(mem: Seq<EntryModel>, i: int, addr: u64) -> OutcomeModel
    decreases mem.len() - i,
{
    if i < 0 || i >= mem.len() {
        OutcomeModel::Fault(unmapped_msg())
    } else if mem[i].addr == addr {
        mem[i].outcome
    } else {
        lookup_from(mem, i + 1, addr)
    }
}

/// What reading `addr` from the memory yields.
pub open spec fn read_outcome(mem: Seq<EntryModel>, addr: u64) -> OutcomeModel {
    lookup_from(mem, 0, addr)
}

/// Every record the memory holds is well formed.
pub open spec fn mem_wf(mem: Seq<EntryModel>) -> bool {
    forall|i: int|
        0 <= i < mem.len() ==> match (#[trigger] mem[i]).outcome {
            OutcomeModel::Value(r) => r.wf(),
            OutcomeModel::Fault(_) => true,
        }
}

impl Memory {
    /// Whether every record the memory holds is well formed.
    pub fn well_formed(&self) -> (b: bool)
        ensures
            b == mem_wf(self@),
    {
        let n = self.entries.len();
        let mut i: usize = 0;
        while i < n
            invariant
                n == self.entries@.len(),
                i <= n,
                forall|j: int|
                    0 <= j < i ==> match (#[trigger] self@[j]).outcome {
                        OutcomeModel::Value(r) => r.wf(),
                        OutcomeModel::Fault(_) => true,
                    },
            decreases n - i,
        {
            match &self.entries[i].outcome {
                ReadOutcome::Value(r) => {
                    if !r.well_formed() {
                        assert(self@[i as int].outcome matches OutcomeModel::Value(t) && !t.wf());
                        return false;
                    }
                },
                ReadOutcome::Fault(_) => {},
            }
            i += 1;
        }
        true
    }

    /// The position of the entry that decides a read of `addr`, if any
    /// entry covers the address.
    pub fn find_entry(&self, addr: u64) -> (r: Option<usize>)
        ensures
            match r {
                Some(j) => j < self.entries@.len() && self@[j as int].addr == addr
                    && read_outcome(self@, addr) == self@[j as int].outcome,
                None => read_outcome(self@, addr) == OutcomeModel::Fault(unmapped_msg()),
            },
    {
        let n = self.entries.len();
        let mut i: usize = 0;
        while i < n
            invariant
                n == self.entries@.len(),
                i <= n,
                lookup_from(self@, 0, addr) == lookup_from(self@, i as int, addr),
            decreases n - i,
        {
            if self.entries[i].addr == addr {
                return Some(i);
            }
            i += 1;
        }
        None
    }
}

} // verus!
