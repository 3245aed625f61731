use vstd::prelude::*;

verus! {

/// A sink's own failure: it could not take the row it was handed.
#[derive(Debug, PartialEq, Eq)]
pub struct WriteError;

/// The narrow capability the engine needs from an output: accept one emitted
/// row at a time, in emission order. Concrete sinks render, encode or store
/// the rows; the engine never depends on which.
pub trait Sink {
    /// The rows this sink has accepted so far, in the order they arrived.
    /// A sink that keeps no model of its output may leave the default, an
    /// always-empty history; a verified sink gives its own.
    open spec fn accepted(&self) -> Seq<Seq<bool>> {
        Seq::<Seq<bool>>::empty()
    }

    /// Takes one emitted row. `row_index` is the position of `row` in the
    /// emission order; the caller hands rows over in increasing index order
    /// starting at 0. On failure the sink keeps its accepted rows unchanged.
    fn accept(&mut self, row_index: u32, row: &Vec<bool>) -> (r: Result<(), WriteError>)
        requires
            row_index as nat == old(self).accepted().len(),
        ensures
            r is Ok ==> final(self).accepted() == old(self).accepted().push(row@),
            r is Err ==> final(self).accepted() == old(self).accepted(),
    ;
}

/// Copies a row, cell by cell.
fn copy_row(row: &Vec<bool>) -> (r: Vec<bool>)
    ensures
        r@ == row@,
{
    let len = row.len();
    let mut copy: Vec<bool> = Vec::new();
    let mut i: usize = 0;
    while i < len
        invariant
            i <= len,
            len == row@.len(),
            copy@.len() == i,
            forall|j: int| 0 <= j < i ==> copy@[j] == row@[j],
        decreases len - i,
    {
        copy.push(row[i]);
        i = i + 1;
    }
    proof {
        assert(copy@ =~= row@);
    }
    copy
}

/// An in-memory sink: keeps every accepted row, so a caller can inspect the
/// whole emission afterwards.
pub struct MemorySink {
    pub rows: Vec<Vec<bool>>,
}

impl MemorySink {
    /// A fresh sink holding no rows.
    pub fn new() -> (s: MemorySink)
        ensures
            s.accepted() == Seq::<Seq<bool>>::empty(),
    {
        let s = MemorySink { rows: Vec::new() };
        proof {
            assert(s.accepted() =~= Seq::<Seq<bool>>::empty());
        }
        s
    }
}

impl Sink for MemorySink {
    open spec fn accepted(&self) -> Seq<Seq<bool>> {
        self.rows@.map_values(|v: Vec<bool>| v@)
    }

    fn accept(&mut self, row_index: u32, row: &Vec<bool>) -> (r: Result<(), WriteError>) {
        let copy = copy_row(row);
        let ghost before = self.accepted();
        self.rows.push(copy);
        proof {
            assert(self.accepted() =~= before.push(row@));
        }
        Ok(())
    }
}

/// A sink that accepts and stores rows until a chosen index, then refuses
/// the row whose index equals `fail_at`. It records every index it was
/// called with, so a caller can check that emission stopped at the failure.
pub struct FailingSink {
    pub rows: Vec<Vec<bool>>,
    pub calls: Vec<u32>,
    pub fail_at: u32,
}

impl FailingSink {
    /// A fresh sink that will refuse the row with index `fail_at`.
    pub fn new(fail_at: u32) -> (s: FailingSink)
        ensures
            s.accepted() == Seq::<Seq<bool>>::empty(),
            s.fail_at == fail_at,
    {
        let s = FailingSink { rows: Vec::new(), calls: Vec::new(), fail_at };
        proof {
            assert(s.accepted() =~= Seq::<Seq<bool>>::empty());
        }
        s
    }
}

impl Sink for FailingSink {
    open spec fn accepted(&self) -> Seq<Seq<bool>> {
        self.rows@.map_values(|v: Vec<bool>| v@)
    }

    fn accept(&mut self, row_index: u32, row: &Vec<bool>) -> (r: Result<(), WriteError>) {
        self.calls.push(row_index);
        if row_index == self.fail_at {
            return Err(WriteError);
        }
        let copy = copy_row(row);
        let ghost before = self.accepted();
        self.rows.push(copy);
        proof {
            assert(self.accepted() =~= before.push(row@));
        }
        Ok(())
    }
}

} // verus!
