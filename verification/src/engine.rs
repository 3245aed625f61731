use vstd::prelude::*;

use crate::bitrow::{bits_of, bv_from_elem, bv_get, bv_len, bv_set};
use crate::model::{initial_row, iterate, run, step_row, width};
use crate::rule::next_state;
use crate::sink::Sink;

verus! {

/// Construction failed: the requested row length `2 * steps + 1` does not
/// fit in the platform's addressable size.
#[derive(Debug, PartialEq, Eq)]
pub struct CapacityError;

/// Generation stopped: the sink refused the row with this index. No row with
/// a larger index was handed to the sink.
#[derive(Debug, PartialEq, Eq)]
pub struct SinkError {
    pub row_index: u32,
}

/// The automaton engine: owns the two fixed-width bit rows and drives the
/// simulation. The rows are allocated once, mutated in place each step, and
/// exchanged by swap, never copied.
pub struct Generator {
    rule: u8,
    steps: u32,
    current: bit_vec::BitVec<u32>,
    next: bit_vec::BitVec<u32>,
}

impl Generator {
    /// The cells of the current row.
    pub closed spec fn bits(&self) -> Seq<bool> {
        bits_of(self.current)
    }

    /// The rule code this engine was built with.
    pub closed spec fn rule_spec(&self) -> u8 {
        self.rule
    }

    /// The step count this engine was built with.
    pub closed spec fn steps_spec(&self) -> u32 {
        self.steps
    }

    /// Well-formed: both rows hold exactly `2 * steps + 1` cells, a width
    /// that fits in a `usize`.
    pub closed spec fn wf(&self) -> bool {
        &&& bits_of(self.current).len() == width(self.steps as nat)
        &&& bits_of(self.next).len() == width(self.steps as nat)
        &&& width(self.steps as nat) <= usize::MAX
    }

    /// The rule code this engine was built with.
    pub fn rule_code(&self) -> (r: u8)
        ensures
            r == self.rule_spec(),
    {
        self.rule
    }

    /// The step count this engine was built with.
    pub fn step_count(&self) -> (s: u32)
        ensures
            s == self.steps_spec(),
    {
        self.steps
    }

    /// Allocates the two all-false rows of length `2 * steps + 1`. Fails
    /// exactly when that length does not fit in a `usize`; it never
    /// truncates.
    pub fn new(rule: u8, steps: u32) -> (r: Result<Generator, CapacityError>)
        ensures
            r is Ok <==> width(steps as nat) <= usize::MAX,
            r is Ok ==> (r->Ok_0).wf(),
            r is Ok ==> (r->Ok_0).rule_spec() == rule,
            r is Ok ==> (r->Ok_0).steps_spec() == steps,
            r is Ok ==> (r->Ok_0).bits() == Seq::new(width(steps as nat), |i: int| false),
    {
        let len64: u64 = 2 * (steps as u64) + 1;
        if len64 > (usize::MAX as u64) {
            return Err(CapacityError);
        }
        let len: usize = len64 as usize;
        let current = bv_from_elem(len, false);
        let next = bv_from_elem(len, false);
        Ok(Generator { rule, steps, current, next })
    }

    /// Sets the center cell (index `steps`) of the current row to true. From
    /// a freshly built engine this yields the canonical initial row; calling
    /// it again when that cell is already true changes nothing.
    pub fn init(&mut self)
        requires
            old(self).wf(),
        ensures
            final(self).wf(),
            final(self).rule_spec() == old(self).rule_spec(),
            final(self).steps_spec() == old(self).steps_spec(),
            final(self).bits() == old(self).bits().update(old(self).steps_spec() as int, true),
            old(self).bits() == Seq::new(width(old(self).steps_spec() as nat), |i: int| false)
                ==> final(self).bits() == initial_row(old(self).steps_spec() as nat),
    {
        let center = self.steps as usize;
        bv_set(&mut self.current, center, true);
        proof {
            let steps = old(self).steps_spec() as nat;
            if old(self).bits() == Seq::new(width(steps), |i: int| false) {
                assert(self.bits() =~= initial_row(steps));
            }
        }
    }

    /// One transition: computes the next row from the current row, reading
    /// the neighbors beyond either edge as false, then swaps the two rows in
    /// constant time.
    pub fn step(&mut self)
        requires
            old(self).wf(),
        ensures
            final(self).wf(),
            final(self).rule_spec() == old(self).rule_spec(),
            final(self).steps_spec() == old(self).steps_spec(),
            final(self).bits() == step_row(old(self).rule_spec(), old(self).bits()),
    {
        let ghost cur0 = bits_of(self.current);
        let ghost target = step_row(self.rule, cur0);
        let len = bv_len(&self.current);
        if len == 1 {
            let c = bv_get(&self.current, 0);
            let b = next_state(self.rule, false, c, false);
            bv_set(&mut self.next, 0, b);
            proof {
                assert(bits_of(self.next) =~= target);
            }
        } else {
            let end = len - 1;
            let c0 = bv_get(&self.current, 0);
            let c1 = bv_get(&self.current, 1);
            let b0 = next_state(self.rule, false, c0, c1);
            bv_set(&mut self.next, 0, b0);
            let ce = bv_get(&self.current, end);
            let cp = bv_get(&self.current, end - 1);
            let be = next_state(self.rule, cp, ce, false);
            bv_set(&mut self.next, end, be);
            let ghost rule0 = self.rule;
            let ghost steps0 = self.steps;
            let mut i: usize = 1;
            while i < end
                invariant
                    1 <= i <= end,
                    end == len - 1,
                    2 <= len,
                    self.rule == rule0,
                    self.steps == steps0,
                    bits_of(self.current) == cur0,
                    len as nat == cur0.len(),
                    bits_of(self.next).len() == cur0.len(),
                    target == step_row(rule0, cur0),
                    forall|j: int|
                        (0 <= j < i || j == end) ==> bits_of(self.next)[j] == target[j],
                decreases end - i,
            {
                let l = bv_get(&self.current, i - 1);
                let c = bv_get(&self.current, i);
                let r = bv_get(&self.current, i + 1);
                let b = next_state(self.rule, l, c, r);
                bv_set(&mut self.next, i, b);
                i = i + 1;
            }
            proof {
                assert(bits_of(self.next) =~= target);
            }
        }
        core::mem::swap(&mut self.current, &mut self.next);
    }

    /// A fresh copy of the current row. Reading changes nothing: two calls
    /// without an intervening `step` return identical content.
    pub fn current_row(&self) -> (r: Vec<bool>)
        ensures
            r@ == self.bits(),
    {
        let ghost bits = bits_of(self.current);
        let len = bv_len(&self.current);
        let mut v: Vec<bool> = Vec::new();
        let mut i: usize = 0;
        while i < len
            invariant
                i <= len,
                bits == bits_of(self.current),
                len as nat == bits.len(),
                v@.len() == i,
                forall|j: int| 0 <= j < i ==> v@[j] == bits[j],
            decreases len - i,
        {
            v.push(bv_get(&self.current, i));
            i = i + 1;
        }
        proof {
            assert(v@ =~= bits);
        }
        v
    }

    /// Drives a whole run: hands the current row to the sink as row 0, then
    /// `steps` times computes one transition and hands the new row over, in
    /// increasing row order. A sink failure is fatal: generation stops at
    /// once, the error carries the index of the refused row, and no row with
    /// a larger index is handed to the sink.
    pub fn generate<S: Sink>(&mut self, sink: &mut S) -> (r: Result<(), SinkError>)
        requires
            old(self).wf(),
            old(sink).accepted() == Seq::<Seq<bool>>::empty(),
        ensures
            final(self).wf(),
            final(self).rule_spec() == old(self).rule_spec(),
            final(self).steps_spec() == old(self).steps_spec(),
            r is Ok ==> final(sink).accepted() == run(
                old(self).rule_spec(),
                old(self).bits(),
                old(self).steps_spec() as nat + 1,
            ),
            r is Ok ==> final(self).bits() == iterate(
                old(self).rule_spec(),
                old(self).bits(),
                old(self).steps_spec() as nat,
            ),
            r is Err ==> (r->Err_0).row_index <= old(self).steps_spec(),
            r is Err ==> final(sink).accepted() == run(
                old(self).rule_spec(),
                old(self).bits(),
                (r->Err_0).row_index as nat,
            ),
            r is Err ==> final(self).bits() == iterate(
                old(self).rule_spec(),
                old(self).bits(),
                (r->Err_0).row_index as nat,
            ),
    {
        let ghost rule0 = self.rule;
        let ghost steps0 = self.steps;
        let ghost bits0 = bits_of(self.current);
        let row0 = self.current_row();
        match sink.accept(0, &row0) {
            Ok(()) => {},
            Err(_) => {
                proof {
                    assert(sink.accepted() =~= run(rule0, bits0, 0));
                }
                return Err(SinkError { row_index: 0 });
            },
        }
        proof {
            assert(sink.accepted() =~= run(rule0, bits0, 1));
        }
        let steps = self.steps;
        let mut k: u32 = 0;
        while k < steps
            invariant
                k <= steps,
                steps == steps0,
                rule0 == old(self).rule_spec(),
                steps0 == old(self).steps_spec(),
                bits0 == old(self).bits(),
                self.wf(),
                self.rule == rule0,
                self.steps == steps0,
                self.bits() == iterate(rule0, bits0, k as nat),
                sink.accepted() == run(rule0, bits0, k as nat + 1),
            decreases steps - k,
        {
            self.step();
            k = k + 1;
            let row = self.current_row();
            match sink.accept(k, &row) {
                Ok(()) => {},
                Err(_) => {
                    return Err(SinkError { row_index: k });
                },
            }
            proof {
                assert(sink.accepted() =~= run(rule0, bits0, k as nat + 1));
            }
        }
        Ok(())
    }
}

} // verus!
