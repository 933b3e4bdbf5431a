//! The circuit-synthesis substrate: the witness grid being filled, region
//! placement, and the permutation (equality) argument bookkeeping.
//!
//! One [`Synthesizer`] value is the state of one synthesis pass. Regions are
//! placed one below the other down the grid; the region opened last is the
//! one currently being built, and assignments address rows by their offset
//! within it, growing the region as cells are used.

use vstd::prelude::*;

verus! {

/// Which synthesis pass is running. Key generation lays out the circuit
/// without concrete witness values; proof generation must supply them.
#[derive(Copy, Clone, Debug, PartialEq, Eq, Structural)]
pub enum SynthesisMode {
    KeyGeneration,
    ProofGeneration,
}

/// The two failure classes of this core.
#[derive(Copy, Clone, Debug, PartialEq, Eq, Structural)]
pub enum Error {
    /// A concrete witness value was required but absent.
    MissingWitness,
    /// A copy constraint was requested on a column that the permutation
    /// configuration does not enable for equality checks.
    InvalidPermutation,
}

/// An advice column of the witness grid, identified by its index.
#[derive(Copy, Clone, Debug, PartialEq, Eq, Structural)]
pub struct Column {
    pub index: usize,
}

/// A grid coordinate that the permutation argument can address.
#[derive(Copy, Clone, Debug, PartialEq, Eq, Structural)]
pub struct Cell {
    pub column: Column,
    pub row: usize,
}

/// The permutation configuration: which columns are enabled for equality
/// (copy) constraints.
#[derive(Clone, Debug)]
pub struct Permutation {
    columns: Vec<Column>,
}

impl Permutation {
    /// The columns enabled for copy constraints.
    pub closed spec fn spec_columns(&self) -> Seq<Column> {
        self.columns@
    }

    /// Whether `column` takes part in the permutation argument.
    pub open spec fn spec_contains(&self, column: Column) -> bool {
        self.spec_columns().contains(column)
    }

    pub fn new(columns: Vec<Column>) -> (perm: Self)
        ensures
            perm.spec_columns() == columns@,
    {
        Permutation { columns }
    }

    /// Whether `column` is enabled for copy constraints.
    pub fn contains(&self, column: Column) -> (enabled: bool)
        ensures
            enabled == self.spec_contains(column),
    {
        let mut i: usize = 0;
        while i < self.columns.len()
            invariant
                i <= self.columns@.len(),
                forall|j: int| 0 <= j < i ==> self.columns@[j] != column,
            decreases self.columns@.len() - i,
        {
            if self.columns[i] == column {
                assert(self.spec_columns().contains(column)) by {
                    assert(self.spec_columns()[i as int] == column);
                }
                return true;
            }
            i = i + 1;
        }
        false
    }
}

/// The state of one synthesis pass: the assignments made to the witness
/// grid so far, the regions placed, and the equality constraints registered
/// for the permutation argument.
pub struct Synthesizer<F> {
    mode: SynthesisMode,
    num_regions: usize,
    region_start: usize,
    next_row: usize,
    assignments: Vec<(Cell, Option<F>)>,
    equalities: Vec<(Cell, Cell)>,
}

impl<F> Synthesizer<F> {
    /// The synthesis pass this state belongs to.
    pub closed spec fn spec_mode(&self) -> SynthesisMode {
        self.mode
    }

    /// How many regions have been opened.
    pub closed spec fn spec_num_regions(&self) -> usize {
        self.num_regions
    }

    /// The first row of the region currently being built.
    pub closed spec fn spec_region_start(&self) -> usize {
        self.region_start
    }

    /// The first row below every row used so far.
    pub closed spec fn spec_next_row(&self) -> usize {
        self.next_row
    }

    /// Every cell assignment made so far, in order, each with the value it
    /// received (absent during key generation).
    pub closed spec fn spec_assignments(&self) -> Seq<(Cell, Option<F>)> {
        self.assignments@
    }

    /// Every equality constraint registered so far, in order.
    pub closed spec fn spec_equalities(&self) -> Seq<(Cell, Cell)> {
        self.equalities@
    }

    /// Whether this pass must produce a concrete witness.
    pub open spec fn requires_witness(&self) -> bool {
        self.spec_mode() == SynthesisMode::ProofGeneration
    }

    /// A fresh synthesis pass: empty grid, no regions, no constraints.
    pub fn new(mode: SynthesisMode) -> (synth: Self)
        ensures
            synth.spec_mode() == mode,
            synth.spec_num_regions() == 0,
            synth.spec_region_start() == 0,
            synth.spec_next_row() == 0,
            synth.spec_assignments().len() == 0,
            synth.spec_equalities().len() == 0,
    {
        Synthesizer {
            mode,
            num_regions: 0,
            region_start: 0,
            next_row: 0,
            assignments: Vec::new(),
            equalities: Vec::new(),
        }
    }

    /// Open a fresh region immediately below every row used so far. Its
    /// extent grows as cells are assigned into it.
    pub fn open_region(&mut self)
        requires
            old(self).spec_num_regions() < usize::MAX,
        ensures
            final(self).spec_mode() == old(self).spec_mode(),
            final(self).spec_num_regions() == old(self).spec_num_regions() + 1,
            final(self).spec_region_start() == old(self).spec_next_row(),
            final(self).spec_next_row() == old(self).spec_next_row(),
            final(self).spec_assignments() == old(self).spec_assignments(),
            final(self).spec_equalities() == old(self).spec_equalities(),
    {
        self.num_regions = self.num_regions + 1;
        self.region_start = self.next_row;
    }

    /// Whether this pass must produce a concrete witness.
    pub fn witness_required(&self) -> (required: bool)
        ensures
            required == self.requires_witness(),
    {
        self.mode == SynthesisMode::ProofGeneration
    }

    /// Assign `value` at `column` and row offset `offset` within the region
    /// currently being built, recording it in the grid and returning the
    /// cell's coordinate.
    ///
    /// During proof generation an absent value is a missing witness and the
    /// state is left untouched; during key generation absent values are
    /// accepted, since no witness is produced.
    pub fn assign_advice(&mut self, column: Column, offset: usize, value: Option<F>) -> (result:
        Result<Cell, Error>)
        requires
            old(self).spec_region_start() + offset < usize::MAX,
        ensures
            result is Err <==> old(self).requires_witness() && value is None,
            match result {
                Ok(cell) => {
                    &&& !(old(self).requires_witness() && value is None)
                    &&& cell == (Cell {
                        column,
                        row: (old(self).spec_region_start() + offset) as usize,
                    })
                    &&& final(self).spec_assignments() == old(self).spec_assignments().push(
                        (cell, value),
                    )
                    &&& final(self).spec_equalities() == old(self).spec_equalities()
                    &&& final(self).spec_mode() == old(self).spec_mode()
                    &&& final(self).spec_num_regions() == old(self).spec_num_regions()
                    &&& final(self).spec_region_start() == old(self).spec_region_start()
                    &&& final(self).spec_next_row() == (if cell.row + 1 > old(self).spec_next_row() {
                        cell.row + 1
                    } else {
                        old(self).spec_next_row() as int
                    })
                },
                Err(e) => {
                    &&& e == Error::MissingWitness
                    &&& old(self).requires_witness() && value is None
                    &&& *final(self) == *old(self)
                },
            },
    {
        if self.witness_required() && value.is_none() {
            return Err(Error::MissingWitness);
        }
        let row = self.region_start + offset;
        let cell = Cell { column, row };
        self.assignments.push((cell, value));
        if row + 1 > self.next_row {
            self.next_row = row + 1;
        }
        Ok(cell)
    }

    /// Register that `left` and `right` must hold equal values, enforced
    /// later by the permutation argument over the full grid. Both columns
    /// must be enabled under `perm`; otherwise nothing is recorded.
    pub fn constrain_equal(&mut self, perm: &Permutation, left: Cell, right: Cell) -> (result:
        Result<(), Error>)
        ensures
            result is Err <==> !(perm.spec_contains(left.column) && perm.spec_contains(
                right.column,
            )),
            match result {
                Ok(_) => {
                    &&& perm.spec_contains(left.column) && perm.spec_contains(right.column)
                    &&& final(self).spec_equalities() == old(self).spec_equalities().push(
                        (left, right),
                    )
                    &&& final(self).spec_assignments() == old(self).spec_assignments()
                    &&& final(self).spec_mode() == old(self).spec_mode()
                    &&& final(self).spec_num_regions() == old(self).spec_num_regions()
                    &&& final(self).spec_region_start() == old(self).spec_region_start()
                    &&& final(self).spec_next_row() == old(self).spec_next_row()
                },
                Err(e) => {
                    &&& e == Error::InvalidPermutation
                    &&& !(perm.spec_contains(left.column) && perm.spec_contains(right.column))
                    &&& *final(self) == *old(self)
                },
            },
    {
        if !(perm.contains(left.column) && perm.contains(right.column)) {
            return Err(Error::InvalidPermutation);
        }
        self.equalities.push((left, right));
        Ok(())
    }

    /// The synthesis pass this state belongs to.
    pub fn mode(&self) -> (mode: SynthesisMode)
        ensures
            mode == self.spec_mode(),
    {
        self.mode
    }

    /// How many regions have been opened.
    pub fn num_regions(&self) -> (count: usize)
        ensures
            count == self.spec_num_regions(),
    {
        self.num_regions
    }

    /// The first row of the region currently being built.
    pub fn region_start(&self) -> (row: usize)
        ensures
            row == self.spec_region_start(),
    {
        self.region_start
    }

    /// The first row below every row used so far.
    pub fn next_row(&self) -> (row: usize)
        ensures
            row == self.spec_next_row(),
    {
        self.next_row
    }

    /// Every cell assignment made so far, in order.
    pub fn assignments(&self) -> (assigned: &Vec<(Cell, Option<F>)>)
        ensures
            assigned@ == self.spec_assignments(),
    {
        &self.assignments
    }

    /// Every equality constraint registered so far, in order.
    pub fn equalities(&self) -> (pairs: &Vec<(Cell, Cell)>)
        ensures
            pairs@ == self.spec_equalities(),
    {
        &self.equalities
    }
}

} // verus!
