//! The gadget-facing layer: circuit variables, the private-load capability,
//! and the copy-constrain operation.

use vstd::prelude::*;
use crate::synthesis::{Cell, Column, Error, Permutation, Synthesizer};

verus! {

/// A variable representing a number: one witness cell together with the
/// value assigned there, known during proof generation only.
///
/// The coordinate never changes after construction, and the value, when
/// present, is exactly the value that was assigned at that coordinate.
#[derive(Copy, Clone, Debug)]
pub struct CellValue<F> {
    cell: Cell,
    value: Option<F>,
}

/// The capability every circuit-variable representation offers gadget code:
/// construction from a cell and an optional value, and accessors for both.
/// Construction round-trips: the accessors return exactly what was stored.
pub trait Var<F: Copy>: Sized {
    /// The stored coordinate, for specifications.
    spec fn spec_cell(&self) -> Cell;

    /// The stored optional value, for specifications.
    spec fn spec_value(&self) -> Option<F>;

    /// Pure data assembly; no effect on the circuit.
    fn new(cell: Cell, value: Option<F>) -> (var: Self)
        ensures
            var.spec_cell() == cell,
            var.spec_value() == value,
    ;

    /// The cell this variable was assigned at.
    fn cell(&self) -> (cell: Cell)
        ensures
            cell == self.spec_cell(),
    ;

    /// The value assigned there, absent during key generation.
    fn value(&self) -> (value: Option<F>)
        ensures
            value == self.spec_value(),
    ;
}

impl<F: Copy> Var<F> for CellValue<F> {
    closed spec fn spec_cell(&self) -> Cell {
        self.cell
    }

    closed spec fn spec_value(&self) -> Option<F> {
        self.value
    }

    fn new(cell: Cell, value: Option<F>) -> (var: Self) {
        CellValue { cell, value }
    }

    fn cell(&self) -> (cell: Cell) {
        self.cell
    }

    fn value(&self) -> (value: Option<F>) {
        self.value
    }
}

/// The capability a chip adopts to load private values. The provided
/// implementation opens a fresh single-row region, assigns the value at row
/// offset `0` of the chosen column, and returns it wrapped as a variable.
///
/// With a present value it always succeeds, and so it does with an absent
/// value during key generation; an absent value during proof generation is
/// a missing witness, reported without touching the synthesis state.
pub trait UtilitiesInstructions<F: Copy> {
    /// The variable representation this chip produces.
    type Var: Var<F>;

    fn load_private(
        &self,
        layouter: &mut Synthesizer<F>,
        column: Column,
        value: Option<F>,
    ) -> (result: Result<Self::Var, Error>)
        requires
            old(layouter).spec_next_row() < usize::MAX,
            old(layouter).spec_num_regions() < usize::MAX,
        ensures
            result is Err <==> old(layouter).requires_witness() && value is None,
            match result {
                Ok(var) => {
                    &&& !(old(layouter).requires_witness() && value is None)
                    &&& var.spec_value() == value
                    &&& var.spec_cell() == (Cell { column, row: old(layouter).spec_next_row() })
                    &&& final(layouter).spec_assignments() == old(layouter).spec_assignments().push(
                        (var.spec_cell(), value),
                    )
                    &&& final(layouter).spec_equalities() == old(layouter).spec_equalities()
                    &&& final(layouter).spec_mode() == old(layouter).spec_mode()
                    &&& final(layouter).spec_num_regions() == old(layouter).spec_num_regions() + 1
                    &&& final(layouter).spec_region_start() == old(layouter).spec_next_row()
                    &&& final(layouter).spec_next_row() == old(layouter).spec_next_row() + 1
                },
                Err(e) => {
                    &&& e == Error::MissingWitness
                    &&& old(layouter).requires_witness() && value is None
                    &&& *final(layouter) == *old(layouter)
                },
            },
    {
        if layouter.witness_required() && value.is_none() {
            return Err(Error::MissingWitness);
        }
        layouter.open_region();
        let cell = match layouter.assign_advice(column, 0, value) {
            Ok(cell) => cell,
            Err(e) => return Err(e),
        };
        Ok(Var::new(cell, value))
    }
}

/// Assigns a cell at a specific offset within the region currently being
/// built, constraining it to the same value as another cell (which may be
/// in any region).
///
/// Assigning the value and registering the equality are one atomic step:
/// either the grid gains the new cell and the equality set gains the pair
/// linking it to `source`'s cell, or the state is left exactly as it was.
/// It fails with a missing witness if `source`'s value is absent while proof
/// generation needs it, and with an invalid permutation configuration if
/// either `column` or `source`'s column is not within `perm`.
///
/// `_annotation` is a diagnostic label with no semantic effect.
pub fn copy<F: Copy>(
    region: &mut Synthesizer<F>,
    _annotation: &str,
    column: Column,
    offset: usize,
    source: &CellValue<F>,
    perm: &Permutation,
) -> (result: Result<CellValue<F>, Error>)
    requires
        old(region).spec_region_start() + offset < usize::MAX,
    ensures
        result is Err <==> (old(region).requires_witness() && source.spec_value() is None) || !(
        perm.spec_contains(column) && perm.spec_contains(source.spec_cell().column)),
        match result {
            Ok(var) => {
                &&& !(old(region).requires_witness() && source.spec_value() is None)
                &&& perm.spec_contains(column) && perm.spec_contains(source.spec_cell().column)
                &&& var.spec_value() == source.spec_value()
                &&& var.spec_cell() == (Cell {
                    column,
                    row: (old(region).spec_region_start() + offset) as usize,
                })
                &&& final(region).spec_assignments() == old(region).spec_assignments().push(
                    (var.spec_cell(), source.spec_value()),
                )
                &&& final(region).spec_equalities() == old(region).spec_equalities().push(
                    (var.spec_cell(), source.spec_cell()),
                )
                &&& final(region).spec_mode() == old(region).spec_mode()
                &&& final(region).spec_num_regions() == old(region).spec_num_regions()
                &&& final(region).spec_region_start() == old(region).spec_region_start()
                &&& final(region).spec_next_row() == (if var.spec_cell().row + 1 > old(
                    region,
                ).spec_next_row() {
                    var.spec_cell().row + 1
                } else {
                    old(region).spec_next_row() as int
                })
            },
            Err(e) => {
                &&& *final(region) == *old(region)
                &&& (e == Error::MissingWitness <==> old(region).requires_witness()
                    && source.spec_value() is None)
                &&& (e == Error::InvalidPermutation <==> !(old(region).requires_witness()
                    && source.spec_value() is None) && !(perm.spec_contains(column)
                    && perm.spec_contains(source.spec_cell().column)))
            },
        },
{
    let value = source.value();
    if region.witness_required() && value.is_none() {
        return Err(Error::MissingWitness);
    }
    if !(perm.contains(column) && perm.contains(source.cell().column)) {
        return Err(Error::InvalidPermutation);
    }
    let cell = match region.assign_advice(column, offset, value) {
        Ok(cell) => cell,
        Err(e) => return Err(e),
    };
    match region.constrain_equal(perm, cell, source.cell()) {
        Ok(_) => {},
        Err(e) => return Err(e),
    }
    Ok(Var::new(cell, value))
}

/// Each copy-constrain call registers exactly one equality constraint: two
/// calls that copy the same source variable grow the constraint list by
/// exactly their two pairs, each linking its fresh cell back to the source's
/// original cell, and leave every earlier constraint in place.
pub proof fn lemma_copies_link_same_source(
    before: Seq<(Cell, Cell)>,
    after_first: Seq<(Cell, Cell)>,
    after_second: Seq<(Cell, Cell)>,
    source: Cell,
    first_dest: Cell,
    second_dest: Cell,
)
    requires
        after_first == before.push((first_dest, source)),
        after_second == after_first.push((second_dest, source)),
    ensures
        after_second.len() == before.len() + 2,
        after_second[before.len() as int] == (first_dest, source),
        after_second[before.len() as int].1 == source,
        after_second[before.len() as int + 1] == (second_dest, source),
        after_second[before.len() as int + 1].1 == source,
        forall|j: int| 0 <= j < before.len() ==> after_second[j] == before[j],
{
}

} // verus!
