use gadget_utilities::synthesis::{Cell, Column, Error, Permutation, SynthesisMode, Synthesizer};
use gadget_utilities::utilities::{copy, CellValue, UtilitiesInstructions, Var};
use pasta_curves::Fp;

struct WordChip;

impl UtilitiesInstructions<Fp> for WordChip {
    type Var = CellValue<Fp>;
}

fn column_a() -> Column {
    Column { index: 0 }
}

fn column_b() -> Column {
    Column { index: 1 }
}

fn both_columns() -> Permutation {
    Permutation::new(vec![column_a(), column_b()])
}

#[test]
fn construction_round_trips() {
    let cell = Cell { column: column_b(), row: 5 };
    let var: CellValue<Fp> = Var::new(cell, Some(Fp::from(7)));
    assert_eq!(var.value(), Some(Fp::from(7)));
    assert_eq!(var.cell(), cell);

    let unknown: CellValue<Fp> = Var::new(cell, None);
    assert_eq!(unknown.value(), None);
    assert_eq!(unknown.cell(), cell);
}

#[test]
fn load_private_present_value_succeeds() {
    let chip = WordChip;
    let mut synth: Synthesizer<Fp> = Synthesizer::new(SynthesisMode::ProofGeneration);
    let x = chip
        .load_private(&mut synth, column_a(), Some(Fp::from(7)))
        .expect("present value must load");
    assert_eq!(x.value(), Some(Fp::from(7)));
    assert_eq!(x.cell(), Cell { column: column_a(), row: 0 });
    assert_eq!(synth.num_regions(), 1);
    assert_eq!(synth.assignments().len(), 1);
    assert_eq!(synth.equalities().len(), 0);
}

#[test]
fn load_private_missing_witness_fails() {
    let chip = WordChip;
    let mut synth: Synthesizer<Fp> = Synthesizer::new(SynthesisMode::ProofGeneration);
    let r = chip.load_private(&mut synth, column_a(), None);
    assert_eq!(r.err(), Some(Error::MissingWitness));
    assert_eq!(synth.num_regions(), 0);
    assert_eq!(synth.assignments().len(), 0);
}

#[test]
fn load_private_absent_value_accepted_in_key_generation() {
    let chip = WordChip;
    let mut synth: Synthesizer<Fp> = Synthesizer::new(SynthesisMode::KeyGeneration);
    let x = chip
        .load_private(&mut synth, column_a(), None)
        .expect("key generation needs no witness");
    assert_eq!(x.value(), None);
    assert_eq!(x.cell(), Cell { column: column_a(), row: 0 });
    assert_eq!(synth.num_regions(), 1);
}

#[test]
fn copy_preserves_value() {
    let chip = WordChip;
    let perm = both_columns();
    let mut synth: Synthesizer<Fp> = Synthesizer::new(SynthesisMode::ProofGeneration);
    let x = chip
        .load_private(&mut synth, column_a(), Some(Fp::from(42)))
        .expect("present value must load");
    synth.open_region();
    let y = copy(&mut synth, "copy x", column_b(), 6, &x, &perm).expect("both columns enabled");
    assert_eq!(y.value(), x.value());
    assert_ne!(y.cell(), x.cell());
}

#[test]
fn copy_registers_one_constraint_per_call() {
    let chip = WordChip;
    let perm = both_columns();
    let mut synth: Synthesizer<Fp> = Synthesizer::new(SynthesisMode::ProofGeneration);
    let x = chip
        .load_private(&mut synth, column_a(), Some(Fp::from(3)))
        .expect("present value must load");
    synth.open_region();
    let y1 = copy(&mut synth, "first copy", column_b(), 0, &x, &perm).expect("enabled");
    assert_eq!(synth.equalities().len(), 1);
    let y2 = copy(&mut synth, "second copy", column_b(), 1, &x, &perm).expect("enabled");
    assert_eq!(synth.equalities().len(), 2);
    let pairs = synth.equalities();
    assert_eq!(pairs[0], (y1.cell(), x.cell()));
    assert_eq!(pairs[1], (y2.cell(), x.cell()));
    assert_eq!(pairs[0].1, x.cell());
    assert_eq!(pairs[1].1, x.cell());
    assert_ne!(pairs[0].0, pairs[1].0);
}

#[test]
fn copy_unconstrainable_column_fails_atomically() {
    let chip = WordChip;
    let only_a = Permutation::new(vec![column_a()]);
    let mut synth: Synthesizer<Fp> = Synthesizer::new(SynthesisMode::ProofGeneration);
    let x = chip
        .load_private(&mut synth, column_a(), Some(Fp::from(9)))
        .expect("present value must load");
    synth.open_region();
    let r = copy(&mut synth, "into disabled column", column_b(), 0, &x, &only_a);
    assert_eq!(r.err(), Some(Error::InvalidPermutation));
    assert_eq!(synth.assignments().len(), 1);
    assert_eq!(synth.equalities().len(), 0);
}

#[test]
fn copy_unconstrainable_source_column_fails() {
    let chip = WordChip;
    let only_b = Permutation::new(vec![column_b()]);
    let mut synth: Synthesizer<Fp> = Synthesizer::new(SynthesisMode::ProofGeneration);
    let x = chip
        .load_private(&mut synth, column_a(), Some(Fp::from(9)))
        .expect("present value must load");
    synth.open_region();
    let r = copy(&mut synth, "from disabled column", column_b(), 0, &x, &only_b);
    assert_eq!(r.err(), Some(Error::InvalidPermutation));
    assert_eq!(synth.equalities().len(), 0);
}

#[test]
fn copy_missing_witness_fails_before_permutation_check() {
    let chip = WordChip;
    let only_a = Permutation::new(vec![column_a()]);
    let mut synth: Synthesizer<Fp> = Synthesizer::new(SynthesisMode::KeyGeneration);
    let x = chip
        .load_private(&mut synth, column_a(), None)
        .expect("key generation needs no witness");

    let mut proving: Synthesizer<Fp> = Synthesizer::new(SynthesisMode::ProofGeneration);
    proving.open_region();
    let r = copy(&mut proving, "unknown value", column_b(), 0, &x, &only_a);
    assert_eq!(r.err(), Some(Error::MissingWitness));
    assert_eq!(proving.assignments().len(), 0);
}

#[test]
fn copy_with_absent_value_in_key_generation() {
    let chip = WordChip;
    let perm = both_columns();
    let mut synth: Synthesizer<Fp> = Synthesizer::new(SynthesisMode::KeyGeneration);
    let x = chip
        .load_private(&mut synth, column_a(), None)
        .expect("key generation needs no witness");
    synth.open_region();
    let y = copy(&mut synth, "copy unknown", column_b(), 0, &x, &perm)
        .expect("key generation needs no witness");
    assert_eq!(y.value(), None);
    assert_eq!(synth.equalities().len(), 1);
}

#[test]
fn scenario_load_and_copy() {
    let chip = WordChip;
    let perm = both_columns();
    let mut synth: Synthesizer<Fp> = Synthesizer::new(SynthesisMode::ProofGeneration);

    let x = chip
        .load_private(&mut synth, column_a(), Some(Fp::from(7)))
        .expect("present value must load");
    assert_eq!(x.value(), Some(Fp::from(7)));
    assert_eq!(x.cell(), Cell { column: column_a(), row: 0 });

    synth.open_region();
    let y = copy(&mut synth, "reuse x", column_b(), 2, &x, &perm).expect("both columns enabled");
    assert_eq!(y.value(), Some(Fp::from(7)));
    assert_eq!(y.cell(), Cell { column: column_b(), row: 3 });
    assert_eq!(synth.equalities().len(), 1);
    assert_eq!(
        synth.equalities()[0],
        (Cell { column: column_b(), row: 3 }, Cell { column: column_a(), row: 0 })
    );
}

#[test]
fn scenario_missing_witness_during_proof_generation() {
    let chip = WordChip;
    let mut synth: Synthesizer<Fp> = Synthesizer::new(SynthesisMode::ProofGeneration);
    let r = chip.load_private(&mut synth, column_a(), None);
    assert_eq!(r.err(), Some(Error::MissingWitness));
}

#[test]
fn permutation_membership() {
    let perm = Permutation::new(vec![column_a()]);
    assert!(perm.contains(column_a()));
    assert!(!perm.contains(column_b()));
    let empty = Permutation::new(Vec::new());
    assert!(!empty.contains(column_a()));
}
