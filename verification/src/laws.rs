//! Laws of the operations: what holds of all of them, proved from the model.

use crate::error::RoqoqoError;
use crate::mapping::{covers, first_missing, images, is_remapped_dictionary, missing_in_dictionary};
use crate::model::{
    circuit_covered_by, circuit_involved, circuit_involves_all, circuit_remap_error,
    circuit_remaps_to, circuit_substitutes_to, circuit_touches, circuit_uses, list_error,
    tag_list, OperationView,
};
use vstd::prelude::*;

verus! {

/// A qubit is among the images of a list exactly if it is the image of a
/// qubit of the list.
pub proof fn lemma_image_of_list(mapping: Map<usize, usize>, qubits: Seq<usize>)
    ensures
        forall|image: usize|
            images(mapping, qubits).contains(image) <==> exists|qubit: usize| #[trigger]
                qubits.contains(qubit) && mapping[qubit] == image,
{
    let mapped = images(mapping, qubits);
    assert forall|image: usize| mapped.contains(image) implies exists|qubit: usize| #[trigger]
        qubits.contains(qubit) && mapping[qubit] == image by {
        let i = choose|i: int| 0 <= i < mapped.len() && mapped[i] == image;
        assert(qubits.contains(qubits[i]));
    }
    assert forall|image: usize|
        (exists|qubit: usize| #[trigger] qubits.contains(qubit) && mapping[qubit]
            == image) implies mapped.contains(image) by {
        let qubit = choose|qubit: usize| #[trigger]
            qubits.contains(qubit) && mapping[qubit] == image;
        let i = choose|i: int| 0 <= i < qubits.len() && qubits[i] == qubit;
        assert(mapped[i] == image);
    }
}

/// A remapped operation involves all qubits exactly if the operation did, and
/// it names exactly the images of the qubits that the operation named.
pub proof fn lemma_remap_touches(
    before: OperationView,
    mapping: Map<usize, usize>,
    after: OperationView,
)
    requires
        before.remaps_to(mapping, after),
    ensures
        after.involves_all() == before.involves_all(),
        forall|image: usize|
            after.touches(image) <==> exists|qubit: usize| #[trigger]
                before.touches(qubit) && mapping[qubit] == image,
    decreases before,
{
    match before {
        OperationView::PragmaOverrotation { qubits, .. } => {
            lemma_list_remap_touches(before, mapping, after, qubits);
        },
        OperationView::PragmaStopParallelBlock { qubits, .. } => {
            lemma_list_remap_touches(before, mapping, after, qubits);
        },
        OperationView::PragmaSleep { qubits, .. } => {
            lemma_list_remap_touches(before, mapping, after, qubits);
        },
        OperationView::PragmaStartDecompositionBlock { qubits, .. } => {
            lemma_list_remap_touches(before, mapping, after, qubits);
        },
        OperationView::PragmaStopDecompositionBlock { qubits } => {
            lemma_list_remap_touches(before, mapping, after, qubits);
        },
        OperationView::PragmaConditional { circuit, .. } => {
            let new_circuit = after->PragmaConditional_circuit;
            lemma_circuit_remap_touches(circuit, mapping, new_circuit);
            assert(forall|n: usize| after.touches(n) == circuit_touches(new_circuit, n));
            assert(forall|n: usize| before.touches(n) == circuit_touches(circuit, n));
            assert forall|image: usize| after.touches(image) implies exists|qubit: usize|
                #[trigger] before.touches(qubit) && mapping[qubit] == image by {
                let q = choose|q: usize| #[trigger]
                    circuit_touches(circuit, q) && mapping[q] == image;
                assert(before.touches(q));
            }
            assert forall|image: usize|
                (exists|qubit: usize| #[trigger] before.touches(qubit) && mapping[qubit]
                    == image) implies after.touches(image) by {
                let q = choose|q: usize| #[trigger] before.touches(q) && mapping[q] == image;
                assert(circuit_touches(circuit, q));
            }
        },
        OperationView::PragmaActiveReset { qubit } => {
            assert(before.touches(qubit));
        },
        OperationView::PragmaDamping { qubit, .. } => {
            assert(before.touches(qubit));
        },
        OperationView::PragmaDepolarising { qubit, .. } => {
            assert(before.touches(qubit));
        },
        OperationView::PragmaDephasing { qubit, .. } => {
            assert(before.touches(qubit));
        },
        OperationView::PragmaRandomNoise { qubit, .. } => {
            assert(before.touches(qubit));
        },
        OperationView::PragmaGeneralNoise { qubit, .. } => {
            assert(before.touches(qubit));
        },
        _ => {},
    }
}

/// The step of `lemma_remap_touches` for an operation with a list of qubits.
proof fn lemma_list_remap_touches(
    before: OperationView,
    mapping: Map<usize, usize>,
    after: OperationView,
    qubits: Seq<usize>,
)
    requires
        forall|qubit: usize| before.touches(qubit) == qubits.contains(qubit),
        forall|image: usize| after.touches(image) == images(mapping, qubits).contains(image),
    ensures
        forall|image: usize|
            after.touches(image) <==> exists|qubit: usize| #[trigger]
                before.touches(qubit) && mapping[qubit] == image,
{
    lemma_image_of_list(mapping, qubits);
    assert forall|image: usize| after.touches(image) implies exists|qubit: usize| #[trigger]
        before.touches(qubit) && mapping[qubit] == image by {
        let q = choose|q: usize| #[trigger] qubits.contains(q) && mapping[q] == image;
        assert(before.touches(q));
    }
    assert forall|image: usize|
        (exists|qubit: usize| #[trigger] before.touches(qubit) && mapping[qubit]
            == image) implies after.touches(image) by {
        let q = choose|q: usize| #[trigger] before.touches(q) && mapping[q] == image;
        assert(qubits.contains(q));
    }
}

/// The same for a circuit and its remapped copy.
pub proof fn lemma_circuit_remap_touches(
    circuit: Seq<OperationView>,
    mapping: Map<usize, usize>,
    after: Seq<OperationView>,
)
    requires
        circuit_remaps_to(circuit, mapping, after),
    ensures
        circuit_involves_all(after) == circuit_involves_all(circuit),
        forall|image: usize|
            circuit_touches(after, image) <==> exists|qubit: usize| #[trigger]
                circuit_touches(circuit, qubit) && mapping[qubit] == image,
    decreases circuit,
{
    assert forall|i: int| 0 <= i < circuit.len() implies (#[trigger] after[i]).involves_all()
        == circuit[i].involves_all() by {
        lemma_remap_touches(circuit[i], mapping, after[i]);
    }
    if circuit_involves_all(circuit) {
        let i = choose|i: int| 0 <= i < circuit.len() && (#[trigger] circuit[i]).involves_all();
        assert(after[i].involves_all());
    }
    if circuit_involves_all(after) {
        let i = choose|i: int| 0 <= i < after.len() && (#[trigger] after[i]).involves_all();
        assert(circuit[i].involves_all());
    }
    assert forall|image: usize| circuit_touches(after, image) implies exists|qubit: usize|
        #[trigger] circuit_touches(circuit, qubit) && mapping[qubit] == image by {
        let i = choose|i: int| 0 <= i < after.len() && (#[trigger] after[i]).touches(image);
        lemma_remap_touches(circuit[i], mapping, after[i]);
        let qubit = choose|qubit: usize| #[trigger]
            circuit[i].touches(qubit) && mapping[qubit] == image;
        assert(circuit_touches(circuit, qubit));
    }
    assert forall|image: usize|
        (exists|qubit: usize| #[trigger] circuit_touches(circuit, qubit) && mapping[qubit]
            == image) implies circuit_touches(after, image) by {
        let qubit = choose|qubit: usize| #[trigger]
            circuit_touches(circuit, qubit) && mapping[qubit] == image;
        let i = choose|i: int| 0 <= i < circuit.len() && (#[trigger] circuit[i]).touches(qubit);
        lemma_remap_touches(circuit[i], mapping, after[i]);
        assert(after[i].touches(image));
    }
}

/// Remapping is a homomorphism for involvement: what the remapped circuit
/// involves is the image, under the mapping, of what the circuit involves.
pub proof fn law_circuit_remap_involved(
    circuit: Seq<OperationView>,
    mapping: Map<usize, usize>,
    after: Seq<OperationView>,
)
    requires
        circuit_remaps_to(circuit, mapping, after),
    ensures
        circuit_involved(after) == circuit_involved(circuit).image(mapping),
{
    lemma_circuit_remap_touches(circuit, mapping, after);
    if !circuit_involves_all(circuit) {
        if forall|qubit: usize| !circuit_touches(circuit, qubit) {
            assert forall|image: usize| !circuit_touches(after, image) by {
                if circuit_touches(after, image) {
                    let qubit = choose|qubit: usize| #[trigger]
                        circuit_touches(circuit, qubit) && mapping[qubit] == image;
                    assert(false);
                }
            }
        } else {
            let qubit = choose|qubit: usize| circuit_touches(circuit, qubit);
            assert(circuit_touches(circuit, qubit) && mapping[qubit] == mapping[qubit]);
            assert(circuit_touches(after, mapping[qubit]));
            let touched = Set::new(|qubit: usize| circuit_touches(circuit, qubit));
            let expected = Set::new(
                |image: usize|
                    exists|qubit: usize| #[trigger]
                        touched.contains(qubit) && mapping[qubit] == image,
            );
            let actual = Set::new(|image: usize| circuit_touches(after, image));
            assert forall|image: usize| actual.contains(image) implies expected.contains(image) by {
                let q = choose|q: usize| #[trigger]
                    circuit_touches(circuit, q) && mapping[q] == image;
                assert(touched.contains(q));
            }
            assert forall|image: usize| expected.contains(image) implies actual.contains(image) by {
                let q = choose|q: usize| #[trigger] touched.contains(q) && mapping[q] == image;
                assert(circuit_touches(circuit, q));
            }
            assert(actual =~= expected);
        }
    }
}

/// Remapping is a homomorphism for involvement: what the remapped operation
/// involves is the image, under the mapping, of what the operation involves.
/// All stays all, nothing stays nothing, and an explicit set becomes the set of
/// the images of its qubits.
pub proof fn law_remap_involved(
    before: OperationView,
    mapping: Map<usize, usize>,
    after: OperationView,
)
    requires
        before.remaps_to(mapping, after),
    ensures
        after.involved() == before.involved().image(mapping),
{
    lemma_remap_touches(before, mapping, after);
    match before {
        OperationView::PragmaConditional { circuit, .. } => {
            law_circuit_remap_involved(circuit, mapping, after->PragmaConditional_circuit);
        },
        OperationView::PragmaSetNumberOfMeasurements { .. } => {},
        OperationView::PragmaBoostNoise { .. } => {},
        OperationView::PragmaGlobalPhase { .. } => {},
        OperationView::PragmaSetStateVector { .. } => {},
        OperationView::PragmaSetDensityMatrix { .. } => {},
        OperationView::PragmaRepeatGate { .. } => {},
        _ => {
            let touched = before.touched();
            let expected = Set::new(
                |image: usize|
                    exists|qubit: usize| #[trigger]
                        touched.contains(qubit) && mapping[qubit] == image,
            );
            assert forall|image: usize| after.touched().contains(image) implies expected.contains(
                image,
            ) by {
                let q = choose|q: usize| #[trigger] before.touches(q) && mapping[q] == image;
                assert(touched.contains(q));
            }
            assert forall|image: usize| expected.contains(image) implies after.touched().contains(
                image,
            ) by {
                let q = choose|q: usize| #[trigger] touched.contains(q) && mapping[q] == image;
                assert(before.touches(q));
            }
            assert(after.touched() =~= expected);
        },
    }
}

/// The images of a list under a mapping that sends each of its qubits to
/// itself are the list.
proof fn lemma_identity_on_list(mapping: Map<usize, usize>, qubits: Seq<usize>)
    requires
        forall|qubit: usize| qubits.contains(qubit) ==> mapping[qubit] == qubit,
    ensures
        images(mapping, qubits) == qubits,
{
    assert forall|i: int| 0 <= i < qubits.len() implies images(mapping, qubits)[i] == qubits[i] by {
        assert(qubits.contains(qubits[i]));
    }
    assert(images(mapping, qubits) =~= qubits);
}

/// A dictionary remapped under a mapping that sends each of its keys and values
/// to itself is the dictionary.
proof fn lemma_identity_on_dictionary(
    mapping: Map<usize, usize>,
    dictionary: Map<usize, usize>,
    remapped: Map<usize, usize>,
)
    requires
        is_remapped_dictionary(mapping, dictionary, remapped),
        forall|k: usize| #[trigger]
            dictionary.contains_key(k) ==> mapping[k] == k && mapping[dictionary[k]]
                == dictionary[k],
    ensures
        remapped == dictionary,
{
    assert forall|n: usize| remapped.contains_key(n) implies dictionary.contains_key(n)
        && remapped[n] == dictionary[n] by {
        let k = choose|k: usize| #[trigger]
            dictionary.contains_key(k) && mapping[k] == n && remapped[n]
                == mapping[dictionary[k]];
        assert(k == n);
    }
    assert forall|k: usize| dictionary.contains_key(k) implies remapped.contains_key(k) by {
        assert(remapped.contains_key(mapping[k]));
    }
    assert(remapped =~= dictionary);
}

/// Remapping with the identity changes nothing: where the mapping sends every
/// qubit that the operation uses to itself, the remapped operation is equal to
/// the operation.
pub proof fn law_identity_remap(
    before: OperationView,
    mapping: Map<usize, usize>,
    after: OperationView,
)
    requires
        before.remaps_to(mapping, after),
        forall|qubit: usize| #[trigger] before.uses(qubit) ==> mapping[qubit] == qubit,
    ensures
        after == before,
    decreases before,
{
    match before {
        OperationView::PragmaOverrotation { qubits, .. } => {
            assert(forall|q: usize| qubits.contains(q) ==> before.uses(q));
            lemma_identity_on_list(mapping, qubits);
        },
        OperationView::PragmaStopParallelBlock { qubits, .. } => {
            assert(forall|q: usize| qubits.contains(q) ==> before.uses(q));
            lemma_identity_on_list(mapping, qubits);
        },
        OperationView::PragmaSleep { qubits, .. } => {
            assert(forall|q: usize| qubits.contains(q) ==> before.uses(q));
            lemma_identity_on_list(mapping, qubits);
        },
        OperationView::PragmaStopDecompositionBlock { qubits } => {
            assert(forall|q: usize| qubits.contains(q) ==> before.uses(q));
            lemma_identity_on_list(mapping, qubits);
        },
        OperationView::PragmaStartDecompositionBlock { qubits, reordering_dictionary } => {
            assert(forall|q: usize| qubits.contains(q) ==> before.uses(q));
            lemma_identity_on_list(mapping, qubits);
            assert forall|k: usize| #[trigger]
                reordering_dictionary.contains_key(k) implies mapping[k] == k
                && mapping[reordering_dictionary[k]] == reordering_dictionary[k] by {
                assert(before.uses(k));
                assert(before.uses(reordering_dictionary[k]));
            }
            lemma_identity_on_dictionary(
                mapping,
                reordering_dictionary,
                after->PragmaStartDecompositionBlock_reordering_dictionary,
            );
        },
        OperationView::PragmaConditional { circuit, .. } => {
            let new_circuit = after->PragmaConditional_circuit;
            assert(forall|q: usize| before.uses(q) == circuit_uses(circuit, q));
            law_circuit_identity_remap(circuit, mapping, new_circuit);
        },
        OperationView::PragmaActiveReset { qubit } => {
            assert(before.uses(qubit));
        },
        OperationView::PragmaDamping { qubit, .. } => {
            assert(before.uses(qubit));
        },
        OperationView::PragmaDepolarising { qubit, .. } => {
            assert(before.uses(qubit));
        },
        OperationView::PragmaDephasing { qubit, .. } => {
            assert(before.uses(qubit));
        },
        OperationView::PragmaRandomNoise { qubit, .. } => {
            assert(before.uses(qubit));
        },
        OperationView::PragmaGeneralNoise { qubit, .. } => {
            assert(before.uses(qubit));
        },
        _ => {},
    }
}

/// Remapping a circuit with the identity changes nothing.
pub proof fn law_circuit_identity_remap(
    circuit: Seq<OperationView>,
    mapping: Map<usize, usize>,
    after: Seq<OperationView>,
)
    requires
        circuit_remaps_to(circuit, mapping, after),
        forall|qubit: usize| #[trigger] circuit_uses(circuit, qubit) ==> mapping[qubit] == qubit,
    ensures
        after == circuit,
    decreases circuit,
{
    assert forall|i: int| 0 <= i < circuit.len() implies after[i] == circuit[i] by {
        assert forall|qubit: usize| #[trigger] circuit[i].uses(qubit) implies mapping[qubit]
            == qubit by {
            assert(circuit_uses(circuit, qubit));
        }
        law_identity_remap(circuit[i], mapping, after[i]);
    }
    assert(after =~= circuit);
}

/// The error of a remapping names a qubit that the operation uses and that the
/// mapping lacks.
pub proof fn law_remap_error_names_missing_qubit(
    operation: OperationView,
    mapping: Map<usize, usize>,
    qubit: usize,
)
    requires
        operation.remap_error(mapping, qubit),
    ensures
        operation.uses(qubit),
        !mapping.contains_key(qubit),
        !operation.covered_by(mapping),
    decreases operation,
{
    match operation {
        OperationView::PragmaOverrotation { qubits, .. } => {
            lemma_list_error(mapping, qubits, qubit);
        },
        OperationView::PragmaStopParallelBlock { qubits, .. } => {
            lemma_list_error(mapping, qubits, qubit);
        },
        OperationView::PragmaSleep { qubits, .. } => {
            lemma_list_error(mapping, qubits, qubit);
        },
        OperationView::PragmaStopDecompositionBlock { qubits } => {
            lemma_list_error(mapping, qubits, qubit);
        },
        OperationView::PragmaStartDecompositionBlock { qubits, reordering_dictionary } => {
            if list_error(mapping, qubits, qubit) {
                lemma_list_error(mapping, qubits, qubit);
            } else {
                let k = choose|k: usize| #[trigger]
                    reordering_dictionary.contains_key(k) && if mapping.contains_key(k) {
                        qubit == reordering_dictionary[k] && !mapping.contains_key(qubit)
                    } else {
                        qubit == k
                    };
                assert(reordering_dictionary.contains_key(k));
            }
        },
        OperationView::PragmaConditional { circuit, .. } => {
            let i = choose|i: int|
                0 <= i < circuit.len() && (#[trigger] circuit[i]).remap_error(mapping, qubit)
                    && forall|j: int| 0 <= j < i ==> (#[trigger] circuit[j]).covered_by(mapping);
            law_remap_error_names_missing_qubit(circuit[i], mapping, qubit);
            assert(circuit_uses(circuit, qubit));
        },
        _ => {},
    }
    assert(operation.uses(qubit));
}

/// Where remapping an operation fails, the mapping does not cover the
/// operation.
pub proof fn lemma_error_uncovered(
    operation: OperationView,
    mapping: Map<usize, usize>,
    error: RoqoqoError,
)
    requires
        error matches RoqoqoError::QubitMappingError { qubit } && operation.remap_error(
            mapping,
            qubit,
        ),
    ensures
        !operation.covered_by(mapping),
{
    law_remap_error_names_missing_qubit(operation, mapping, error->qubit);
}

/// Where remapping a circuit fails, the mapping does not cover the circuit.
pub proof fn lemma_circuit_error_uncovered(
    circuit: Seq<OperationView>,
    mapping: Map<usize, usize>,
    error: RoqoqoError,
)
    requires
        error matches RoqoqoError::QubitMappingError { qubit } && circuit_remap_error(
            circuit,
            mapping,
            qubit,
        ),
    ensures
        !circuit_covered_by(circuit, mapping),
{
    let qubit = error->qubit;
    let i = choose|i: int|
        0 <= i < circuit.len() && (#[trigger] circuit[i]).remap_error(mapping, qubit) && forall|
            j: int,
        | 0 <= j < i ==> (#[trigger] circuit[j]).covered_by(mapping);
    law_remap_error_names_missing_qubit(circuit[i], mapping, qubit);
}

/// A mapping covers a conditional exactly if it covers its circuit.
pub proof fn lemma_conditional_covered(operation: OperationView, mapping: Map<usize, usize>)
    requires
        operation is PragmaConditional,
    ensures
        operation.covered_by(mapping) == circuit_covered_by(
            operation->PragmaConditional_circuit,
            mapping,
        ),
{
    let circuit = operation->PragmaConditional_circuit;
    assert(forall|q: usize| operation.uses(q) == circuit_uses(circuit, q));
    if operation.covered_by(mapping) {
        assert forall|i: int| 0 <= i < circuit.len() implies (#[trigger] circuit[i]).covered_by(
            mapping,
        ) by {
            assert forall|q: usize| #[trigger] circuit[i].uses(q) implies mapping.contains_key(
                q,
            ) by {
                assert(circuit_uses(circuit, q));
                assert(operation.uses(q));
            }
        }
    }
    if circuit_covered_by(circuit, mapping) {
        assert forall|q: usize| #[trigger] operation.uses(q) implies mapping.contains_key(q) by {
            assert(circuit_uses(circuit, q));
            let i = choose|i: int| 0 <= i < circuit.len() && (#[trigger] circuit[i]).uses(q);
            assert(circuit[i].covered_by(mapping));
        }
    }
}

/// The first qubit of a list without an image is in the list and has no image.
proof fn lemma_list_error(mapping: Map<usize, usize>, qubits: Seq<usize>, qubit: usize)
    requires
        list_error(mapping, qubits, qubit),
    ensures
        qubits.contains(qubit),
        !mapping.contains_key(qubit),
{
    let i = choose|i: int| first_missing(mapping, qubits, i) && qubits[i] == qubit;
    assert(qubits[i] == qubit);
}

/// Remapping fails exactly when the mapping lacks a qubit that the operation
/// uses: where it lacks one, there is a qubit that the error may name.
pub proof fn law_uncovered_operation_has_error(operation: OperationView, mapping: Map<usize, usize>)
    requires
        !operation.covered_by(mapping),
    ensures
        exists|qubit: usize| operation.remap_error(mapping, qubit),
    decreases operation,
{
    let missing = choose|q: usize| #[trigger] operation.uses(q) && !mapping.contains_key(q);
    match operation {
        OperationView::PragmaOverrotation { qubits, .. } => {
            let q = lemma_uncovered_list(mapping, qubits, missing);
            assert(operation.remap_error(mapping, q));
        },
        OperationView::PragmaStopParallelBlock { qubits, .. } => {
            let q = lemma_uncovered_list(mapping, qubits, missing);
            assert(operation.remap_error(mapping, q));
        },
        OperationView::PragmaSleep { qubits, .. } => {
            let q = lemma_uncovered_list(mapping, qubits, missing);
            assert(operation.remap_error(mapping, q));
        },
        OperationView::PragmaStopDecompositionBlock { qubits } => {
            let q = lemma_uncovered_list(mapping, qubits, missing);
            assert(operation.remap_error(mapping, q));
        },
        OperationView::PragmaStartDecompositionBlock { qubits, reordering_dictionary } => {
            if !covers(mapping, qubits) {
                let i = choose|i: int|
                    0 <= i < qubits.len() && !mapping.contains_key(#[trigger] qubits[i]);
                assert(qubits.contains(qubits[i]));
                let q = lemma_uncovered_list(mapping, qubits, qubits[i]);
                assert(operation.remap_error(mapping, q));
            } else {
                if qubits.contains(missing) {
                    let i = choose|i: int| 0 <= i < qubits.len() && qubits[i] == missing;
                    assert(mapping.contains_key(qubits[i]));
                }
                if reordering_dictionary.contains_key(missing) {
                    assert(missing_in_dictionary(mapping, reordering_dictionary, missing));
                    assert(operation.remap_error(mapping, missing));
                } else {
                    let k = choose|k: usize| #[trigger]
                        reordering_dictionary.contains_key(k) && reordering_dictionary[k]
                            == missing;
                    if mapping.contains_key(k) {
                        assert(missing_in_dictionary(mapping, reordering_dictionary, missing));
                        assert(operation.remap_error(mapping, missing));
                    } else {
                        assert(missing_in_dictionary(mapping, reordering_dictionary, k));
                        assert(operation.remap_error(mapping, k));
                    }
                }
            }
        },
        OperationView::PragmaConditional { circuit, .. } => {
            let i = choose|i: int| 0 <= i < circuit.len() && (#[trigger] circuit[i]).uses(missing);
            assert(!circuit[i].covered_by(mapping));
            lemma_uncovered_circuit(circuit, mapping, i);
            let q = choose|q: usize| circuit_remap_error(circuit, mapping, q);
            assert(operation.remap_error(mapping, q));
        },
        OperationView::PragmaActiveReset { qubit } => {
            assert(operation.remap_error(mapping, qubit));
        },
        OperationView::PragmaDamping { qubit, .. } => {
            assert(operation.remap_error(mapping, qubit));
        },
        OperationView::PragmaDepolarising { qubit, .. } => {
            assert(operation.remap_error(mapping, qubit));
        },
        OperationView::PragmaDephasing { qubit, .. } => {
            assert(operation.remap_error(mapping, qubit));
        },
        OperationView::PragmaRandomNoise { qubit, .. } => {
            assert(operation.remap_error(mapping, qubit));
        },
        OperationView::PragmaGeneralNoise { qubit, .. } => {
            assert(operation.remap_error(mapping, qubit));
        },
        _ => {},
    }
}

/// A list with a qubit that has no image has a first such qubit.
proof fn lemma_uncovered_list(
    mapping: Map<usize, usize>,
    qubits: Seq<usize>,
    missing: usize,
) -> (qubit: usize)
    requires
        qubits.contains(missing),
        !mapping.contains_key(missing),
    ensures
        list_error(mapping, qubits, qubit),
{
    let at = choose|i: int| 0 <= i < qubits.len() && qubits[i] == missing;
    let first = lemma_first_missing(mapping, qubits, at);
    assert(first_missing(mapping, qubits, first) && qubits[first] == qubits[first]);
    qubits[first]
}

/// Before a qubit without an image stands a first one.
proof fn lemma_first_missing(mapping: Map<usize, usize>, qubits: Seq<usize>, at: int) -> (first:
    int)
    requires
        0 <= at < qubits.len(),
        !mapping.contains_key(qubits[at]),
    ensures
        first_missing(mapping, qubits, first),
    decreases at,
{
    if exists|j: int| 0 <= j < at && !mapping.contains_key(#[trigger] qubits[j]) {
        let j = choose|j: int| 0 <= j < at && !mapping.contains_key(#[trigger] qubits[j]);
        lemma_first_missing(mapping, qubits, j)
    } else {
        at
    }
}

/// A circuit with an operation that the mapping does not cover has a first
/// such operation, and with it a qubit that the error may name.
proof fn lemma_uncovered_circuit(circuit: Seq<OperationView>, mapping: Map<usize, usize>, at: int)
    requires
        0 <= at < circuit.len(),
        !circuit[at].covered_by(mapping),
    ensures
        exists|qubit: usize| circuit_remap_error(circuit, mapping, qubit),
    decreases circuit, at,
{
    if exists|j: int| 0 <= j < at && !(#[trigger] circuit[j]).covered_by(mapping) {
        let j = choose|j: int| 0 <= j < at && !(#[trigger] circuit[j]).covered_by(mapping);
        lemma_uncovered_circuit(circuit, mapping, j);
    } else {
        law_uncovered_operation_has_error(circuit[at], mapping);
        let qubit = choose|qubit: usize| circuit[at].remap_error(mapping, qubit);
        assert(circuit[at].remap_error(mapping, qubit));
        assert(circuit_remap_error(circuit, mapping, qubit));
    }
}

/// An operation that has a substituted copy is one whose parameters can all
/// resolve.
pub proof fn lemma_substituted_can_substitute(before: OperationView, after: OperationView)
    requires
        before.substitutes_to(after),
    ensures
        before.can_substitute(),
    decreases before,
{
    match before {
        OperationView::PragmaConditional { circuit, .. } => {
            let new_circuit = after->PragmaConditional_circuit;
            assert(circuit_substitutes_to(circuit, new_circuit));
            assert forall|i: int| 0 <= i < circuit.len() implies (
            #[trigger] circuit[i]).can_substitute() by {
                lemma_substituted_can_substitute(circuit[i], new_circuit[i]);
            }
        },
        _ => {},
    }
}

/// The tags of every kind of operation are not empty, begin with `Operation`
/// and depend on nothing but the kind.
pub proof fn law_tags_begin_with_operation(operation: OperationView)
    ensures
        operation.tags().len() >= 3,
        operation.tags()[0] == "Operation"@,
        operation.tags() == tag_list(operation.kind()),
{
}

} // verus!
