//! Qubit mappings: the images of a qubit, of a list of qubits and of a
//! reordering dictionary under a mapping from old to new qubit indices.

use crate::error::RoqoqoError;
use std::collections::HashMap;
use vstd::prelude::*;
use vstd::std_specs::iter::IteratorSpec;

verus! {

broadcast use vstd::std_specs::hash::group_hash_axioms;

/// Whether the mapping has an image for every qubit of the list.
pub open spec fn covers(mapping: Map<usize, usize>, qubits: Seq<usize>) -> bool {
    forall|i: int| 0 <= i < qubits.len() ==> mapping.contains_key(#[trigger] qubits[i])
}

/// The list of the images of a list of qubits, in the same order.
pub open spec fn images(mapping: Map<usize, usize>, qubits: Seq<usize>) -> Seq<usize> {
    Seq::new(qubits.len(), |i: int| mapping[qubits[i]])
}

/// Whether `i` is the place of the first qubit of the list that has no image.
pub open spec fn first_missing(mapping: Map<usize, usize>, qubits: Seq<usize>, i: int) -> bool {
    &&& 0 <= i < qubits.len()
    &&& !mapping.contains_key(qubits[i])
    &&& forall|j: int| 0 <= j < i ==> mapping.contains_key(#[trigger] qubits[j])
}

/// Whether the mapping has an image for every key and every value of the
/// dictionary.
pub open spec fn covers_dictionary(mapping: Map<usize, usize>, dictionary: Map<usize, usize>)
    -> bool {
    forall|k: usize| #[trigger]
        dictionary.contains_key(k) ==> mapping.contains_key(k) && mapping.contains_key(
            dictionary[k],
        )
}

/// Whether `remapped` is the dictionary with every key and every value replaced
/// by its image. Each entry of the dictionary gives an entry of `remapped`, and
/// `remapped` holds nothing else. Where two keys have the same image, the entry
/// of either may stand.
pub open spec fn is_remapped_dictionary(
    mapping: Map<usize, usize>,
    dictionary: Map<usize, usize>,
    remapped: Map<usize, usize>,
) -> bool {
    &&& forall|k: usize| #[trigger]
        dictionary.contains_key(k) ==> remapped.contains_key(mapping[k])
    &&& forall|n: usize| #[trigger]
        remapped.contains_key(n) ==> exists|k: usize| #[trigger]
            dictionary.contains_key(k) && mapping[k] == n && remapped[n] == mapping[dictionary[k]]
}

/// Whether `qubit` is a key of the dictionary without an image, or the value of
/// a key with an image that has none itself.
pub open spec fn missing_in_dictionary(
    mapping: Map<usize, usize>,
    dictionary: Map<usize, usize>,
    qubit: usize,
) -> bool {
    exists|k: usize| #[trigger]
        dictionary.contains_key(k) && if mapping.contains_key(k) {
            qubit == dictionary[k] && !mapping.contains_key(qubit)
        } else {
            qubit == k
        }
}

/// The image of a qubit, or the error that names the qubit where it has none.
pub fn remap_qubit(qubit: usize, mapping: &HashMap<usize, usize>) -> (r: Result<usize, RoqoqoError>)
    ensures
        mapping@.contains_key(qubit) ==> r == Ok::<usize, RoqoqoError>(mapping@[qubit]),
        !mapping@.contains_key(qubit) ==> r == Err::<usize, RoqoqoError>(
            RoqoqoError::QubitMappingError { qubit },
        ),
{
    match mapping.get(&qubit) {
        Some(image) => Ok(*image),
        None => Err(RoqoqoError::QubitMappingError { qubit }),
    }
}

/// The images of a list of qubits, or the error that names the first qubit of
/// the list without an image.
pub fn remap_list(qubits: &Vec<usize>, mapping: &HashMap<usize, usize>) -> (r: Result<
    Vec<usize>,
    RoqoqoError,
>)
    ensures
        match r {
            Ok(remapped) => covers(mapping@, qubits@) && remapped@ == images(mapping@, qubits@),
            Err(e) => exists|i: int|
                first_missing(mapping@, qubits@, i) && e == (RoqoqoError::QubitMappingError {
                    qubit: qubits@[i],
                }),
        },
{
    let mut remapped: Vec<usize> = Vec::new();
    let mut i: usize = 0;
    while i < qubits.len()
        invariant
            i <= qubits.len(),
            remapped@.len() == i,
            forall|j: int| 0 <= j < i ==> mapping@.contains_key(#[trigger] qubits@[j]),
            forall|j: int| 0 <= j < i ==> #[trigger] remapped@[j] == mapping@[qubits@[j]],
        decreases qubits.len() - i,
    {
        match remap_qubit(qubits[i], mapping) {
            Ok(image) => remapped.push(image),
            Err(e) => {
                assert(first_missing(mapping@, qubits@, i as int));
                return Err(e);
            },
        }
        i = i + 1;
    }
    assert(remapped@ =~= images(mapping@, qubits@));
    Ok(remapped)
}

/// The dictionary with every key and every value replaced by its image, or the
/// error that names a key or a value without an image.
pub fn remap_dictionary(dictionary: &HashMap<usize, usize>, mapping: &HashMap<usize, usize>) -> (r:
    Result<HashMap<usize, usize>, RoqoqoError>)
    ensures
        match r {
            Ok(remapped) => covers_dictionary(mapping@, dictionary@) && is_remapped_dictionary(
                mapping@,
                dictionary@,
                remapped@,
            ),
            Err(e) => e matches RoqoqoError::QubitMappingError { qubit } && missing_in_dictionary(
                mapping@,
                dictionary@,
                qubit,
            ),
        },
{
    let mut remapped: HashMap<usize, usize> = HashMap::new();
    let ghost entries = dictionary.iter().remaining();
    let ghost mut done: int = 0;
    for (key, value) in it: dictionary.iter()
        invariant
            it.seq() == entries,
            done == it.index(),
            forall|j: int|
                0 <= j < entries.len() ==> dictionary@.contains_key(*(#[trigger] entries[j]).0)
                    && dictionary@[*entries[j].0] == *entries[j].1,
            forall|k: usize| #[trigger]
                dictionary@.contains_key(k) ==> exists|j: int|
                    0 <= j < entries.len() && *(#[trigger] entries[j]).0 == k,
            forall|j: int|
                0 <= j < done ==> mapping@.contains_key(*(#[trigger] entries[j]).0)
                    && mapping@.contains_key(*entries[j].1) && remapped@.contains_key(
                    mapping@[*entries[j].0],
                ),
            forall|n: usize| #[trigger]
                remapped@.contains_key(n) ==> exists|j: int|
                    0 <= j < done && mapping@[*(#[trigger] entries[j]).0] == n && remapped@[n]
                        == mapping@[*entries[j].1],
    {
        assert(*entries[done].0 == *key && *entries[done].1 == *value);
        let new_key = match remap_qubit(*key, mapping) {
            Ok(image) => image,
            Err(e) => {
                assert(dictionary@.contains_key(*key));
                return Err(e);
            },
        };
        let new_value = match remap_qubit(*value, mapping) {
            Ok(image) => image,
            Err(e) => {
                assert(dictionary@.contains_key(*key));
                return Err(e);
            },
        };
        let ghost before = remapped@;
        remapped.insert(new_key, new_value);
        proof {
            assert forall|n: usize| #[trigger] remapped@.contains_key(n) implies exists|j: int|
                0 <= j < done + 1 && mapping@[*(#[trigger] entries[j]).0] == n && remapped@[n]
                    == mapping@[*entries[j].1] by {
                if n == new_key {
                    assert(mapping@[*entries[done].0] == n);
                } else {
                    assert(before.contains_key(n));
                    let j = choose|j: int|
                        0 <= j < done && mapping@[*(#[trigger] entries[j]).0] == n && before[n]
                            == mapping@[*entries[j].1];
                    assert(mapping@[*entries[j].0] == n);
                }
            }
            done = done + 1;
        }
    }
    proof {
        assert(done == entries.len());
        assert forall|k: usize| #[trigger] dictionary@.contains_key(k) implies {
            &&& mapping@.contains_key(k)
            &&& mapping@.contains_key(dictionary@[k])
            &&& remapped@.contains_key(mapping@[k])
        } by {
            let j = choose|j: int| 0 <= j < entries.len() && *(#[trigger] entries[j]).0 == k;
            assert(mapping@.contains_key(*entries[j].0));
        }
        assert forall|n: usize| #[trigger] remapped@.contains_key(n) implies exists|k: usize|
            #[trigger] dictionary@.contains_key(k) && mapping@[k] == n && remapped@[n]
                == mapping@[dictionary@[k]] by {
            let j = choose|j: int|
                0 <= j < done && mapping@[*(#[trigger] entries[j]).0] == n && remapped@[n]
                    == mapping@[*entries[j].1];
            let k = *entries[j].0;
            assert(dictionary@.contains_key(k));
        }
    }
    Ok(remapped)
}

/// A copy of a list of qubits.
pub fn copy_list(qubits: &Vec<usize>) -> (r: Vec<usize>)
    ensures
        r@ == qubits@,
{
    let mut copy: Vec<usize> = Vec::new();
    let mut i: usize = 0;
    while i < qubits.len()
        invariant
            i <= qubits.len(),
            copy@ == qubits@.take(i as int),
        decreases qubits.len() - i,
    {
        copy.push(qubits[i]);
        assert(qubits@.take(i + 1) == qubits@.take(i as int).push(qubits@[i as int]));
        i = i + 1;
    }
    assert(qubits@.take(qubits.len() as int) == qubits@);
    copy
}

/// A mapping that covers a list has an image for every qubit in it.
pub proof fn lemma_covered_qubits(mapping: Map<usize, usize>, qubits: Seq<usize>)
    requires
        covers(mapping, qubits),
    ensures
        forall|qubit: usize| qubits.contains(qubit) ==> mapping.contains_key(qubit),
{
    assert forall|qubit: usize| qubits.contains(qubit) implies mapping.contains_key(qubit) by {
        let i = choose|i: int| 0 <= i < qubits.len() && qubits[i] == qubit;
        assert(mapping.contains_key(qubits[i]));
    }
}

/// A mapping that covers a dictionary has an image for each of its keys and
/// values.
pub proof fn lemma_covered_dictionary(mapping: Map<usize, usize>, dictionary: Map<usize, usize>)
    requires
        covers_dictionary(mapping, dictionary),
    ensures
        forall|qubit: usize| dictionary.contains_key(qubit) ==> mapping.contains_key(qubit),
        forall|qubit: usize|
            (exists|k: usize| #[trigger] dictionary.contains_key(k) && dictionary[k] == qubit)
                ==> mapping.contains_key(qubit),
{
    assert forall|qubit: usize|
        (exists|k: usize| #[trigger] dictionary.contains_key(k) && dictionary[k]
            == qubit) implies mapping.contains_key(qubit) by {
        let k = choose|k: usize| #[trigger] dictionary.contains_key(k) && dictionary[k] == qubit;
        assert(mapping.contains_key(dictionary[k]));
    }
}

} // verus!
