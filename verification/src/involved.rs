//! Which qubits an operation involves.

use std::collections::HashSet;
use vstd::prelude::*;

verus! {

broadcast use vstd::std_specs::hash::group_hash_axioms;

/// The qubits that an operation involves.
#[derive(Debug, PartialEq)]
pub enum InvolvedQubits {
    /// Every qubit of the register.
    All,
    /// No qubit.
    Nothing,
    /// Exactly the qubits of the set.
    ExplicitSet(HashSet<usize>),
}

/// The mathematical value of an `InvolvedQubits`.
pub enum Involvement {
    /// Every qubit of the register.
    All,
    /// No qubit.
    Nothing,
    /// Exactly the qubits of the set.
    ExplicitSet(Set<usize>),
}

impl Involvement {
    /// What is involved once every qubit is replaced by its image under the
    /// mapping: all stays all, nothing stays nothing, and a set becomes the set
    /// of the images of its qubits.
    pub open spec fn image(self, mapping: Map<usize, usize>) -> Involvement {
        match self {
            Involvement::All => Involvement::All,
            Involvement::Nothing => Involvement::Nothing,
            Involvement::ExplicitSet(qubits) => Involvement::ExplicitSet(
                Set::new(
                    |image: usize|
                        exists|qubit: usize| #[trigger]
                            qubits.contains(qubit) && mapping[qubit] == image,
                ),
            ),
        }
    }
}

impl View for InvolvedQubits {
    type V = Involvement;

    open spec fn view(&self) -> Involvement {
        match self {
            InvolvedQubits::All => Involvement::All,
            InvolvedQubits::Nothing => Involvement::Nothing,
            InvolvedQubits::ExplicitSet(qubits) => Involvement::ExplicitSet(qubits@),
        }
    }
}

/// `HashSet::clone` of std: the copy holds the same qubits.
#[verifier::external_body]
fn copy_set(qubits: &HashSet<usize>) -> (r: HashSet<usize>)
    ensures
        r@ == qubits@,
{
    qubits.clone()
}

/// The set of the qubits in a list.
pub fn set_of(qubits: &Vec<usize>) -> (r: HashSet<usize>)
    ensures
        r@ == qubits@.to_set(),
{
    let mut set: HashSet<usize> = HashSet::new();
    let mut i: usize = 0;
    while i < qubits.len()
        invariant
            i <= qubits.len(),
            set@ == qubits@.take(i as int).to_set(),
        decreases qubits.len() - i,
    {
        set.insert(qubits[i]);
        assert(qubits@.take(i + 1) == qubits@.take(i as int).push(qubits@[i as int]));
        assert(qubits@.take(i + 1).to_set() =~= qubits@.take(i as int).to_set().insert(
            qubits@[i as int],
        )) by {
            let a = qubits@.take(i as int);
            let b = a.push(qubits@[i as int]);
            assert forall|x: usize| b.contains(x) implies a.contains(x) || x == qubits@[i as int]
            by {
                let j = choose|j: int| 0 <= j < b.len() && b[j] == x;
                if j < a.len() {
                    assert(a[j] == x);
                }
            }
            assert forall|x: usize| a.contains(x) || x == qubits@[i as int] implies b.contains(
                x,
            ) by {
                if a.contains(x) {
                    let j = choose|j: int| 0 <= j < a.len() && a[j] == x;
                    assert(b[j] == x);
                } else {
                    assert(b[a.len() as int] == x);
                }
            }
        }
        i = i + 1;
    }
    assert(qubits@.take(qubits.len() as int) == qubits@);
    set
}

impl Clone for InvolvedQubits {
    /// A copy with the same qubits.
    fn clone(&self) -> (r: Self)
        ensures
            r@ == self@,
    {
        match self {
            InvolvedQubits::All => InvolvedQubits::All,
            InvolvedQubits::Nothing => InvolvedQubits::Nothing,
            InvolvedQubits::ExplicitSet(qubits) => {
                InvolvedQubits::ExplicitSet(copy_set(qubits))
            },
        }
    }
}

} // verus!
