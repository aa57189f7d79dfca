//! The table of tags: the capability labels of each kind of operation.

use crate::model::{tag_list, texts, OperationKind};
use vstd::prelude::*;

verus! {

/// The tags of a kind of operation, in their fixed order.
pub fn tags_of(kind: OperationKind) -> (r: Vec<&'static str>)
    ensures
        texts(r@) == tag_list(kind),
{
    let tags = match kind {
        OperationKind::PragmaSetNumberOfMeasurements => vec![
            "Operation",
            "PragmaOperation",
            "PragmaSetNumberOfMeasurements",
        ],
        OperationKind::PragmaSetStateVector => vec![
            "Operation",
            "PragmaOperation",
            "PragmaSetStateVector",
        ],
        OperationKind::PragmaSetDensityMatrix => vec![
            "Operation",
            "PragmaOperation",
            "PragmaSetDensityMatrix",
        ],
        OperationKind::PragmaRepeatGate => vec!["Operation", "PragmaOperation", "PragmaRepeatGate"],
        OperationKind::PragmaOverrotation => vec![
            "Operation",
            "MultiQubitOperation",
            "PragmaOperation",
            "PragmaOverrotation",
        ],
        OperationKind::PragmaBoostNoise => vec!["Operation", "PragmaOperation", "PragmaBoostNoise"],
        OperationKind::PragmaStopParallelBlock => vec![
            "Operation",
            "MultiQubitOperation",
            "PragmaOperation",
            "PragmaStopParallelBlock",
        ],
        OperationKind::PragmaGlobalPhase => vec![
            "Operation",
            "PragmaOperation",
            "PragmaGlobalPhase",
        ],
        OperationKind::PragmaSleep => vec![
            "Operation",
            "MultiQubitOperation",
            "PragmaOperation",
            "PragmaSleep",
        ],
        OperationKind::PragmaActiveReset => vec![
            "Operation",
            "SingleQubitOperation",
            "PragmaOperation",
            "PragmaActiveReset",
        ],
        OperationKind::PragmaStartDecompositionBlock => vec![
            "Operation",
            "MultiQubitOperation",
            "PragmaOperation",
            "PragmaStartDecompositionBlock",
        ],
        OperationKind::PragmaStopDecompositionBlock => vec![
            "Operation",
            "MultiQubitOperation",
            "PragmaOperation",
            "PragmaStopDecompositionBlock",
        ],
        OperationKind::PragmaDamping => vec![
            "Operation",
            "SingleQubitOperation",
            "PragmaOperation",
            "PragmaNoiseOperation",
            "PragmaDamping",
        ],
        OperationKind::PragmaDepolarising => vec![
            "Operation",
            "SingleQubitOperation",
            "PragmaOperation",
            "PragmaNoiseOperation",
            "PragmaDepolarising",
        ],
        OperationKind::PragmaDephasing => vec![
            "Operation",
            "SingleQubitOperation",
            "PragmaOperation",
            "PragmaNoiseOperation",
            "PragmaDephasing",
        ],
        OperationKind::PragmaRandomNoise => vec![
            "Operation",
            "SingleQubitOperation",
            "PragmaOperation",
            "PragmaNoiseOperation",
            "PragmaRandomNoise",
        ],
        OperationKind::PragmaGeneralNoise => vec![
            "Operation",
            "SingleQubitOperation",
            "PragmaOperation",
            "PragmaGeneralNoise",
        ],
        OperationKind::PragmaConditional => vec![
            "Operation",
            "SingleQubitOperation",
            "PragmaOperation",
            "PragmaConditional",
        ],
    };
    assert(texts(tags@) =~= tag_list(kind));
    tags
}

} // verus!
