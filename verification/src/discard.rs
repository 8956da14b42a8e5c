//! Public identifiers for the format-agnostic discard sink.

use vstd::prelude::*;

verus! {

/// First property identifier reserved for application-defined properties.
pub const PROP_START_CUSTOM: u32 = 0x0100_0000;

/// Metrics published by the discard sink through `SPA_PARAM_Props`.
#[derive(Clone, Copy, Debug, PartialEq, Eq, Structural)]
pub enum DiscardMetric {
    Buffers,
    DataBlocks,
    Bytes,
    ProtocolErrors,
    ProcessCalls,
}

impl DiscardMetric {
    /// Position of the metric in the contiguous identifier block.
    pub open spec fn spec_offset(self) -> u32 {
        match self {
            DiscardMetric::Buffers => 0,
            DiscardMetric::DataBlocks => 1,
            DiscardMetric::Bytes => 2,
            DiscardMetric::ProtocolErrors => 3,
            DiscardMetric::ProcessCalls => 4,
        }
    }

    /// Return the public SPA property identifier of this metric.
    pub fn property_id(self) -> (id: u32)
        ensures
            id == PROP_START_CUSTOM + self.spec_offset(),
    {
        let first: u32 = PROP_START_CUSTOM;
        match self {
            DiscardMetric::Buffers => first,
            DiscardMetric::DataBlocks => first + 1,
            DiscardMetric::Bytes => first + 2,
            DiscardMetric::ProtocolErrors => first + 3,
            DiscardMetric::ProcessCalls => first + 4,
        }
    }

    /// The public scientific metric name advertised by PropInfo.
    pub open spec fn spec_name(self) -> Seq<char> {
        match self {
            DiscardMetric::Buffers => "discard.buffers"@,
            DiscardMetric::DataBlocks => "discard.data-blocks"@,
            DiscardMetric::Bytes => "discard.bytes"@,
            DiscardMetric::ProtocolErrors => "discard.protocol-errors"@,
            DiscardMetric::ProcessCalls => "discard.process-calls"@,
        }
    }

    /// Return the public scientific metric name advertised by PropInfo.
    pub fn name(self) -> (r: &'static str)
        ensures
            r@ == self.spec_name(),
    {
        match self {
            DiscardMetric::Buffers => "discard.buffers",
            DiscardMetric::DataBlocks => "discard.data-blocks",
            DiscardMetric::Bytes => "discard.bytes",
            DiscardMetric::ProtocolErrors => "discard.protocol-errors",
            DiscardMetric::ProcessCalls => "discard.process-calls",
        }
    }
}

/// Every metric name begins with `discard.`, and distinct metrics have
/// distinct identifiers.
pub proof fn lemma_metric_names_and_ids(a: DiscardMetric, b: DiscardMetric)
    ensures
        a.spec_name().subrange(0, 8) == "discard."@,
        a != b ==> a.spec_offset() != b.spec_offset(),
{
    reveal_strlit("discard.");
    reveal_strlit("discard.buffers");
    reveal_strlit("discard.data-blocks");
    reveal_strlit("discard.bytes");
    reveal_strlit("discard.protocol-errors");
    reveal_strlit("discard.process-calls");
    assert(a.spec_name().subrange(0, 8) =~= "discard."@);
}

} // verus!
