//! The completion event: the one notification that tells downstream
//! consumers that a job's outputs are stored.

use vstd::prelude::*;
use crate::variant::{storage_key, ImageFormat, Variant, VariantView};

verus! {

/// The low 32 bits of a number.
pub open spec fn low32(n: usize) -> u32 {
    (n as int % 0x1_0000_0000) as u32
}

/// Cuts a number down to its low 32 bits, the width the event's fields
/// have.
pub fn truncate32(n: usize) -> (low: u32)
    ensures
        low == low32(n),
{
    (n as u64 % 0x1_0000_0000u64) as u32
}

/// What the event says of one variant.
#[derive(Clone, Debug, PartialEq, Eq)]
pub struct VariantRecord {
    /// The key the variant was stored under.
    pub path: String,
    pub format: ImageFormat,
    pub width: u32,
    pub height: u32,
    pub byte_size: u32,
    pub scale: u32,
}

/// A record as a mathematical value.
pub struct VariantRecordView {
    pub path: Seq<char>,
    pub format: ImageFormat,
    pub width: u32,
    pub height: u32,
    pub byte_size: u32,
    pub scale: u32,
}

impl View for VariantRecord {
    type V = VariantRecordView;

    open spec fn view(&self) -> VariantRecordView {
        VariantRecordView {
            path: self.path@,
            format: self.format,
            width: self.width,
            height: self.height,
            byte_size: self.byte_size,
            scale: self.scale,
        }
    }
}

/// The completion event of a job.
#[derive(Clone, Debug, PartialEq, Eq)]
pub struct CompletionEvent {
    pub job_id: u128,
    /// One record for each variant, in the order the backend produced
    /// them.
    pub variants: Vec<VariantRecord>,
}

/// An event as a mathematical value.
pub struct CompletionEventView {
    pub job_id: u128,
    pub variants: Seq<VariantRecordView>,
}

impl View for CompletionEvent {
    type V = CompletionEventView;

    open spec fn view(&self) -> CompletionEventView {
        CompletionEventView {
            job_id: self.job_id,
            variants: Seq::new(self.variants@.len(), |i: int| self.variants@[i]@),
        }
    }
}

/// The record of a variant stored below `prefix`: the key it was stored
/// under, its format, and its dimensions, byte size and scale cut to 32
/// bits.
pub open spec fn record_of(prefix: Seq<char>, variant: VariantView) -> VariantRecordView {
    VariantRecordView {
        path: storage_key(prefix, variant.request),
        format: variant.request.format,
        width: low32(variant.width),
        height: low32(variant.height),
        byte_size: low32(variant.data.len() as usize),
        scale: low32(variant.request.scale),
    }
}

/// The event for a job whose variants were all stored below `prefix`.
pub open spec fn completion_event(
    job_id: u128,
    prefix: Seq<char>,
    variants: Seq<VariantView>,
) -> CompletionEventView {
    CompletionEventView {
        job_id,
        variants: Seq::new(variants.len(), |i: int| record_of(prefix, variants[i])),
    }
}

/// Describes a stored variant for the event.
pub fn make_record(prefix: &str, variant: &Variant) -> (record: VariantRecord)
    ensures
        record@ == record_of(prefix@, variant@),
{
    VariantRecord {
        path: variant.url(prefix),
        format: variant.request.format,
        width: truncate32(variant.width),
        height: truncate32(variant.height),
        byte_size: truncate32(variant.data.len()),
        scale: truncate32(variant.request.scale),
    }
}

/// Builds the completion event: the job's identity and one record for
/// each variant, in order.
pub fn make_completion_event(job_id: u128, prefix: &str, variants: &Vec<Variant>) -> (event:
    CompletionEvent)
    ensures
        event@ == completion_event(job_id, prefix@, crate::variant::variants_view(variants@)),
{
    let mut records: Vec<VariantRecord> = Vec::new();
    let mut i: usize = 0;
    while i < variants.len()
        invariant
            i <= variants.len(),
            records@.len() == i,
            forall|k: int| 0 <= k < i ==> (#[trigger] records@[k])@ == record_of(prefix@, variants@[k]@),
        decreases variants.len() - i,
    {
        let record = make_record(prefix, &variants[i]);
        records.push(record);
        i += 1;
    }
    let event = CompletionEvent { job_id, variants: records };
    assert(event@.variants =~= completion_event(
        job_id,
        prefix@,
        crate::variant::variants_view(variants@),
    ).variants);
    event
}

} // verus!
