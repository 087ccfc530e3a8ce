//! The result bridge: how the bytes a run produced reach a buffer that the
//! caller owns and has sized.

use crate::stage::Stage;
use vstd::prelude::*;

verus! {

/// The caller's buffer after `output` was written to its front.
pub open spec fn written_over(output: Seq<u8>, result: Seq<u8>) -> Seq<u8>
    recommends
        output.len() <= result.len(),
{
    output + result.skip(output.len() as int)
}

/// Whether `output` can be handed over whole: it has room in a buffer of
/// `capacity` bytes, and its length can be reported.
pub open spec fn fits(output: Seq<u8>, capacity: nat) -> bool {
    output.len() <= capacity && output.len() <= u32::MAX
}

/// What `deliver` leaves in the caller's buffer.
pub open spec fn delivered(output: Seq<u8>, result: Seq<u8>) -> Seq<u8> {
    if fits(output, result.len()) {
        written_over(output, result)
    } else {
        result
    }
}

/// What `deliver` reports.
pub open spec fn delivered_len(output: Seq<u8>, capacity: nat) -> nat {
    if fits(output, capacity) {
        output.len()
    } else {
        0
    }
}

/// What every hand-over leaves behind, whatever the bytes were: the buffer
/// keeps its length, the count stays within it, and no byte behind the count
/// was touched.
pub open spec fn is_delivery(before: Seq<u8>, after: Seq<u8>, written: u32) -> bool {
    &&& after.len() == before.len()
    &&& written <= before.len()
    &&& after.skip(written as int) == before.skip(written as int)
    &&& written == 0 ==> after == before
}

/// Copies the whole of `output` to the front of `result` and reports how many
/// bytes that was. An empty `output` reports zero and touches nothing. The
/// caller sees to it that `result` has room for all of `output`.
pub fn write_result(output: &[u8], result: &mut [u8]) -> (written: u32)
    requires
        fits(output@, old(result)@.len()),
    ensures
        written == output@.len(),
        final(result)@ == written_over(output@, old(result)@),
        output@.len() == 0 ==> final(result)@ == old(result)@,
{
    let len = output.len();
    if len == 0 {
        assert(result@ =~= written_over(output@, old(result)@));
        return 0;
    }
    let mut i: usize = 0;
    while i < len
        invariant
            len == output@.len(),
            i <= len,
            len <= result@.len(),
            result@.len() == old(result)@.len(),
            forall|j: int| 0 <= j < i ==> result@[j] == output@[j],
            forall|j: int| i <= j < result@.len() ==> result@[j] == old(result)@[j],
        decreases len - i,
    {
        result[i] = output[i];
        i += 1;
    }
    assert(result@ =~= written_over(output@, old(result)@));
    len as u32
}

/// Hands `output` over where it fits `result`, as `write_result` does, and
/// otherwise leaves `result` alone and reports zero: a count of zero stands
/// for "no output", whatever the reason.
pub fn deliver(output: &[u8], result: &mut [u8]) -> (written: u32)
    ensures
        written == delivered_len(output@, old(result)@.len()),
        final(result)@ == delivered(output@, old(result)@),
        is_delivery(old(result)@, final(result)@, written),
{
    if output.len() <= result.len() && output.len() <= u32::MAX as usize {
        let written = write_result(output, result);
        assert(result@.skip(written as int) =~= old(result)@.skip(written as int));
        written
    } else {
        0
    }
}

/// What a session that ended in `stage` with the captured bytes `output`
/// leaves in the caller's buffer: the output where it was captured and fits,
/// and otherwise what was there.
pub open spec fn handed_over(stage: Stage, output: Seq<u8>, result: Seq<u8>) -> Seq<u8> {
    if stage is OutputCaptured {
        delivered(output, result)
    } else {
        result
    }
}

/// What such a session reports.
pub open spec fn handed_over_len(stage: Stage, output: Seq<u8>, capacity: nat) -> nat {
    if stage is OutputCaptured {
        delivered_len(output, capacity)
    } else {
        0
    }
}

/// Ends a session towards the caller: the output of a session whose output
/// was captured is delivered, and any other session reports zero and leaves
/// `result` alone, whatever `output` holds.
pub fn hand_over(stage: Stage, output: &[u8], result: &mut [u8]) -> (written: u32)
    ensures
        written == handed_over_len(stage, output@, old(result)@.len()),
        final(result)@ == handed_over(stage, output@, old(result)@),
        is_delivery(old(result)@, final(result)@, written),
{
    match stage {
        Stage::OutputCaptured => deliver(output, result),
        _ => 0,
    }
}

/// A hand-over changes nothing but the bytes it reports: the caller's buffer
/// keeps its length, and behind the reported count it is as it was.
pub proof fn lemma_delivery_is_bounded(output: Seq<u8>, result: Seq<u8>)
    ensures
        is_delivery(result, delivered(output, result), delivered_len(output, result.len()) as u32),
        delivered(output, result).subrange(0, delivered_len(output, result.len()) as int)
            == if fits(output, result.len()) {
            output
        } else {
            Seq::<u8>::empty()
        },
{
    let after = delivered(output, result);
    let written = delivered_len(output, result.len());
    assert(after.skip(written as int) =~= result.skip(written as int));
    if fits(output, result.len()) {
        assert(after.subrange(0, written as int) =~= output);
        if written == 0 {
            assert(after =~= result);
        }
    } else {
        assert(after.subrange(0, 0) =~= Seq::<u8>::empty());
    }
}

} // verus!
