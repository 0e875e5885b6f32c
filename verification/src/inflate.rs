use vstd::prelude::*;

verus! {

/// What inflating `stream` in one pass leaves behind when the output region
/// holds `output` beforehand: whether the end of the stream was reached, and
/// the region afterwards.
pub uninterp spec fn inflated(stream: Seq<u8>, output: Seq<u8>) -> (bool, Seq<u8>);

/// Runs `miniz_oxide::inflate::core::decompress` once on a fresh decompressor,
/// from position 0 of `output` and with no flags, so that `output` is used as
/// a wrapping window. Trusted: the outcome is a function of the stream and of
/// the region as it was, `done` tells whether the status was `Done`, and the
/// region keeps its length.
#[verifier::external_body]
pub(crate) fn inflate(stream: &[u8], output: &mut Vec<u8>) -> (done: bool)
    ensures
        (done, final(output)@) == inflated(stream@, old(output)@),
        final(output)@.len() == old(output)@.len(),
{
    let mut state = miniz_oxide::inflate::core::DecompressorOxide::new();
    let (status, _, _) =
        miniz_oxide::inflate::core::decompress(&mut state, stream, output.as_mut_slice(), 0, 0);
    match status {
        miniz_oxide::inflate::TINFLStatus::Done => true,
        _ => false,
    }
}

} // verus!
