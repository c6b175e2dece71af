use vstd::prelude::*;

use crate::error::{MlError, MlResult};

verus! {

/// Values in one detector output row: centre x, centre y, width, height, score,
/// then five keypoints as x, y pairs.
pub const DETECTION_ROW_LEN: usize = 16;

/// Side of the square face crop the embedder takes.
pub const FACE_INPUT_SIZE: usize = 112;

/// Values in one aligned face tensor: 112 by 112 pixels, three channels.
pub const FACE_INPUT_LEN: usize = 37632;

/// Number of complete detector rows in an output of `output_len` values.
///
/// Fails with a postprocess error when not even one row is there.
pub fn detection_row_count(output_len: usize) -> (r: MlResult<usize>)
    ensures
        output_len < DETECTION_ROW_LEN <==> r is Err,
        r matches Ok(n) ==> n == output_len / DETECTION_ROW_LEN,
        r matches Err(e) ==> e is Postprocess,
{
    if output_len < DETECTION_ROW_LEN {
        return Err(MlError::Postprocess(String::from_str("unexpected face detector output size")));
    }
    Ok(output_len / DETECTION_ROW_LEN)
}

/// Checks the embedder's inputs: one aligned tensor per face result, each of the
/// full 112 by 112 by 3 length.
///
/// Fails with a postprocess error when the counts differ, else with a preprocess
/// error when some tensor has another length.
pub fn check_embedding_inputs(aligned_lengths: &[usize], result_count: usize) -> (r: MlResult<()>)
    ensures
        r is Ok <==> aligned_lengths@.len() == result_count && forall|i: int|
            0 <= i < aligned_lengths@.len() ==> #[trigger] aligned_lengths@[i] == FACE_INPUT_LEN,
        aligned_lengths@.len() != result_count ==> (r matches Err(e) && e is Postprocess),
        aligned_lengths@.len() == result_count && r is Err ==> (r matches Err(e)
            && e is Preprocess),
{
    if aligned_lengths.len() != result_count {
        return Err(
            MlError::Postprocess(
                String::from_str("aligned faces count does not match face result count"),
            ),
        );
    }
    let mut i: usize = 0;
    while i < aligned_lengths.len()
        invariant
            i <= aligned_lengths@.len(),
            aligned_lengths@.len() == result_count,
            forall|k: int| 0 <= k < i ==> #[trigger] aligned_lengths@[k] == FACE_INPUT_LEN,
        decreases aligned_lengths@.len() - i,
    {
        if aligned_lengths[i] != FACE_INPUT_LEN {
            return Err(
                MlError::Preprocess(
                    String::from_str("aligned face tensor length does not match expected"),
                ),
            );
        }
        i = i + 1;
    }
    Ok(())
}

/// The embedding output is a batch of `batch_size` rows of equal, non-zero width.
pub open spec fn valid_embedding_output(shape: Seq<i64>, output_len: nat, batch_size: nat) -> bool {
    &&& shape.len() > 0
    &&& shape[0] == batch_size
    &&& output_len / batch_size > 0
    &&& output_len % batch_size == 0
}

/// Width of each embedding in an output of shape `shape` holding `output_len`
/// values, for a batch of `batch_size` faces.
///
/// Fails with a postprocess error when the shape is empty, its leading
/// dimension is not the batch size, or the values do not split into rows of
/// equal, non-zero width.
pub fn embedding_width(shape: &[i64], output_len: usize, batch_size: usize) -> (r: MlResult<
    usize,
>)
    requires
        batch_size > 0,
    ensures
        r is Ok <==> valid_embedding_output(shape@, output_len as nat, batch_size as nat),
        r matches Ok(w) ==> w == output_len / batch_size && w * batch_size == output_len,
        r matches Err(e) ==> e is Postprocess,
{
    if shape.len() == 0 {
        return Err(MlError::Postprocess(String::from_str("face embedding output shape is empty")));
    }
    let batch = shape[0];
    if batch < 0 || batch as u64 != batch_size as u64 {
        return Err(MlError::Postprocess(String::from_str("face embedding batch mismatch")));
    }
    let width = output_len / batch_size;
    if width == 0 || output_len % batch_size != 0 {
        return Err(
            MlError::Postprocess(
                String::from_str("invalid face embedding tensor shape for data length"),
            ),
        );
    }
    assert(width * batch_size == output_len) by (nonlinear_arith)
        requires
            width == output_len / batch_size,
            output_len % batch_size == 0,
            batch_size > 0,
    ;
    Ok(width)
}

/// The CLIP output is a single embedding: rank 1, or rank 2 with a batch of one.
pub open spec fn valid_clip_shape(shape: Seq<i64>) -> bool {
    shape.len() == 1 || (shape.len() == 2 && shape[0] == 1)
}

/// Checks the shape of the CLIP image output.
///
/// Fails with a postprocess error for a rank-2 output whose batch is not one
/// and for any rank other than 1 or 2.
pub fn check_clip_output_shape(shape: &[i64]) -> (r: MlResult<()>)
    ensures
        r is Ok <==> valid_clip_shape(shape@),
        r matches Err(e) ==> e is Postprocess,
{
    if shape.len() == 2 {
        if shape[0] != 1 {
            return Err(MlError::Postprocess(String::from_str("unexpected CLIP batch size in shape")));
        }
        Ok(())
    } else if shape.len() == 1 {
        Ok(())
    } else {
        Err(MlError::Postprocess(String::from_str("unsupported CLIP output shape")))
    }
}

} // verus!
