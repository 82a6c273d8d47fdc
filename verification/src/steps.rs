use vstd::prelude::*;

verus! {

/// The trace could not be split into recursive steps.
#[derive(Clone, Copy, Debug, PartialEq, Eq, Structural)]
pub enum StepSplitError {
    /// The trace has `got` iterations where `num_steps * num_iters_per_step` are needed.
    TraceLengthMismatch { got: usize, expected: usize },
}

/// Splits a trace of `num_steps * num_iters_per_step` iterations into `num_steps` recursive
/// steps of `num_iters_per_step` consecutive iterations each: step `i` holds iterations
/// `[i * k, (i + 1) * k)`. `Err` exactly when the trace has another length.
pub fn split_trace_into_steps<T: Copy>(trace: &[T], num_steps: usize, num_iters_per_step: usize) -> (res: Result<
    Vec<Vec<T>>,
    StepSplitError,
>)
    ensures
        res is Ok <==> trace@.len() == num_steps * num_iters_per_step,
        res matches Err(StepSplitError::TraceLengthMismatch { got, expected }) ==> got == trace@.len() && (
        expected == num_steps * num_iters_per_step || num_steps * num_iters_per_step > usize::MAX),
        res matches Ok(steps) ==> {
            &&& steps@.len() == num_steps
            &&& forall|i: int|
                0 <= i < num_steps ==> (#[trigger] steps@[i])@ == trace@.subrange(
                    i * num_iters_per_step,
                    (i + 1) * num_iters_per_step,
                )
        },
{
    let k = num_iters_per_step;
    let expected = match num_steps.checked_mul(k) {
        Some(e) => e,
        None => {
            return Err(StepSplitError::TraceLengthMismatch { got: trace.len(), expected: usize::MAX });
        },
    };
    if trace.len() != expected {
        return Err(StepSplitError::TraceLengthMismatch { got: trace.len(), expected });
    }
    let mut steps: Vec<Vec<T>> = Vec::new();
    let mut i: usize = 0;
    while i < num_steps
        invariant
            i <= num_steps,
            k == num_iters_per_step,
            trace@.len() == num_steps * k,
            expected == num_steps * k,
            steps@.len() == i,
            forall|s: int| 0 <= s < i ==> (#[trigger] steps@[s])@ == trace@.subrange(s * k, (s + 1) * k),
        decreases num_steps - i,
    {
        proof {
            assert(i * k + k <= num_steps * k && (i + 1) * k == i * k + k && 0 <= i * k) by (nonlinear_arith)
                requires
                    i < num_steps,
            ;
        }
        let start = i * k;
        let mut chunk: Vec<T> = Vec::new();
        let mut j: usize = 0;
        while j < k
            invariant
                i < num_steps,
                j <= k,
                k == num_iters_per_step,
                start == i * k,
                start + k <= trace@.len(),
                trace@.len() == expected,
                chunk@ == trace@.subrange(start as int, start + j),
            decreases k - j,
        {
            chunk.push(trace[start + j]);
            j = j + 1;
            assert(chunk@ =~= trace@.subrange(start as int, start + j));
        }
        steps.push(chunk);
        i = i + 1;
    }
    Ok(steps)
}

} // verus!
