//! The output of a model: its logits, or only the best of them. Logits are floats as
//! their bits.

use crate::cuda_inference::products::{
    decode_context, decode_gemv, product_answers, Product, WeightMatrix,
};
use crate::float_bits::{total_order, total_rank};
use crate::quant::{GGMLType, QuantFormat};
use vstd::prelude::*;

verus! {

/// The bits of negative infinity.
pub const NEG_INFINITY: u32 = 0xff80_0000;

/// What the tuning allows of the output.
#[derive(Debug, Clone, Copy, PartialEq, Eq, Structural)]
pub struct OutputTuning {
    /// The output runs on the device.
    pub logits: bool,
    /// Only the best logit is made, where there is a kernel for it.
    pub argmax: bool,
    /// The Q8_0 kernel quantizes its input.
    pub q8dot: bool,
}

/// The kernels that make only the best logit.
#[derive(Debug, Clone, Copy, PartialEq, Eq, Structural)]
pub enum ArgmaxKernel {
    Q8Zero,
    Q8ZeroQ8Dot,
    Q6K,
}

/// A best logit as the device is asked for it: the kernel, the matrix and the hidden state,
/// which is floats as their bits.
pub type BestLogit<'a> = (ArgmaxKernel, WeightMatrix<'a>, &'a [u32]);

/// The kernel that makes only the best logit of a matrix, if there is one.
pub open spec fn argmax_kernel(ggml_type: GGMLType, q8dot: bool) -> Option<ArgmaxKernel> {
    match ggml_type {
        GGMLType::Q8_0 => if q8dot {
            Some(ArgmaxKernel::Q8ZeroQ8Dot)
        } else {
            Some(ArgmaxKernel::Q8Zero)
        },
        GGMLType::Q6_K => Some(ArgmaxKernel::Q6K),
        _ => None,
    }
}

fn find_argmax_kernel(ggml_type: GGMLType, q8dot: bool) -> (kernel: Option<ArgmaxKernel>)
    ensures
        kernel == argmax_kernel(ggml_type, q8dot),
{
    match ggml_type {
        GGMLType::Q8_0 => if q8dot {
            Some(ArgmaxKernel::Q8ZeroQ8Dot)
        } else {
            Some(ArgmaxKernel::Q8Zero)
        },
        GGMLType::Q6_K => Some(ArgmaxKernel::Q6K),
        _ => None,
    }
}

/// `rows` logits of which only one is known.
pub open spec fn only_logit(rows: nat, token: int, value: u32) -> Seq<u32> {
    Seq::new(
        rows,
        |i: int|
            if i == token {
                value
            } else {
                NEG_INFINITY
            },
    )
}

/// The logits of a best token: none for a token that there is no row for, if that
/// matters.
pub open spec fn sparse_logits(
    rows: usize,
    token: u32,
    value: u32,
    requires_valid_token: bool,
) -> Option<Seq<u32>> {
    if requires_valid_token && token >= rows {
        None
    } else {
        Some(only_logit(rows as nat, token as int, value))
    }
}

/// Makes the logits of a best token.
pub fn sparse_argmax_logits(
    rows: usize,
    token: u32,
    value: u32,
    argmax_requires_valid_token: bool,
) -> (logits: Option<Vec<u32>>)
    ensures
        match sparse_logits(rows, token, value, argmax_requires_valid_token) {
            None => logits is None,
            Some(all) => logits matches Some(made) && made@ == all,
        },
{
    let place: u64 = token as u64;
    if argmax_requires_valid_token && place >= rows as u64 {
        return None;
    }
    let mut logits: Vec<u32> = Vec::new();
    let mut i: usize = 0;
    while i < rows
        invariant
            i <= rows,
            place == token,
            logits@ == only_logit(i as nat, token as int, value),
        decreases rows - i,
    {
        logits.push(
            if i as u64 == place {
                value
            } else {
                NEG_INFINITY
            },
        );
        i += 1;
        assert(logits@ =~= only_logit(i as nat, token as int, value));
    }
    Some(logits)
}

/// Whether `output` is what comes of making all logits: a failure gives none.
pub open spec fn all_logits_answer<'a, D: FnOnce(Product<'a>) -> Result<Vec<u32>, String>>(
    matrix: WeightMatrix<'a>,
    input: &'a [u32],
    device: D,
    output: Option<Vec<u32>>,
) -> bool {
    exists|product: Option<Result<Vec<u32>, String>>| #[trigger]
        product_answers(
            matrix,
            input,
            "CUDA decode"@,
            decode_context(matrix.ggml_type),
            device,
            product,
        ) && output == (match product {
            Some(Ok(logits)) => Some(logits),
            _ => None,
        })
}

fn make_all_logits<'a, D: FnOnce(Product<'a>) -> Result<Vec<u32>, String>>(
    matrix: WeightMatrix<'a>,
    input: &'a [u32],
    device: D,
) -> (output: Option<Vec<u32>>)
    requires
        forall|format: QuantFormat| call_requires(device, ((format, matrix, input),)),
    ensures
        all_logits_answer(matrix, input, device, output),
{
    let product = decode_gemv(matrix, input, device);
    match product {
        Some(Ok(logits)) => Some(logits),
        _ => None,
    }
}

/// Whether `output` is what comes of making the output: the best logit alone where
/// there is a kernel and it gives one, else all of them.
pub open spec fn logits_answer<
    'a,
    A: FnOnce(BestLogit<'a>) -> Result<(u32, u32), String>,
    D: FnOnce(Product<'a>) -> Result<Vec<u32>, String>,
>(
    tuning: OutputTuning,
    matrix: WeightMatrix<'a>,
    input: &'a [u32],
    requires_valid_token: bool,
    argmax: A,
    device: D,
    output: Option<Vec<u32>>,
) -> bool {
    match argmax_kernel(matrix.ggml_type, tuning.q8dot) {
        Some(kernel) if tuning.argmax => exists|reply: Result<(u32, u32), String>| #[trigger]
            call_ensures(argmax, ((kernel, matrix, input),), reply) && (match reply {
                Ok((token, value)) => match sparse_logits(
                    matrix.rows,
                    token,
                    value,
                    requires_valid_token,
                ) {
                    Some(logits) => output matches Some(made) && made@ == logits,
                    None => all_logits_answer(matrix, input, device, output),
                },
                Err(_) => all_logits_answer(matrix, input, device, output),
            }),
        _ => all_logits_answer(matrix, input, device, output),
    }
}

fn output_logits_impl<
    'a,
    A: FnOnce(BestLogit<'a>) -> Result<(u32, u32), String>,
    D: FnOnce(Product<'a>) -> Result<Vec<u32>, String>,
>(
    tuning: OutputTuning,
    matrix: WeightMatrix<'a>,
    input: &'a [u32],
    argmax_requires_valid_token: bool,
    argmax: A,
    device: D,
) -> (output: Option<Vec<u32>>)
    requires
        forall|kernel: ArgmaxKernel| call_requires(argmax, ((kernel, matrix, input),)),
        forall|format: QuantFormat| call_requires(device, ((format, matrix, input),)),
    ensures
        logits_answer(tuning, matrix, input, argmax_requires_valid_token, argmax, device, output),
{
    if tuning.argmax {
        if let Some(kernel) = find_argmax_kernel(matrix.ggml_type, tuning.q8dot) {
            let reply = argmax((kernel, matrix, input));
            if let Ok((token, value)) = reply {
                if let Some(logits) = sparse_argmax_logits(
                    matrix.rows,
                    token,
                    value,
                    argmax_requires_valid_token,
                ) {
                    return Some(logits);
                }
            }
        }
    }
    make_all_logits(matrix, input, device)
}

/// Makes the output behind a prompt, if it is requested and runs on the device.
pub fn prefill_output_logits<
    'a,
    A: FnOnce(BestLogit<'a>) -> Result<(u32, u32), String>,
    D: FnOnce(Product<'a>) -> Result<Vec<u32>, String>,
>(
    requested: bool,
    tuning: OutputTuning,
    matrix: WeightMatrix<'a>,
    input: &'a [u32],
    argmax: A,
    device: D,
) -> (output: Option<Vec<u32>>)
    requires
        forall|kernel: ArgmaxKernel| call_requires(argmax, ((kernel, matrix, input),)),
        forall|format: QuantFormat| call_requires(device, ((format, matrix, input),)),
    ensures
        if requested && tuning.logits {
            logits_answer(tuning, matrix, input, false, argmax, device, output)
        } else {
            output is None
        },
{
    if !requested || !tuning.logits {
        return None;
    }
    output_logits_impl(tuning, matrix, input, false, argmax, device)
}

/// Makes the output. A best token that there is no row for is not taken.
pub fn try_output_logits<
    'a,
    A: FnOnce(BestLogit<'a>) -> Result<(u32, u32), String>,
    D: FnOnce(Product<'a>) -> Result<Vec<u32>, String>,
>(
    tuning: OutputTuning,
    matrix: WeightMatrix<'a>,
    input: &'a [u32],
    argmax: A,
    device: D,
) -> (output: Option<Vec<u32>>)
    requires
        forall|kernel: ArgmaxKernel| call_requires(argmax, ((kernel, matrix, input),)),
        forall|format: QuantFormat| call_requires(device, ((format, matrix, input),)),
    ensures
        logits_answer(tuning, matrix, input, true, argmax, device, output),
{
    output_logits_impl(tuning, matrix, input, true, argmax, device)
}

/// Whether the output runs on the device.
pub fn output_logits_enabled(tuning: OutputTuning) -> (enabled: bool)
    ensures
        enabled == tuning.logits,
{
    tuning.logits
}

/// Makes the output if it runs on the device and has a matrix of its own.
pub fn try_output_logits_if_enabled<
    'a,
    A: FnOnce(BestLogit<'a>) -> Result<(u32, u32), String>,
    D: FnOnce(Product<'a>) -> Result<Vec<u32>, String>,
>(
    tuning: OutputTuning,
    matrix: WeightMatrix<'a>,
    input: &'a [u32],
    token_embedding_output: bool,
    argmax: A,
    device: D,
) -> (output: Option<Vec<u32>>)
    requires
        forall|kernel: ArgmaxKernel| call_requires(argmax, ((kernel, matrix, input),)),
        forall|format: QuantFormat| call_requires(device, ((format, matrix, input),)),
    ensures
        if !token_embedding_output && tuning.logits {
            logits_answer(tuning, matrix, input, true, argmax, device, output)
        } else {
            output is None
        },
{
    if token_embedding_output || !output_logits_enabled(tuning) {
        return None;
    }
    try_output_logits(tuning, matrix, input, argmax, device)
}

/// Makes only the best token, and writes its logits to `out` if they are wanted.
pub fn try_output_logits_into_if_enabled<
    'a,
    A: FnOnce(BestLogit<'a>) -> Result<(u32, u32), String>,
>(
    tuning: OutputTuning,
    matrix: WeightMatrix<'a>,
    input: &'a [u32],
    token_embedding_output: bool,
    out: &mut Vec<u32>,
    write_logits: bool,
    argmax: A,
) -> (output: Option<u32>)
    requires
        forall|kernel: ArgmaxKernel| call_requires(argmax, ((kernel, matrix, input),)),
    ensures
        final(out)@.len() == old(out)@.len(),
        if token_embedding_output || !tuning.logits || old(out)@.len() < matrix.rows || !tuning.argmax
            || argmax_kernel(matrix.ggml_type, tuning.q8dot) is None {
            output is None && final(out)@ == old(out)@
        } else {
            exists|reply: Result<(u32, u32), String>| #[trigger]
                call_ensures(
                    argmax,
                    ((argmax_kernel(matrix.ggml_type, tuning.q8dot)->0, matrix, input),),
                    reply,
                ) && (
                match reply {
                    Ok((token, value)) if token < matrix.rows => {
                        &&& output == Some(token)
                        &&& final(out)@ == (if write_logits {
                            only_logit(matrix.rows as nat, token as int, value) + old(out)@.skip(
                                matrix.rows as int,
                            )
                        } else {
                            old(out)@
                        })
                    },
                    _ => output is None && final(out)@ == old(out)@,
                })
        },
{
    if token_embedding_output || !output_logits_enabled(tuning) || out.len() < matrix.rows {
        return None;
    }
    if !tuning.argmax {
        return None;
    }
    let kernel: ArgmaxKernel = match find_argmax_kernel(matrix.ggml_type, tuning.q8dot) {
        Some(kernel) => kernel,
        None => return None,
    };
    let reply = argmax((kernel, matrix, input));
    let (token, value) = match reply {
        Ok((token, value)) => (token, value),
        Err(_) => return None,
    };
    if token as u64 >= matrix.rows as u64 {
        return None;
    }
    if write_logits {
        let ghost before = out@;
        let mut i: usize = 0;
        while i < matrix.rows
            invariant
                i <= matrix.rows <= before.len(),
                out@ == only_logit(i as nat, token as int, value) + before.skip(i as int),
            decreases matrix.rows - i,
        {
            out.set(
                i,
                if i as u64 == token as u64 {
                    value
                } else {
                    NEG_INFINITY
                },
            );
            i += 1;
            assert(out@ =~= only_logit(i as nat, token as int, value) + before.skip(i as int));
        }
    }
    Some(token)
}

/// Whether `place` holds the largest logit in the total order of floats, and the last
/// of those.
pub open spec fn is_last_largest(logits: Seq<u32>, place: int) -> bool {
    &&& 0 <= place < logits.len()
    &&& forall|i: int|
        0 <= i < logits.len() ==> total_rank(#[trigger] logits[i]) <= total_rank(logits[place])
    &&& forall|i: int|
        place < i < logits.len() ==> total_rank(#[trigger] logits[i]) < total_rank(logits[place])
}

/// Finds the last of the largest logits; there is none among none.
pub fn find_last_largest(logits: &Vec<u32>) -> (place: Option<usize>)
    ensures
        match place {
            Some(found) => is_last_largest(logits@, found as int),
            None => logits@.len() == 0,
        },
{
    if logits.len() == 0 {
        return None;
    }
    let mut best: usize = 0;
    let mut i: usize = 1;
    while i < logits.len()
        invariant
            1 <= i <= logits@.len(),
            best < i,
            forall|k: int|
                0 <= k < i ==> total_rank(#[trigger] logits@[k]) <= total_rank(
                    logits@[best as int],
                ),
            forall|k: int|
                best < k < i ==> total_rank(#[trigger] logits@[k]) < total_rank(
                    logits@[best as int],
                ),
        decreases logits@.len() - i,
    {
        if total_order(logits[i]) >= total_order(logits[best]) {
            best = i;
        }
        i += 1;
    }
    Some(best)
}

/// Finds the best token: with a kernel that makes only that, if its format has one and
/// the token has a row, else as the last of the largest logits.
pub fn try_output_argmax_token<
    'a,
    A: FnOnce(BestLogit<'a>) -> Result<(u32, u32), String>,
    D: FnOnce(Product<'a>) -> Result<Vec<u32>, String>,
>(
    tuning: OutputTuning,
    matrix: WeightMatrix<'a>,
    input: &'a [u32],
    argmax: A,
    device: D,
) -> (output: Option<u32>)
    requires
        forall|kernel: ArgmaxKernel| call_requires(argmax, ((kernel, matrix, input),)),
        forall|format: QuantFormat| call_requires(device, ((format, matrix, input),)),
    ensures
        match argmax_kernel(matrix.ggml_type, tuning.q8dot) {
            Some(kernel) => exists|reply: Result<(u32, u32), String>| #[trigger]
                call_ensures(argmax, ((kernel, matrix, input),), reply) && output == (match reply {
                    Ok((token, _)) if token < matrix.rows => Some(token),
                    _ => None,
                }),
            None => exists|logits: Option<Vec<u32>>| #[trigger]
                all_logits_answer(matrix, input, device, logits) && match logits {
                    Some(values) if values@.len() > 0 => exists|place: int| #[trigger]
                        is_last_largest(values@, place) && output == Some(place as u32),
                    _ => output is None,
                },
        },
{
    if let Some(kernel) = find_argmax_kernel(matrix.ggml_type, tuning.q8dot) {
        let reply = argmax((kernel, matrix, input));
        return match reply {
            Ok((token, _)) => if (token as u64) < matrix.rows as u64 {
                Some(token)
            } else {
                None
            },
            Err(_) => None,
        };
    }
    let logits = make_all_logits(matrix, input, device);
    match &logits {
        Some(values) => match find_last_largest(values) {
            Some(place) => {
                proof {
                    assert(is_last_largest(values@, place as int));
                }
                Some(place as u32)
            },
            None => None,
        },
        None => None,
    }
}

/// Copies an output matrix to the device ahead of time: a Q8_0 one that is not empty,
/// if the output runs on the device. The answer says whether it was copied.
pub fn prewarm_output_weight<'a, D: FnOnce(&'a [u8]) -> Result<usize, String>>(
    tuning: OutputTuning,
    matrix: WeightMatrix<'a>,
    prewarm: D,
) -> (done: bool)
    requires
        call_requires(prewarm, (matrix.raw,)),
    ensures
        if matrix.ggml_type == GGMLType::Q8_0 && matrix.rows != 0 && matrix.cols != 0 && tuning.logits {
            exists|reply: Result<usize, String>| #[trigger]
                call_ensures(prewarm, (matrix.raw,), reply) && done == (reply is Ok)
        } else {
            !done
        },
{
    if matrix.ggml_type != GGMLType::Q8_0 || matrix.rows == 0 || matrix.cols == 0 || !tuning.logits {
        return false;
    }
    let reply = prewarm(matrix.raw);
    reply.is_ok()
}

/// There is one last largest logit.
pub proof fn law_last_largest_is_unique(logits: Seq<u32>, a: int, b: int)
    requires
        is_last_largest(logits, a),
        is_last_largest(logits, b),
    ensures
        a == b,
{
    if a < b {
        assert(total_rank(logits[b]) < total_rank(logits[a]));
    } else if b < a {
        assert(total_rank(logits[a]) < total_rank(logits[b]));
    }
}

/// Of logits of which only one is known, that one is the largest, if it is more than
/// negative infinity.
pub proof fn law_only_logit_is_largest(rows: nat, token: int, value: u32)
    requires
        0 <= token < rows,
        total_rank(value) > total_rank(NEG_INFINITY),
    ensures
        is_last_largest(only_logit(rows, token, value), token),
{
}

/// Only Q6_K and Q8_0 matrices have a kernel for the best logit alone, Q8_0 ones two, of
/// which the tuning picks.
pub proof fn law_which_matrices_have_a_best_logit(t: GGMLType, q8dot: bool)
    ensures
        argmax_kernel(t, q8dot) is Some <==> t is Q8_0 || t is Q6_K,
        argmax_kernel(t, q8dot) == Some(ArgmaxKernel::Q6K) <==> t is Q6_K,
        argmax_kernel(t, q8dot) == Some(ArgmaxKernel::Q8ZeroQ8Dot) <==> t is Q8_0 && q8dot,
        argmax_kernel(t, q8dot) == Some(ArgmaxKernel::Q8Zero) <==> t is Q8_0 && !q8dot,
{
}

/// The logits of a best token are one for each row: its own at its row, and negative
/// infinity, the sign over all exponent bits and no others, everywhere else. There are none
/// only for a token without a row where that matters.
pub proof fn law_the_best_logit_stands_alone(
    rows: usize,
    token: u32,
    value: u32,
    requires_valid_token: bool,
    i: int,
)
    ensures
        NEG_INFINITY == 0x8000_0000u32 + 0xff * 0x80_0000,
        sparse_logits(rows, token, value, requires_valid_token) is None <==> requires_valid_token
            && token >= rows,
        sparse_logits(rows, token, value, requires_valid_token) matches Some(logits) ==> {
            &&& logits.len() == rows
            &&& 0 <= i < rows && i == token ==> logits[i] == value
            &&& 0 <= i < rows && i != token ==> logits[i] == NEG_INFINITY
        },
{
}

/// The place that is found holds a logit that no other exceeds, and every later one is less.
pub proof fn law_no_logit_exceeds_the_one_found(logits: Seq<u32>, place: int, i: int)
    requires
        is_last_largest(logits, place),
        0 <= i < logits.len(),
    ensures
        0 <= place < logits.len(),
        total_rank(logits[i]) <= total_rank(logits[place]),
        logits[i] == logits[place] ==> i <= place,
        i > place ==> total_rank(logits[i]) < total_rank(logits[place]),
{
    if i > place {
        assert(total_rank(logits[i]) < total_rank(logits[place]));
    }
}

/// What becomes of an output: the best logit alone, where the tuning asks for it, there is a
/// kernel and it names a row if that matters; else all logits that the device gives, and
/// nothing where it fails.
pub proof fn law_what_becomes_of_an_output<
    'a,
    A: FnOnce(BestLogit<'a>) -> Result<(u32, u32), String>,
    D: FnOnce(Product<'a>) -> Result<Vec<u32>, String>,
>(
    tuning: OutputTuning,
    matrix: WeightMatrix<'a>,
    input: &'a [u32],
    requires_valid_token: bool,
    argmax: A,
    device: D,
    output: Option<Vec<u32>>,
)
    requires
        logits_answer(tuning, matrix, input, requires_valid_token, argmax, device, output),
    ensures
        ({
            let kernel = argmax_kernel(matrix.ggml_type, tuning.q8dot);
            let all = all_logits_answer(matrix, input, device, output);
            &&& !tuning.argmax || kernel is None ==> all
            &&& tuning.argmax && kernel is Some ==> {
                ||| all && exists|reply: Result<(u32, u32), String>| #[trigger]
                    call_ensures(argmax, ((kernel->0, matrix, input),), reply) && (reply is Err || (
                    (reply->Ok_0).0 >= matrix.rows && requires_valid_token))
                ||| exists|reply: Result<(u32, u32), String>|
                    {
                        &&& #[trigger] call_ensures(argmax, ((kernel->0, matrix, input),), reply)
                        &&& reply matches Ok(best) && {
                            &&& output is Some && output->0@.len() == matrix.rows
                            &&& forall|i: int|
                                0 <= i < matrix.rows ==> #[trigger] output->0@[i] == if i == best.0 {
                                    best.1
                                } else {
                                    NEG_INFINITY
                                }
                        }
                    }
            }
        }),
        all_logits_answer(matrix, input, device, output) ==> exists|
            product: Option<Result<Vec<u32>, String>>,
        |
            {
                &&& #[trigger] product_answers(
                    matrix,
                    input,
                    "CUDA decode"@,
                    decode_context(matrix.ggml_type),
                    device,
                    product,
                )
                &&& output is Some <==> product is Some && product->0 is Ok
                &&& output is Some ==> output->0 == product->0->Ok_0
            },
{
    let kernel = argmax_kernel(matrix.ggml_type, tuning.q8dot);
    if tuning.argmax && kernel is Some {
        let reply = choose|reply: Result<(u32, u32), String>| #[trigger]
            call_ensures(argmax, ((kernel->0, matrix, input),), reply) && (match reply {
                Ok((token, value)) => match sparse_logits(
                    matrix.rows,
                    token,
                    value,
                    requires_valid_token,
                ) {
                    Some(logits) => output matches Some(made) && made@ == logits,
                    None => all_logits_answer(matrix, input, device, output),
                },
                Err(_) => all_logits_answer(matrix, input, device, output),
            });
        assert(call_ensures(argmax, ((kernel->0, matrix, input),), reply));
    }
}

} // verus!
