//! Products with a weight matrix, by its format.

use crate::cuda_inference::device::{answers, ask};
use crate::cuda_inference::prefill::{gemm_allowed, prefill_q4k_f16_gemm_allowed, GemmQuery};
use crate::quant::{quant_format, quant_format_of, GGMLType, QuantFormat};
use crate::text::{
    begins_with, decimal, lemma_says, lemma_says_more, push_decimal, says, starts_with,
};
use vstd::prelude::*;

verus! {

/// A weight matrix: its format, its bytes and their address, and its shape.
#[derive(Debug, Clone, Copy)]
pub struct WeightMatrix<'a> {
    pub ggml_type: GGMLType,
    pub address: usize,
    pub raw: &'a [u8],
    pub rows: usize,
    pub cols: usize,
}

impl<'a> WeightMatrix<'a> {
    /// The bytes that a matrix of plain floats has.
    pub open spec fn plain_bytes(self) -> int {
        self.rows * self.cols * 4
    }

    /// A matrix of plain floats has all its bytes and starts on a float.
    pub open spec fn plain_layout_fits(self) -> bool {
        self.raw@.len() == self.plain_bytes() && self.address % 4 == 0
    }

    /// What is said of a matrix of plain floats whose layout does not fit.
    pub open spec fn layout_message(self, subject: Seq<char>) -> Seq<char> {
        subject + " F32 weight layout mismatch: bytes="@ + decimal(self.raw@.len())
            + " expected="@ + decimal(self.plain_bytes() as nat) + " alignment="@ + decimal(
            (self.address % 4) as nat,
        )
    }

    /// Looks at the layout of a matrix of plain floats: `None` where its bytes cannot
    /// be counted.
    fn find_plain_layout(&self, subject: &str) -> (fits: Option<Result<(), String>>)
        ensures
            match fits {
                None => self.plain_bytes() > usize::MAX,
                Some(Ok(())) => self.plain_bytes() <= usize::MAX && self.plain_layout_fits(),
                Some(Err(message)) => {
                    &&& self.plain_bytes() <= usize::MAX
                    &&& !self.plain_layout_fits()
                    &&& message@ == self.layout_message(subject@)
                },
            },
    {
        proof {
            assert(self.rows * self.cols >= 0) by (nonlinear_arith);
        }
        let elements = self.rows.checked_mul(self.cols)?;
        let expected = elements.checked_mul(4)?;
        if self.raw.len() == expected && self.address % 4 == 0 {
            return Some(Ok(()));
        }
        let mut message = String::from_str(subject);
        message.append(" F32 weight layout mismatch: bytes=");
        push_decimal(&mut message, self.raw.len());
        message.append(" expected=");
        push_decimal(&mut message, expected);
        message.append(" alignment=");
        push_decimal(&mut message, self.address % 4);
        Some(Err(message))
    }
}

/// A product as the device is asked for it: the kernel, the matrix and the vectors, which
/// are floats as their bits.
pub type Product<'a> = (QuantFormat, WeightMatrix<'a>, &'a [u32]);

/// Whether `output` is what comes of a product: nothing where the device has no
/// kernel or the bytes cannot be counted, an error where plain floats do not lie
/// right, else the device's answer.
pub open spec fn product_answers<'a, T, D: FnOnce(Product<'a>) -> Result<T, String>>(
    matrix: WeightMatrix<'a>,
    input: &'a [u32],
    subject: Seq<char>,
    context: Seq<char>,
    device: D,
    output: Option<Result<T, String>>,
) -> bool {
    match quant_format(matrix.ggml_type) {
        None => output is None,
        Some(format) => if format == QuantFormat::F32 && matrix.plain_bytes() > usize::MAX {
            output is None
        } else if format == QuantFormat::F32 && !matrix.plain_layout_fits() {
            output matches Some(Err(message)) && message@ == matrix.layout_message(subject)
        } else {
            output matches Some(result) && answers(device, (format, matrix, input), context, result)
        },
    }
}

/// What a failed product of a prompt is reported with.
pub open spec fn prefill_context(ggml_type: GGMLType) -> Seq<char> {
    if ggml_type == GGMLType::F32 {
        "CUDA prefill f32 GEMM failed: "@
    } else {
        "CUDA prefill "@ + ggml_type.spec_label() + " GEMV failed: "@
    }
}

/// What a failed product of a token is reported with.
pub open spec fn decode_context(ggml_type: GGMLType) -> Seq<char> {
    "CUDA decode "@ + ggml_type.spec_label() + " GEMV failed: "@
}

fn multiply<'a, T, D: FnOnce(Product<'a>) -> Result<T, String>>(
    matrix: WeightMatrix<'a>,
    input: &'a [u32],
    subject: &str,
    context: &str,
    device: D,
) -> (output: Option<Result<T, String>>)
    requires
        forall|format: QuantFormat| call_requires(device, ((format, matrix, input),)),
    ensures
        product_answers(matrix, input, subject@, context@, device, output),
{
    let format: QuantFormat = quant_format_of(matrix.ggml_type)?;
    if format == QuantFormat::F32 {
        if let Err(message) = matrix.find_plain_layout(subject)? {
            return Some(Err(message));
        }
    }
    Some(ask(device, (format, matrix, input), context))
}

/// Multiplies a matrix with several vectors.
pub fn gemv_batch<'a, T, D: FnOnce(Product<'a>) -> Result<T, String>>(
    matrix: WeightMatrix<'a>,
    input: &'a [u32],
    device: D,
) -> (output: Option<Result<T, String>>)
    requires
        forall|format: QuantFormat| call_requires(device, ((format, matrix, input),)),
    ensures
        product_answers(
            matrix,
            input,
            "CUDA prefill"@,
            prefill_context(matrix.ggml_type),
            device,
            output,
        ),
{
    if matrix.ggml_type == GGMLType::F32 {
        return multiply(matrix, input, "CUDA prefill", "CUDA prefill f32 GEMM failed: ", device);
    }
    let mut context = String::from_str("CUDA prefill ");
    context.append(matrix.ggml_type.label());
    context.append(" GEMV failed: ");
    multiply(matrix, input, "CUDA prefill", context.as_str(), device)
}

/// Whether a prompt's products run on the device: from two tokens on.
pub fn prefill_gemv_enabled(seq_len: usize) -> (enabled: bool)
    ensures
        enabled == (seq_len > 1),
{
    seq_len > 1
}

/// Whether `first` comes of offering a prompt's product in half precision: a Q4_K matrix
/// is offered where the tuning allows it, and nothing else is.
pub open spec fn half_precision_offered<
    'a,
    T,
    G: Fn(GemmQuery) -> bool,
    H: FnOnce((WeightMatrix<'a>, &'a [u32])) -> Result<Option<T>, String>,
>(
    matrix: WeightMatrix<'a>,
    input: &'a [u32],
    seq_len: usize,
    f16_gemm_enabled: bool,
    gemm: G,
    half_precision: H,
    first: Result<Option<T>, String>,
) -> bool {
    if matrix.ggml_type == GGMLType::Q4_K {
        exists|allowed: bool| #[trigger]
            gemm_allowed(f16_gemm_enabled, gemm, seq_len, matrix.rows, matrix.cols, allowed) && (
            if allowed {
                call_ensures(half_precision, ((matrix, input),), first)
            } else {
                first == Ok::<Option<T>, String>(None)
            })
    } else {
        first == Ok::<Option<T>, String>(None)
    }
}

fn offer_half_precision<
    'a,
    T,
    G: Fn(GemmQuery) -> bool,
    H: FnOnce((WeightMatrix<'a>, &'a [u32])) -> Result<Option<T>, String>,
>(
    matrix: WeightMatrix<'a>,
    input: &'a [u32],
    seq_len: usize,
    f16_gemm_enabled: bool,
    gemm: &G,
    half_precision: H,
) -> (first: Result<Option<T>, String>)
    requires
        forall|query: GemmQuery| call_requires(*gemm, (query,)),
        call_requires(half_precision, ((matrix, input),)),
    ensures
        half_precision_offered(
            matrix,
            input,
            seq_len,
            f16_gemm_enabled,
            *gemm,
            half_precision,
            first,
        ),
{
    if matrix.ggml_type != GGMLType::Q4_K {
        return Ok(None);
    }
    let allowed: bool = prefill_q4k_f16_gemm_allowed(
        f16_gemm_enabled,
        gemm,
        seq_len,
        matrix.rows,
        matrix.cols,
    );
    if !allowed {
        return Ok(None);
    }
    half_precision((matrix, input))
}

/// Multiplies a matrix with a prompt's vectors. A Q4_K matrix is first offered to the
/// half-precision product, where the tuning allows it, and to the others only if it
/// declines.
pub fn prefill_gemv<
    'a,
    T,
    G: Fn(GemmQuery) -> bool,
    H: FnOnce((WeightMatrix<'a>, &'a [u32])) -> Result<Option<T>, String>,
    D: FnOnce(Product<'a>) -> Result<T, String>,
>(
    matrix: WeightMatrix<'a>,
    input: &'a [u32],
    seq_len: usize,
    f16_gemm_enabled: bool,
    gemm: &G,
    half_precision: H,
    device: D,
) -> (output: Option<Result<T, String>>)
    requires
        forall|query: GemmQuery| call_requires(*gemm, (query,)),
        call_requires(half_precision, ((matrix, input),)),
        forall|format: QuantFormat| call_requires(device, ((format, matrix, input),)),
    ensures
        seq_len <= 1 ==> output is None,
        seq_len > 1 ==> exists|first: Result<Option<T>, String>| #[trigger]
            half_precision_offered(
                matrix,
                input,
                seq_len,
                f16_gemm_enabled,
                *gemm,
                half_precision,
                first,
            ) && match first {
                Ok(Some(value)) => output == Some(Ok::<T, String>(value)),
                Ok(None) => product_answers(
                    matrix,
                    input,
                    "CUDA prefill"@,
                    prefill_context(matrix.ggml_type),
                    device,
                    output,
                ),
                Err(cause) => output matches Some(Err(message)) && message@
                    == "CUDA prefill Q4_K F16 GEMM failed: "@ + cause@,
            },
{
    if !prefill_gemv_enabled(seq_len) {
        return None;
    }
    let first = offer_half_precision(
        matrix,
        input,
        seq_len,
        f16_gemm_enabled,
        gemm,
        half_precision,
    );
    match first {
        Ok(Some(value)) => return Some(Ok(value)),
        Ok(None) => {},
        Err(cause) => {
            let mut message = String::from_str("CUDA prefill Q4_K F16 GEMM failed: ");
            message.append(cause.as_str());
            return Some(Err(message));
        },
    }
    gemv_batch(matrix, input, device)
}

/// Multiplies a matrix with one vector.
pub fn decode_gemv<'a, T, D: FnOnce(Product<'a>) -> Result<T, String>>(
    matrix: WeightMatrix<'a>,
    input: &'a [u32],
    device: D,
) -> (output: Option<Result<T, String>>)
    requires
        forall|format: QuantFormat| call_requires(device, ((format, matrix, input),)),
    ensures
        product_answers(
            matrix,
            input,
            "CUDA decode"@,
            decode_context(matrix.ggml_type),
            device,
            output,
        ),
{
    let mut context = String::from_str("CUDA decode ");
    context.append(matrix.ggml_type.label());
    context.append(" GEMV failed: ");
    multiply(matrix, input, "CUDA decode", context.as_str(), device)
}

/// Gathers the embeddings of tokens.
pub fn embedding_gather<'a, T, D: FnOnce(Product<'a>) -> Result<T, String>>(
    matrix: WeightMatrix<'a>,
    token_ids: &'a [u32],
    device: D,
) -> (output: Option<Result<T, String>>)
    requires
        forall|format: QuantFormat| call_requires(device, ((format, matrix, token_ids),)),
    ensures
        match quant_format(matrix.ggml_type) {
            None => output is None,
            Some(format) => output matches Some(result) && answers(
                device,
                (format, matrix, token_ids),
                "CUDA "@ + matrix.ggml_type.spec_label() + " embedding gather failed: "@,
                result,
            ),
        },
{
    let format: QuantFormat = quant_format_of(matrix.ggml_type)?;
    let mut context = String::from_str("CUDA ");
    context.append(matrix.ggml_type.label());
    context.append(" embedding gather failed: ");
    Some(ask(device, (format, matrix, token_ids), context.as_str()))
}

/// A product that the device writes where it belongs.
#[derive(Debug, Clone, Copy, PartialEq, Eq, Structural)]
pub struct InPlaceProduct {
    pub six_bit: bool,
    /// A resident weight is marked as used again.
    pub touch_resident_hit: bool,
}

pub open spec fn labelled(label: Seq<char>, ggml_type: GGMLType, rest: Seq<char>) -> Seq<char> {
    "CUDA "@ + label + " "@ + ggml_type.spec_label() + rest
}

fn labelled_text(label: &str, ggml_type: GGMLType, rest: &str) -> (text: String)
    ensures
        text@ == labelled(label@, ggml_type, rest@),
{
    let mut text = String::from_str("CUDA ");
    text.append(label);
    text.append(" ");
    text.append(ggml_type.label());
    text.append(rest);
    text
}

/// `output` with its first elements replaced by `values`.
pub open spec fn overwritten(output: Seq<u32>, values: Seq<u32>) -> Seq<u32> {
    values + output.skip(values.len() as int)
}

fn copy_over(output: &mut Vec<u32>, values: &Vec<u32>)
    requires
        values@.len() <= old(output)@.len(),
    ensures
        final(output)@ == overwritten(old(output)@, values@),
{
    let mut i: usize = 0;
    while i < values.len()
        invariant
            i <= values@.len() <= old(output)@.len(),
            output@ == overwritten(old(output)@, values@.take(i as int)),
        decreases values@.len() - i,
    {
        output.set(i, values[i]);
        i += 1;
        assert(output@ =~= overwritten(old(output)@, values@.take(i as int)));
    }
    assert(values@.take(values@.len() as int) =~= values@);
}

/// Whether a product that the device writes comes to `written` and leaves `after` in the
/// output: what the device left there, and its failure with the label in front.
pub open spec fn write_answers<
    'a,
    W: FnOnce((InPlaceProduct, WeightMatrix<'a>, &'a [u32]), Vec<u32>) -> (
        Vec<u32>,
        Result<(), String>,
    ),
>(
    matrix: WeightMatrix<'a>,
    input: &'a [u32],
    label: Seq<char>,
    write: W,
    before: Vec<u32>,
    after: Vec<u32>,
    written: Result<bool, String>,
) -> bool {
    let direct = InPlaceProduct {
        six_bit: matrix.ggml_type == GGMLType::Q6_K,
        touch_resident_hit: begins_with(label, "nemotron_"@),
    };
    exists|given: Vec<u32>, reply: (Vec<u32>, Result<(), String>)|
        {
            &&& given@ == before@
            &&& #[trigger] call_ensures(write, ((direct, matrix, input), given), reply)
            &&& after == reply.0
            &&& match reply.1 {
                Ok(()) => written == Ok::<bool, String>(true),
                Err(cause) => written matches Err(message) && message@ == labelled(
                    label,
                    matrix.ggml_type,
                    " GEMV failed: "@,
                ) + cause@,
            }
        }
}

/// Whether a product whose values are copied comes to `written` and leaves `after` in the
/// output: there is a value for each row, and the output has room for them, or it stays as
/// it is.
pub open spec fn copy_answers(
    product: Option<Result<Vec<u32>, String>>,
    ggml_type: GGMLType,
    rows: usize,
    label: Seq<char>,
    before: Seq<u32>,
    after: Seq<u32>,
    written: Result<bool, String>,
) -> bool {
    match product {
        Some(Ok(values)) if values@.len() == rows && rows <= before.len() => {
            &&& written == Ok::<bool, String>(true)
            &&& after == overwritten(before, values@)
        },
        Some(Ok(values)) => {
            &&& written matches Err(message) && message@ == labelled(
                label,
                ggml_type,
                " GEMV output mismatch: got "@,
            ) + decimal(values@.len()) + " expected "@ + decimal(rows as nat)
            &&& after == before
        },
        Some(Err(cause)) => {
            &&& written == Err::<bool, String>(cause)
            &&& after == before
        },
        None => {
            &&& written matches Err(message) && message@ == labelled(
                label,
                ggml_type,
                " GEMV is unsupported"@,
            )
            &&& after == before
        },
    }
}

/// Multiplies a matrix with one vector into `output`. Q4_K and Q6_K are written by the
/// device, which takes the output and hands it back, and which marks resident weights as
/// used again for labels of Nemotron; integers are not taken; of any other format the
/// values are copied.
pub fn decode_gemv_into_if_supported<
    'a,
    W: FnOnce((InPlaceProduct, WeightMatrix<'a>, &'a [u32]), Vec<u32>) -> (
        Vec<u32>,
        Result<(), String>,
    ),
    D: FnOnce(Product<'a>) -> Result<Vec<u32>, String>,
>(
    matrix: WeightMatrix<'a>,
    input: &'a [u32],
    output: &mut Vec<u32>,
    label: &str,
    write: W,
    device: D,
) -> (written: Result<bool, String>)
    requires
        forall|product: InPlaceProduct, given: Vec<u32>|
            call_requires(write, ((product, matrix, input), given)),
        forall|format: QuantFormat| call_requires(device, ((format, matrix, input),)),
    ensures
        if matrix.ggml_type == GGMLType::I32 {
            written == Ok::<bool, String>(false) && final(output)@ == old(output)@
        } else if matrix.ggml_type == GGMLType::Q4_K || matrix.ggml_type == GGMLType::Q6_K {
            write_answers(matrix, input, label@, write, *old(output), *final(output), written)
        } else {
            exists|product: Option<Result<Vec<u32>, String>>| #[trigger]
                product_answers(
                    matrix,
                    input,
                    "CUDA decode"@,
                    decode_context(matrix.ggml_type),
                    device,
                    product,
                ) && copy_answers(
                    product,
                    matrix.ggml_type,
                    matrix.rows,
                    label@,
                    old(output)@,
                    final(output)@,
                    written,
                )
        },
{
    match matrix.ggml_type {
        GGMLType::I32 => Ok(false),
        GGMLType::Q4_K | GGMLType::Q6_K => {
            let product = InPlaceProduct {
                six_bit: matrix.ggml_type == GGMLType::Q6_K,
                touch_resident_hit: starts_with(label, "nemotron_"),
            };
            let mut given: Vec<u32> = Vec::new();
            std::mem::swap(&mut given, output);
            let (kept, reply) = write((product, matrix, input), given);
            *output = kept;
            match reply {
                Ok(()) => Ok(true),
                Err(cause) => {
                    let mut message = labelled_text(label, matrix.ggml_type, " GEMV failed: ");
                    message.append(cause.as_str());
                    Err(message)
                },
            }
        },
        _ => {
            let product = decode_gemv(matrix, input, device);
            match product {
                None => Err(labelled_text(label, matrix.ggml_type, " GEMV is unsupported")),
                Some(Err(cause)) => Err(cause),
                Some(Ok(values)) => {
                    if values.len() != matrix.rows || output.len() < matrix.rows {
                        let mut message = labelled_text(
                            label,
                            matrix.ggml_type,
                            " GEMV output mismatch: got ",
                        );
                        push_decimal(&mut message, values.len());
                        message.append(" expected ");
                        push_decimal(&mut message, matrix.rows);
                        return Err(message);
                    }
                    copy_over(output, &values);
                    Ok(true)
                },
            }
        },
    }
}

/// The same formats can be multiplied for a prompt, multiplied for a token and
/// gathered from.
pub proof fn law_formats_with_kernels(ggml_type: GGMLType)
    ensures
        quant_format(ggml_type) is Some <==> (ggml_type is F32 || ggml_type is F16
            || ggml_type is BF16 || ggml_type is Q4_0 || ggml_type is Q4_1 || ggml_type is Q5_0
            || ggml_type is Q5_1 || ggml_type is Q8_0 || ggml_type is Q8_1 || ggml_type is Q2_K
            || ggml_type is Q3_K || ggml_type is Q4_K || ggml_type is Q5_K || ggml_type is Q6_K
            || ggml_type is IQ2_XXS || ggml_type is IQ2_S || ggml_type is IQ3_XXS
            || ggml_type is IQ4_XS),
{
}

/// A matrix of plain floats holds four bytes for each of its elements, starts on a multiple
/// of four, and the message of one that does not says what there is, what there should be
/// and how far it is off.
pub proof fn law_plain_floats_lie_in_fours(matrix: WeightMatrix<'_>, subject: Seq<char>)
    ensures
        matrix.plain_bytes() == 4 * (matrix.rows * matrix.cols),
        matrix.plain_layout_fits() <==> matrix.raw@.len() == 4 * (matrix.rows * matrix.cols)
            && matrix.address % 4 == 0,
        begins_with(matrix.layout_message(subject), subject),
        says(
            matrix.layout_message(subject),
            " F32 weight layout mismatch: bytes="@,
            decimal(matrix.raw@.len()),
        ),
        says(
            matrix.layout_message(subject),
            " expected="@,
            decimal((4 * (matrix.rows * matrix.cols)) as nat),
        ),
        says(
            matrix.layout_message(subject),
            " alignment="@,
            decimal((matrix.address % 4) as nat),
        ),
{
    assert(matrix.rows * matrix.cols * 4 == 4 * (matrix.rows * matrix.cols)) by (nonlinear_arith);
    let bytes = " F32 weight layout mismatch: bytes="@;
    let got = decimal(matrix.raw@.len());
    let due = decimal((4 * (matrix.rows * matrix.cols)) as nat);
    let off = decimal((matrix.address % 4) as nat);
    let one = subject + bytes + got;
    let two = one + " expected="@ + due;
    lemma_says(subject, bytes, got);
    lemma_says_more(one, bytes, got, " expected="@);
    lemma_says_more(one + " expected="@, bytes, got, due);
    lemma_says_more(two, bytes, got, " alignment="@);
    lemma_says_more(two + " alignment="@, bytes, got, off);
    lemma_says(one, " expected="@, due);
    lemma_says_more(two, " expected="@, due, " alignment="@);
    lemma_says_more(two + " alignment="@, " expected="@, due, off);
    lemma_says(two, " alignment="@, off);
    assert(matrix.layout_message(subject).take(subject.len() as int) =~= subject);
}

/// A product is asked for with the kernel of the matrix's own format, the matrix and the
/// vectors that were given; a format without a kernel, or floats that cannot be counted,
/// are left alone, and floats that do not lie right are told.
pub proof fn law_products_are_asked_for_as_given<'a, T, D: FnOnce(Product<'a>) -> Result<T, String>>(
    matrix: WeightMatrix<'a>,
    input: &'a [u32],
    subject: Seq<char>,
    context: Seq<char>,
    device: D,
    output: Option<Result<T, String>>,
)
    requires
        product_answers(matrix, input, subject, context, device, output),
    ensures
        ({
            let format = quant_format(matrix.ggml_type);
            let uncounted = matrix.ggml_type is F32 && 4 * (matrix.rows * matrix.cols) > usize::MAX;
            let misplaced = matrix.ggml_type is F32 && !(matrix.raw@.len() == 4 * (matrix.rows
                * matrix.cols) && matrix.address % 4 == 0);
            &&& output is None <==> format is None || uncounted
            &&& output is Some && misplaced ==> (output->0 matches Err(message) && message@
                == matrix.layout_message(subject))
            &&& output is Some && !misplaced ==> answers(
                device,
                (format->0, matrix, input),
                context,
                output->0,
            )
        }),
{
    assert(matrix.rows * matrix.cols * 4 == 4 * (matrix.rows * matrix.cols)) by (nonlinear_arith);
}

/// Failures of a product name the format between what was done and that it failed; only a
/// prompt's plain floats go by a name of their own.
pub proof fn law_failed_products_name_their_format(
    t: GGMLType,
    label: Seq<char>,
    rest: Seq<char>,
)
    ensures
        t is F32 ==> prefill_context(t) == "CUDA prefill f32 GEMM failed: "@,
        !(t is F32) ==> begins_with(prefill_context(t), "CUDA prefill "@) && begins_with(
            prefill_context(t).skip("CUDA prefill "@.len() as int),
            t.spec_label(),
        ) && prefill_context(t).skip("CUDA prefill "@.len() as int).skip(t.spec_label().len() as int)
            == " GEMV failed: "@,
        begins_with(decode_context(t), "CUDA decode "@),
        decode_context(t).skip("CUDA decode "@.len() as int) == t.spec_label() + " GEMV failed: "@,
        labelled(label, t, rest) == "CUDA "@ + (label + (" "@ + (t.spec_label() + rest))),
{
    let p = "CUDA prefill "@;
    let d = "CUDA decode "@;
    let l = t.spec_label();
    let g = " GEMV failed: "@;
    assert((p + l + g).take(p.len() as int) =~= p);
    assert((p + l + g).skip(p.len() as int) =~= l + g);
    assert((l + g).take(l.len() as int) =~= l);
    assert((l + g).skip(l.len() as int) =~= g);
    assert((d + l + g).take(d.len() as int) =~= d);
    assert((d + l + g).skip(d.len() as int) =~= l + g);
    assert(labelled(label, t, rest) =~= "CUDA "@ + (label + (" "@ + (l + rest))));
}

/// Only a Q4_K matrix is offered in half precision, with the tuning's consent to its own
/// sizes and with the switch on.
pub proof fn law_only_q4k_runs_in_half_precision<
    'a,
    T,
    G: Fn(GemmQuery) -> bool,
    H: FnOnce((WeightMatrix<'a>, &'a [u32])) -> Result<Option<T>, String>,
>(
    matrix: WeightMatrix<'a>,
    input: &'a [u32],
    seq_len: usize,
    enabled: bool,
    gemm: G,
    half: H,
    first: Result<Option<T>, String>,
)
    requires
        half_precision_offered(matrix, input, seq_len, enabled, gemm, half, first),
    ensures
        first != Ok::<Option<T>, String>(None) ==> {
            &&& matrix.ggml_type is Q4_K
            &&& enabled
            &&& call_ensures(
                gemm,
                (GemmQuery {
                    quant_supported: true,
                    seq_len,
                    rows: matrix.rows,
                    cols: matrix.cols,
                },),
                true,
            )
            &&& call_ensures(half, ((matrix, input),), first)
        },
        matrix.ggml_type is Q4_K && enabled && first == Ok::<Option<T>, String>(None) ==> {
            ||| call_ensures(
                gemm,
                (GemmQuery {
                    quant_supported: true,
                    seq_len,
                    rows: matrix.rows,
                    cols: matrix.cols,
                },),
                false,
            )
            ||| call_ensures(half, ((matrix, input),), first)
        },
{
}

/// Values that are copied lie at the start of the output, and what is behind them stays.
pub proof fn law_copied_values_lie_at_the_start(output: Seq<u32>, values: Seq<u32>, i: int)
    requires
        values.len() <= output.len(),
        0 <= i < output.len(),
    ensures
        overwritten(output, values).len() == output.len(),
        i < values.len() ==> overwritten(output, values)[i] == values[i],
        i >= values.len() ==> overwritten(output, values)[i] == output[i],
{
}

/// A product is written into the output only with a value for every row and room for them;
/// else the output stays and the error says why, with both counts where they differ.
pub proof fn law_an_output_is_written_whole_or_not_at_all(
    product: Option<Result<Vec<u32>, String>>,
    t: GGMLType,
    rows: usize,
    label: Seq<char>,
    before: Seq<u32>,
    after: Seq<u32>,
    written: Result<bool, String>,
)
    requires
        copy_answers(product, t, rows, label, before, after, written),
    ensures
        written is Ok <==> (product matches Some(Ok(values)) && values@.len() == rows && rows
            <= before.len()),
        written matches Ok(done) ==> done && after.len() == before.len() && forall|i: int|
            0 <= i < before.len() ==> #[trigger] after[i] == if i < rows {
                product->0->Ok_0@[i]
            } else {
                before[i]
            },
        written is Err ==> after == before,
        product is None ==> written->Err_0@ == labelled(label, t, " GEMV is unsupported"@),
        product matches Some(Err(cause)) ==> written->Err_0 == cause,
        written is Err && product is Some && product->0 is Ok ==> {
            let message = written->Err_0@;
            &&& says(message, " GEMV output mismatch: got "@, decimal(product->0->Ok_0@.len()))
            &&& says(message, " expected "@, decimal(rows as nat))
        },
{
    if written is Err && product is Some && product->0 is Ok {
        let got = decimal(product->0->Ok_0@.len());
        let what = " GEMV output mismatch: got "@;
        let start = "CUDA "@ + label + " "@ + t.spec_label();
        let line = labelled(label, t, what) + got;
        lemma_says(start, what, got);
        lemma_says_more(line, what, got, " expected "@);
        lemma_says_more(line + " expected "@, what, got, decimal(rows as nat));
        lemma_says(line, " expected "@, decimal(rows as nat));
    }
}

/// A product that the device writes is asked for with what the output held, as six-bit where
/// it is Q6_K, marking resident weights for labels of Nemotron; the output then holds what
/// the device left.
pub proof fn law_written_products_are_asked_for_as_given<
    'a,
    W: FnOnce((InPlaceProduct, WeightMatrix<'a>, &'a [u32]), Vec<u32>) -> (
        Vec<u32>,
        Result<(), String>,
    ),
>(
    matrix: WeightMatrix<'a>,
    input: &'a [u32],
    label: Seq<char>,
    write: W,
    before: Vec<u32>,
    after: Vec<u32>,
    written: Result<bool, String>,
)
    requires
        write_answers(matrix, input, label, write, before, after, written),
    ensures
        exists|product: InPlaceProduct, given: Vec<u32>, reply: Result<(), String>|
            {
                &&& #[trigger] call_ensures(write, ((product, matrix, input), given), (after, reply))
                &&& product.six_bit == (matrix.ggml_type is Q6_K)
                &&& product.touch_resident_hit == begins_with(label, "nemotron_"@)
                &&& given@ == before@
                &&& written is Ok <==> reply is Ok
                &&& written matches Ok(done) ==> done
                &&& reply matches Err(cause) ==> written->Err_0@ == labelled(
                    label,
                    matrix.ggml_type,
                    " GEMV failed: "@,
                ) + cause@
            },
{
    let direct = InPlaceProduct {
        six_bit: matrix.ggml_type == GGMLType::Q6_K,
        touch_resident_hit: begins_with(label, "nemotron_"@),
    };
    let (given, reply) = choose|given: Vec<u32>, reply: (Vec<u32>, Result<(), String>)|
        {
            &&& given@ == before@
            &&& #[trigger] call_ensures(write, ((direct, matrix, input), given), reply)
            &&& after == reply.0
            &&& match reply.1 {
                Ok(()) => written == Ok::<bool, String>(true),
                Err(cause) => written matches Err(message) && message@ == labelled(
                    label,
                    matrix.ggml_type,
                    " GEMV failed: "@,
                ) + cause@,
            }
        };
    assert(reply == (after, reply.1));
    assert(call_ensures(write, ((direct, matrix, input), given), (after, reply.1)));
}

} // verus!
