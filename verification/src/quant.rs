//! Weight formats.

use vstd::prelude::*;

verus! {

/// The storage format of a model tensor.
#[allow(non_camel_case_types)]
#[derive(Debug, Clone, Copy, PartialEq, Eq, Structural)]
pub enum GGMLType {
    F32,
    F16,
    BF16,
    F64,
    I8,
    I16,
    I32,
    I64,
    Q1_0,
    Q2_0,
    Q4_0,
    Q4_1,
    Q5_0,
    Q5_1,
    Q8_0,
    Q8_1,
    Q2_K,
    Q3_K,
    Q4_K,
    Q5_K,
    Q6_K,
    Q8_K,
    IQ1_S,
    IQ1_M,
    IQ2_XXS,
    IQ2_XS,
    IQ2_S,
    IQ3_XXS,
    IQ3_S,
    IQ4_NL,
    IQ4_XS,
    TQ1_0,
    TQ2_0,
    MXFP4,
    NVFP4,
}

impl GGMLType {
    pub open spec fn spec_label(self) -> Seq<char> {
        match self {
            GGMLType::F32 => "F32"@,
            GGMLType::F16 => "F16"@,
            GGMLType::BF16 => "BF16"@,
            GGMLType::F64 => "F64"@,
            GGMLType::I8 => "I8"@,
            GGMLType::I16 => "I16"@,
            GGMLType::I32 => "I32"@,
            GGMLType::I64 => "I64"@,
            GGMLType::Q1_0 => "Q1_0"@,
            GGMLType::Q2_0 => "Q2_0"@,
            GGMLType::Q4_0 => "Q4_0"@,
            GGMLType::Q4_1 => "Q4_1"@,
            GGMLType::Q5_0 => "Q5_0"@,
            GGMLType::Q5_1 => "Q5_1"@,
            GGMLType::Q8_0 => "Q8_0"@,
            GGMLType::Q8_1 => "Q8_1"@,
            GGMLType::Q2_K => "Q2_K"@,
            GGMLType::Q3_K => "Q3_K"@,
            GGMLType::Q4_K => "Q4_K"@,
            GGMLType::Q5_K => "Q5_K"@,
            GGMLType::Q6_K => "Q6_K"@,
            GGMLType::Q8_K => "Q8_K"@,
            GGMLType::IQ1_S => "IQ1_S"@,
            GGMLType::IQ1_M => "IQ1_M"@,
            GGMLType::IQ2_XXS => "IQ2_XXS"@,
            GGMLType::IQ2_XS => "IQ2_XS"@,
            GGMLType::IQ2_S => "IQ2_S"@,
            GGMLType::IQ3_XXS => "IQ3_XXS"@,
            GGMLType::IQ3_S => "IQ3_S"@,
            GGMLType::IQ4_NL => "IQ4_NL"@,
            GGMLType::IQ4_XS => "IQ4_XS"@,
            GGMLType::TQ1_0 => "TQ1_0"@,
            GGMLType::TQ2_0 => "TQ2_0"@,
            GGMLType::MXFP4 => "MXFP4"@,
            GGMLType::NVFP4 => "NVFP4"@,
        }
    }

    /// The name by which messages refer to the format.
    pub fn label(self) -> (label: &'static str)
        ensures
            label@ == self.spec_label(),
    {
        match self {
            GGMLType::F32 => "F32",
            GGMLType::F16 => "F16",
            GGMLType::BF16 => "BF16",
            GGMLType::F64 => "F64",
            GGMLType::I8 => "I8",
            GGMLType::I16 => "I16",
            GGMLType::I32 => "I32",
            GGMLType::I64 => "I64",
            GGMLType::Q1_0 => "Q1_0",
            GGMLType::Q2_0 => "Q2_0",
            GGMLType::Q4_0 => "Q4_0",
            GGMLType::Q4_1 => "Q4_1",
            GGMLType::Q5_0 => "Q5_0",
            GGMLType::Q5_1 => "Q5_1",
            GGMLType::Q8_0 => "Q8_0",
            GGMLType::Q8_1 => "Q8_1",
            GGMLType::Q2_K => "Q2_K",
            GGMLType::Q3_K => "Q3_K",
            GGMLType::Q4_K => "Q4_K",
            GGMLType::Q5_K => "Q5_K",
            GGMLType::Q6_K => "Q6_K",
            GGMLType::Q8_K => "Q8_K",
            GGMLType::IQ1_S => "IQ1_S",
            GGMLType::IQ1_M => "IQ1_M",
            GGMLType::IQ2_XXS => "IQ2_XXS",
            GGMLType::IQ2_XS => "IQ2_XS",
            GGMLType::IQ2_S => "IQ2_S",
            GGMLType::IQ3_XXS => "IQ3_XXS",
            GGMLType::IQ3_S => "IQ3_S",
            GGMLType::IQ4_NL => "IQ4_NL",
            GGMLType::IQ4_XS => "IQ4_XS",
            GGMLType::TQ1_0 => "TQ1_0",
            GGMLType::TQ2_0 => "TQ2_0",
            GGMLType::MXFP4 => "MXFP4",
            GGMLType::NVFP4 => "NVFP4",
        }
    }
}

/// The formats that the tensor-ops kernels read.
#[derive(Debug, Clone, Copy, PartialEq, Eq, Structural)]
pub enum TensoropsQuant {
    Q4K,
    Q5K,
    Q6K,
}

/// The formats that the expert kernels read.
#[derive(Debug, Clone, Copy, PartialEq, Eq, Structural)]
pub enum QwenMoeLlamaIdQuant {
    Q4K,
    Q5K,
    Q6K,
    Q8Zero,
}

/// The formats of an expert's three weights.
#[derive(Debug, Clone, Copy, PartialEq, Eq, Structural)]
pub struct QwenMoeLlamaIdQuantSet {
    pub gate: QwenMoeLlamaIdQuant,
    pub up: QwenMoeLlamaIdQuant,
    pub down: QwenMoeLlamaIdQuant,
}

pub open spec fn tensorops_quant(ggml: GGMLType) -> Option<TensoropsQuant> {
    match ggml {
        GGMLType::Q4_K => Some(TensoropsQuant::Q4K),
        GGMLType::Q5_K => Some(TensoropsQuant::Q5K),
        GGMLType::Q6_K => Some(TensoropsQuant::Q6K),
        _ => None,
    }
}

/// The tensor-ops format of a weight, where there is a kernel for it.
pub fn tensorops_quant_from_ggml(ggml: GGMLType) -> (quant: Option<TensoropsQuant>)
    ensures
        quant == tensorops_quant(ggml),
{
    match ggml {
        GGMLType::Q4_K => Some(TensoropsQuant::Q4K),
        GGMLType::Q5_K => Some(TensoropsQuant::Q5K),
        GGMLType::Q6_K => Some(TensoropsQuant::Q6K),
        _ => None,
    }
}

/// Bytes of one block of 256 elements.
pub open spec fn tensorops_block_bytes(quant: TensoropsQuant) -> int {
    match quant {
        TensoropsQuant::Q4K => 144,
        TensoropsQuant::Q5K => 176,
        TensoropsQuant::Q6K => 210,
    }
}

/// Whether a weight is Q4_K (`false`) or Q6_K (`true`); no other format will do.
pub open spec fn q4k_or_q6k(ggml: GGMLType) -> Option<bool> {
    match ggml {
        GGMLType::Q4_K => Some(false),
        GGMLType::Q6_K => Some(true),
        _ => None,
    }
}

pub fn is_q6k_of_q4k_or_q6k(ggml: GGMLType) -> (is_q6k: Option<bool>)
    ensures
        is_q6k == q4k_or_q6k(ggml),
{
    match ggml {
        GGMLType::Q4_K => Some(false),
        GGMLType::Q6_K => Some(true),
        _ => None,
    }
}

/// The formats that CUDA multiplies with and gathers from.
#[derive(Debug, Clone, Copy, PartialEq, Eq, Structural)]
pub enum QuantFormat {
    F32,
    F16,
    BF16,
    Q40,
    Q41,
    Q50,
    Q51,
    Q80,
    Q81,
    Q2K,
    Q3K,
    Q4K,
    Q5K,
    Q6K,
    IQ2XXS,
    IQ2S,
    IQ3XXS,
    IQ4XS,
}

/// The format as CUDA knows it, if it has kernels for it.
pub open spec fn quant_format(ggml_type: GGMLType) -> Option<QuantFormat> {
    match ggml_type {
        GGMLType::F32 => Some(QuantFormat::F32),
        GGMLType::F16 => Some(QuantFormat::F16),
        GGMLType::BF16 => Some(QuantFormat::BF16),
        GGMLType::Q4_0 => Some(QuantFormat::Q40),
        GGMLType::Q4_1 => Some(QuantFormat::Q41),
        GGMLType::Q5_0 => Some(QuantFormat::Q50),
        GGMLType::Q5_1 => Some(QuantFormat::Q51),
        GGMLType::Q8_0 => Some(QuantFormat::Q80),
        GGMLType::Q8_1 => Some(QuantFormat::Q81),
        GGMLType::Q2_K => Some(QuantFormat::Q2K),
        GGMLType::Q3_K => Some(QuantFormat::Q3K),
        GGMLType::Q4_K => Some(QuantFormat::Q4K),
        GGMLType::Q5_K => Some(QuantFormat::Q5K),
        GGMLType::Q6_K => Some(QuantFormat::Q6K),
        GGMLType::IQ2_XXS => Some(QuantFormat::IQ2XXS),
        GGMLType::IQ2_S => Some(QuantFormat::IQ2S),
        GGMLType::IQ3_XXS => Some(QuantFormat::IQ3XXS),
        GGMLType::IQ4_XS => Some(QuantFormat::IQ4XS),
        _ => None,
    }
}

/// The format as CUDA knows it, if it has kernels for it.
pub fn quant_format_of(ggml_type: GGMLType) -> (format: Option<QuantFormat>)
    ensures
        format == quant_format(ggml_type),
{
    match ggml_type {
        GGMLType::F32 => Some(QuantFormat::F32),
        GGMLType::F16 => Some(QuantFormat::F16),
        GGMLType::BF16 => Some(QuantFormat::BF16),
        GGMLType::Q4_0 => Some(QuantFormat::Q40),
        GGMLType::Q4_1 => Some(QuantFormat::Q41),
        GGMLType::Q5_0 => Some(QuantFormat::Q50),
        GGMLType::Q5_1 => Some(QuantFormat::Q51),
        GGMLType::Q8_0 => Some(QuantFormat::Q80),
        GGMLType::Q8_1 => Some(QuantFormat::Q81),
        GGMLType::Q2_K => Some(QuantFormat::Q2K),
        GGMLType::Q3_K => Some(QuantFormat::Q3K),
        GGMLType::Q4_K => Some(QuantFormat::Q4K),
        GGMLType::Q5_K => Some(QuantFormat::Q5K),
        GGMLType::Q6_K => Some(QuantFormat::Q6K),
        GGMLType::IQ2_XXS => Some(QuantFormat::IQ2XXS),
        GGMLType::IQ2_S => Some(QuantFormat::IQ2S),
        GGMLType::IQ3_XXS => Some(QuantFormat::IQ3XXS),
        GGMLType::IQ4_XS => Some(QuantFormat::IQ4XS),
        _ => None,
    }
}

/// The formats that can be expanded to single precision.
#[allow(non_camel_case_types)]
#[derive(Debug, Clone, Copy, PartialEq, Eq, Structural)]
pub enum DequantType {
    F32,
    F16,
    BF16,
    Q4_0,
    Q4_1,
    Q5_0,
    Q5_1,
    Q8_0,
    Q8_1,
    Q2K,
    Q3K,
    Q4K,
    Q5K,
    Q6K,
    Q8K,
    IQ2XXS,
    IQ2XS,
    IQ1S,
    IQ4NL,
    IQ3S,
    IQ3XXS,
    IQ2S,
    IQ4XS,
    IQ1M,
    TQ1_0,
    TQ2_0,
    MXFP4,
    NVFP4,
    Q1_0,
    Q2_0,
}

/// Whether a tensor of this format holds weights: plain integers and doubles do not.
pub open spec fn holds_weights(ggml_type: GGMLType) -> bool {
    !(ggml_type is I8 || ggml_type is I16 || ggml_type is I32 || ggml_type is I64
        || ggml_type is F64)
}

/// How weights of this format are expanded.
pub open spec fn expansion(ggml_type: GGMLType) -> DequantType {
    match ggml_type {
        GGMLType::F32 => DequantType::F32,
        GGMLType::F16 => DequantType::F16,
        GGMLType::BF16 => DequantType::BF16,
        GGMLType::Q4_0 => DequantType::Q4_0,
        GGMLType::Q4_1 => DequantType::Q4_1,
        GGMLType::Q5_0 => DequantType::Q5_0,
        GGMLType::Q5_1 => DequantType::Q5_1,
        GGMLType::Q8_0 => DequantType::Q8_0,
        GGMLType::Q8_1 => DequantType::Q8_1,
        GGMLType::Q2_K => DequantType::Q2K,
        GGMLType::Q3_K => DequantType::Q3K,
        GGMLType::Q4_K => DequantType::Q4K,
        GGMLType::Q5_K => DequantType::Q5K,
        GGMLType::Q6_K => DequantType::Q6K,
        GGMLType::Q8_K => DequantType::Q8K,
        GGMLType::IQ2_XXS => DequantType::IQ2XXS,
        GGMLType::IQ2_XS => DequantType::IQ2XS,
        GGMLType::IQ1_S => DequantType::IQ1S,
        GGMLType::IQ4_NL => DequantType::IQ4NL,
        GGMLType::IQ3_S => DequantType::IQ3S,
        GGMLType::IQ3_XXS => DequantType::IQ3XXS,
        GGMLType::IQ2_S => DequantType::IQ2S,
        GGMLType::IQ4_XS => DequantType::IQ4XS,
        GGMLType::IQ1_M => DequantType::IQ1M,
        GGMLType::TQ1_0 => DequantType::TQ1_0,
        GGMLType::TQ2_0 => DequantType::TQ2_0,
        GGMLType::MXFP4 => DequantType::MXFP4,
        GGMLType::NVFP4 => DequantType::NVFP4,
        GGMLType::Q1_0 => DequantType::Q1_0,
        GGMLType::Q2_0 => DequantType::Q2_0,
        _ => arbitrary(),
    }
}

/// How weights of this format are expanded.
pub fn dequant_type(ggml_type: GGMLType) -> (dequant: DequantType)
    requires
        holds_weights(ggml_type),
    ensures
        dequant == expansion(ggml_type),
{
    match ggml_type {
        GGMLType::F32 => DequantType::F32,
        GGMLType::F16 => DequantType::F16,
        GGMLType::BF16 => DequantType::BF16,
        GGMLType::Q4_0 => DequantType::Q4_0,
        GGMLType::Q4_1 => DequantType::Q4_1,
        GGMLType::Q5_0 => DequantType::Q5_0,
        GGMLType::Q5_1 => DequantType::Q5_1,
        GGMLType::Q8_0 => DequantType::Q8_0,
        GGMLType::Q8_1 => DequantType::Q8_1,
        GGMLType::Q2_K => DequantType::Q2K,
        GGMLType::Q3_K => DequantType::Q3K,
        GGMLType::Q4_K => DequantType::Q4K,
        GGMLType::Q5_K => DequantType::Q5K,
        GGMLType::Q6_K => DequantType::Q6K,
        GGMLType::Q8_K => DequantType::Q8K,
        GGMLType::IQ2_XXS => DequantType::IQ2XXS,
        GGMLType::IQ2_XS => DequantType::IQ2XS,
        GGMLType::IQ1_S => DequantType::IQ1S,
        GGMLType::IQ4_NL => DequantType::IQ4NL,
        GGMLType::IQ3_S => DequantType::IQ3S,
        GGMLType::IQ3_XXS => DequantType::IQ3XXS,
        GGMLType::IQ2_S => DequantType::IQ2S,
        GGMLType::IQ4_XS => DequantType::IQ4XS,
        GGMLType::IQ1_M => DequantType::IQ1M,
        GGMLType::TQ1_0 => DequantType::TQ1_0,
        GGMLType::TQ2_0 => DequantType::TQ2_0,
        GGMLType::MXFP4 => DequantType::MXFP4,
        GGMLType::NVFP4 => DequantType::NVFP4,
        GGMLType::Q1_0 => DequantType::Q1_0,
        _ => DequantType::Q2_0,
    }
}

/// Each format of weights is expanded in its own way.
pub proof fn law_expansions_are_distinct(a: GGMLType, b: GGMLType)
    requires
        holds_weights(a),
        holds_weights(b),
    ensures
        expansion(a) == expansion(b) <==> a == b,
{
}

/// CUDA knows formats apart, and knows only formats of weights.
pub proof fn law_quant_formats_are_distinct(a: GGMLType, b: GGMLType)
    requires
        quant_format(a) is Some,
        quant_format(b) is Some,
    ensures
        quant_format(a) == quant_format(b) <==> a == b,
        holds_weights(a),
{
}

/// A format of CUDA is asked for exactly on weights of the format of that name.
pub proof fn law_cuda_reads_each_format_as_itself(t: GGMLType)
    ensures
        quant_format(t) == Some(QuantFormat::F32) <==> t == GGMLType::F32,
        quant_format(t) == Some(QuantFormat::F16) <==> t == GGMLType::F16,
        quant_format(t) == Some(QuantFormat::BF16) <==> t == GGMLType::BF16,
        quant_format(t) == Some(QuantFormat::Q40) <==> t == GGMLType::Q4_0,
        quant_format(t) == Some(QuantFormat::Q41) <==> t == GGMLType::Q4_1,
        quant_format(t) == Some(QuantFormat::Q50) <==> t == GGMLType::Q5_0,
        quant_format(t) == Some(QuantFormat::Q51) <==> t == GGMLType::Q5_1,
        quant_format(t) == Some(QuantFormat::Q80) <==> t == GGMLType::Q8_0,
        quant_format(t) == Some(QuantFormat::Q81) <==> t == GGMLType::Q8_1,
        quant_format(t) == Some(QuantFormat::Q2K) <==> t == GGMLType::Q2_K,
        quant_format(t) == Some(QuantFormat::Q3K) <==> t == GGMLType::Q3_K,
        quant_format(t) == Some(QuantFormat::Q4K) <==> t == GGMLType::Q4_K,
        quant_format(t) == Some(QuantFormat::Q5K) <==> t == GGMLType::Q5_K,
        quant_format(t) == Some(QuantFormat::Q6K) <==> t == GGMLType::Q6_K,
        quant_format(t) == Some(QuantFormat::IQ2XXS) <==> t == GGMLType::IQ2_XXS,
        quant_format(t) == Some(QuantFormat::IQ2S) <==> t == GGMLType::IQ2_S,
        quant_format(t) == Some(QuantFormat::IQ3XXS) <==> t == GGMLType::IQ3_XXS,
        quant_format(t) == Some(QuantFormat::IQ4XS) <==> t == GGMLType::IQ4_XS,
{
}

/// Weights are expanded as the format of that name, and as no other.
pub proof fn law_weights_are_expanded_as_themselves(t: GGMLType)
    requires
        holds_weights(t),
    ensures
        expansion(t) == DequantType::F32 <==> t == GGMLType::F32,
        expansion(t) == DequantType::F16 <==> t == GGMLType::F16,
        expansion(t) == DequantType::BF16 <==> t == GGMLType::BF16,
        expansion(t) == DequantType::Q4_0 <==> t == GGMLType::Q4_0,
        expansion(t) == DequantType::Q4_1 <==> t == GGMLType::Q4_1,
        expansion(t) == DequantType::Q5_0 <==> t == GGMLType::Q5_0,
        expansion(t) == DequantType::Q5_1 <==> t == GGMLType::Q5_1,
        expansion(t) == DequantType::Q8_0 <==> t == GGMLType::Q8_0,
        expansion(t) == DequantType::Q8_1 <==> t == GGMLType::Q8_1,
        expansion(t) == DequantType::Q2K <==> t == GGMLType::Q2_K,
        expansion(t) == DequantType::Q3K <==> t == GGMLType::Q3_K,
        expansion(t) == DequantType::Q4K <==> t == GGMLType::Q4_K,
        expansion(t) == DequantType::Q5K <==> t == GGMLType::Q5_K,
        expansion(t) == DequantType::Q6K <==> t == GGMLType::Q6_K,
        expansion(t) == DequantType::Q8K <==> t == GGMLType::Q8_K,
        expansion(t) == DequantType::IQ2XXS <==> t == GGMLType::IQ2_XXS,
        expansion(t) == DequantType::IQ2XS <==> t == GGMLType::IQ2_XS,
        expansion(t) == DequantType::IQ1S <==> t == GGMLType::IQ1_S,
        expansion(t) == DequantType::IQ4NL <==> t == GGMLType::IQ4_NL,
        expansion(t) == DequantType::IQ3S <==> t == GGMLType::IQ3_S,
        expansion(t) == DequantType::IQ3XXS <==> t == GGMLType::IQ3_XXS,
        expansion(t) == DequantType::IQ2S <==> t == GGMLType::IQ2_S,
        expansion(t) == DequantType::IQ4XS <==> t == GGMLType::IQ4_XS,
        expansion(t) == DequantType::IQ1M <==> t == GGMLType::IQ1_M,
        expansion(t) == DequantType::TQ1_0 <==> t == GGMLType::TQ1_0,
        expansion(t) == DequantType::TQ2_0 <==> t == GGMLType::TQ2_0,
        expansion(t) == DequantType::MXFP4 <==> t == GGMLType::MXFP4,
        expansion(t) == DequantType::NVFP4 <==> t == GGMLType::NVFP4,
        expansion(t) == DequantType::Q1_0 <==> t == GGMLType::Q1_0,
        expansion(t) == DequantType::Q2_0 <==> t == GGMLType::Q2_0,
{
}

/// Plain integers and doubles are no weights; everything else is.
pub proof fn law_integers_and_doubles_are_no_weights(t: GGMLType)
    ensures
        !holds_weights(t) <==> t == GGMLType::I8 || t == GGMLType::I16 || t == GGMLType::I32 || t
            == GGMLType::I64 || t == GGMLType::F64,
{
}

/// The tensor-ops kernels read weights of the formats of their names. A block holds 256
/// elements: a half-precision scale and minimum and twelve bytes of small scales before
/// four bits for each element in Q4_K, and one more bit each in Q5_K; a half-precision
/// scale and sixteen small ones beside six bits each in Q6_K.
pub proof fn law_tensor_ops_read_each_format_as_itself(t: GGMLType)
    ensures
        tensorops_quant(t) == Some(TensoropsQuant::Q4K) <==> t == GGMLType::Q4_K,
        tensorops_quant(t) == Some(TensoropsQuant::Q5K) <==> t == GGMLType::Q5_K,
        tensorops_quant(t) == Some(TensoropsQuant::Q6K) <==> t == GGMLType::Q6_K,
        tensorops_block_bytes(TensoropsQuant::Q4K) == 2 + 2 + 12 + 256 * 4 / 8,
        tensorops_block_bytes(TensoropsQuant::Q5K) == 2 + 2 + 12 + 256 * 5 / 8,
        tensorops_block_bytes(TensoropsQuant::Q6K) == 2 + 16 + 256 * 6 / 8,
        q4k_or_q6k(t) == Some(true) <==> t == GGMLType::Q6_K,
        q4k_or_q6k(t) == Some(false) <==> t == GGMLType::Q4_K,
        tensorops_quant(t) is Some ==> quant_format(t) is Some && holds_weights(t),
{
}

/// Messages refer to a format by its name.
pub proof fn law_labels_are_the_names_of_the_formats()
    ensures
        GGMLType::F32.spec_label() == "F32"@,
        GGMLType::F16.spec_label() == "F16"@,
        GGMLType::BF16.spec_label() == "BF16"@,
        GGMLType::F64.spec_label() == "F64"@,
        GGMLType::I8.spec_label() == "I8"@,
        GGMLType::I16.spec_label() == "I16"@,
        GGMLType::I32.spec_label() == "I32"@,
        GGMLType::I64.spec_label() == "I64"@,
        GGMLType::Q1_0.spec_label() == "Q1_0"@,
        GGMLType::Q2_0.spec_label() == "Q2_0"@,
        GGMLType::Q4_0.spec_label() == "Q4_0"@,
        GGMLType::Q4_1.spec_label() == "Q4_1"@,
        GGMLType::Q5_0.spec_label() == "Q5_0"@,
        GGMLType::Q5_1.spec_label() == "Q5_1"@,
        GGMLType::Q8_0.spec_label() == "Q8_0"@,
        GGMLType::Q8_1.spec_label() == "Q8_1"@,
        GGMLType::Q2_K.spec_label() == "Q2_K"@,
        GGMLType::Q3_K.spec_label() == "Q3_K"@,
        GGMLType::Q4_K.spec_label() == "Q4_K"@,
        GGMLType::Q5_K.spec_label() == "Q5_K"@,
        GGMLType::Q6_K.spec_label() == "Q6_K"@,
        GGMLType::Q8_K.spec_label() == "Q8_K"@,
        GGMLType::IQ1_S.spec_label() == "IQ1_S"@,
        GGMLType::IQ1_M.spec_label() == "IQ1_M"@,
        GGMLType::IQ2_XXS.spec_label() == "IQ2_XXS"@,
        GGMLType::IQ2_XS.spec_label() == "IQ2_XS"@,
        GGMLType::IQ2_S.spec_label() == "IQ2_S"@,
        GGMLType::IQ3_XXS.spec_label() == "IQ3_XXS"@,
        GGMLType::IQ3_S.spec_label() == "IQ3_S"@,
        GGMLType::IQ4_NL.spec_label() == "IQ4_NL"@,
        GGMLType::IQ4_XS.spec_label() == "IQ4_XS"@,
        GGMLType::TQ1_0.spec_label() == "TQ1_0"@,
        GGMLType::TQ2_0.spec_label() == "TQ2_0"@,
        GGMLType::MXFP4.spec_label() == "MXFP4"@,
        GGMLType::NVFP4.spec_label() == "NVFP4"@,
{
}

} // verus!
