use vstd::prelude::*;
use burn::backend::ndarray::NdArrayDevice;
use burn::backend::{Autodiff, NdArray};
use burn::nn::conv::{Conv2d, Conv2dConfig};
use burn::nn::pool::{AdaptiveAvgPool2d, AdaptiveAvgPool2dConfig};
use burn::nn::{Dropout, DropoutConfig, Linear, LinearConfig, Relu};
use burn::tensor::Tensor;

verus! {

/// The device on which the model's parameters are allocated.
pub type Device = NdArrayDevice;

/// The backend on which the model computes: CPU arrays with gradient tracking,
/// so that dropout is live whenever a forward pass asks for it.
pub type ModelBackend = Autodiff<NdArray>;

#[verifier::external_type_specification]
#[verifier::external_body]
pub struct ExNdArrayDevice(NdArrayDevice);

#[verifier::external_type_specification]
#[verifier::external_body]
pub struct ExDropout(Dropout);

#[verifier::external_type_specification]
#[verifier::external_body]
pub struct ExRelu(Relu);

#[verifier::external_type_specification]
pub struct ExAdaptiveAvgPool2d(AdaptiveAvgPool2d);

/// A batch of single-channel images, `[batch, height, width]`.
#[verifier::external_body]
pub struct ImageBatch {
    pub tensor: Tensor<ModelBackend, 3>,
}

/// A batch of multi-channel feature maps, `[batch, channels, height, width]`.
#[verifier::external_body]
pub struct FeatureMaps {
    pub tensor: Tensor<ModelBackend, 4>,
}

/// A batch of flat vectors, `[batch, width]`.
#[verifier::external_body]
pub struct FlatBatch {
    pub tensor: Tensor<ModelBackend, 2>,
}

/// A two-dimensional convolution with its learnable filters. Its field is
/// private, so every value comes from `new_conv`, with burn's defaults.
#[verifier::external_body]
pub struct ConvLayer {
    inner: Conv2d<ModelBackend>,
}

/// A fully-connected layer with its learnable weights and bias. Its field is
/// private, so every value comes from `new_linear`.
#[verifier::external_body]
pub struct LinearLayer {
    inner: Linear<ModelBackend>,
}

/// The extent of each axis of an image batch.
pub uninterp spec fn image_dims(x: ImageBatch) -> Seq<usize>;

/// The extent of each axis of a batch of feature maps.
pub uninterp spec fn map_dims(x: FeatureMaps) -> Seq<usize>;

/// The extent of each axis of a batch of flat vectors.
pub uninterp spec fn flat_dims(x: FlatBatch) -> Seq<usize>;

/// What a convolution was made with: (input channels, output channels, kernel side).
pub uninterp spec fn conv_geometry(c: ConvLayer) -> (usize, usize, usize);

/// What a fully-connected layer was made with: (input width, output width).
pub uninterp spec fn linear_widths(l: LinearLayer) -> (usize, usize);

/// The bit pattern of the probability a dropout layer was made with.
pub uninterp spec fn dropout_prob_bits(d: Dropout) -> u64;

/// The binary64 pattern `bits` stands for a value in `[0, 1)`: a non-negative
/// number whose biased exponent is below that of `1.0`, or negative zero.
pub open spec fn is_unit_probability(bits: u64) -> bool {
    let sign = bits as int / 0x8000_0000_0000_0000;
    let exponent = (bits as int / 0x10_0000_0000_0000) % 0x800;
    let fraction = bits as int % 0x10_0000_0000_0000;
    (sign == 0 && exponent < 0x3ff) || (sign == 1 && exponent == 0 && fraction == 0)
}

/// Relies on `Tensor::dims`: the extent of each of the three axes.
#[verifier::external_body]
pub(crate) fn image_batch_dims(x: &ImageBatch) -> (r: [usize; 3])
    ensures
        r@ == image_dims(*x),
{
    x.tensor.dims()
}

/// Relies on `Tensor::reshape`, which keeps the elements and panics unless the
/// element counts agree.
#[verifier::external_body]
pub(crate) fn images_to_maps(x: ImageBatch, dims: [usize; 4]) -> (r: FeatureMaps)
    requires
        image_dims(x).len() == 3,
        image_dims(x)[0] * image_dims(x)[1] * image_dims(x)[2] == dims[0] * dims[1] * dims[2]
            * dims[3],
    ensures
        map_dims(r) == dims@,
{
    FeatureMaps { tensor: x.tensor.reshape(dims) }
}

/// Relies on `Tensor::reshape`, which keeps the elements and panics unless the
/// element counts agree.
#[verifier::external_body]
pub(crate) fn maps_to_flat(x: FeatureMaps, dims: [usize; 2]) -> (r: FlatBatch)
    requires
        map_dims(x).len() == 4,
        map_dims(x)[0] * map_dims(x)[1] * map_dims(x)[2] * map_dims(x)[3] == dims[0] * dims[1],
    ensures
        flat_dims(r) == dims@,
{
    FlatBatch { tensor: x.tensor.reshape(dims) }
}

/// Relies on `Conv2dConfig::init`: a square kernel with burn's defaults (unit
/// stride and dilation, one group, no padding, bias), filters drawn at random.
#[verifier::external_body]
pub(crate) fn new_conv(channels_in: usize, channels_out: usize, kernel: usize, device: &Device) -> (r: ConvLayer)
    requires
        channels_in >= 1,
        channels_out >= 1,
        kernel >= 1,
    ensures
        conv_geometry(r) == (channels_in, channels_out, kernel),
{
    ConvLayer { inner: Conv2dConfig::new([channels_in, channels_out], [kernel, kernel]).init(device) }
}

/// Relies on `Conv2d::forward`: without padding and with unit stride, each
/// spatial side shrinks by the kernel side less one.
#[verifier::external_body]
pub(crate) fn conv_forward(c: &ConvLayer, x: FeatureMaps) -> (r: FeatureMaps)
    requires
        map_dims(x).len() == 4,
        map_dims(x)[1] == conv_geometry(*c).0,
        map_dims(x)[2] >= conv_geometry(*c).2,
        map_dims(x)[3] >= conv_geometry(*c).2,
    ensures
        map_dims(r) == seq![
            map_dims(x)[0],
            conv_geometry(*c).1,
            (map_dims(x)[2] - conv_geometry(*c).2 + 1) as usize,
            (map_dims(x)[3] - conv_geometry(*c).2 + 1) as usize,
        ],
{
    FeatureMaps { tensor: c.inner.forward(x.tensor) }
}

/// Relies on `LinearConfig::init`: weights and bias drawn at random.
#[verifier::external_body]
pub(crate) fn new_linear(width_in: usize, width_out: usize, device: &Device) -> (r: LinearLayer)
    requires
        width_in >= 1,
        width_out >= 1,
    ensures
        linear_widths(r) == (width_in, width_out),
{
    LinearLayer { inner: LinearConfig::new(width_in, width_out).init(device) }
}

/// Relies on `Linear::forward`: each row of the input width becomes a row of
/// the output width. The CPU matrix product divides by the row count and the
/// two widths, so none of them may be zero.
#[verifier::external_body]
pub(crate) fn linear_forward(l: &LinearLayer, x: FlatBatch) -> (r: FlatBatch)
    requires
        flat_dims(x).len() == 2,
        flat_dims(x)[0] >= 1,
        flat_dims(x)[1] == linear_widths(*l).0,
        linear_widths(*l).0 >= 1,
        linear_widths(*l).1 >= 1,
    ensures
        flat_dims(r) == seq![flat_dims(x)[0], linear_widths(*l).1],
{
    FlatBatch { tensor: l.inner.forward(x.tensor) }
}

/// Relies on `AdaptiveAvgPool2dConfig::init`, which keeps the target size.
#[verifier::external_body]
pub(crate) fn new_pool(size: [usize; 2]) -> (r: AdaptiveAvgPool2d)
    ensures
        r.output_size == size,
{
    AdaptiveAvgPool2dConfig::new(size).init()
}

/// Relies on `AdaptiveAvgPool2d::forward`: batch and channels are kept, the
/// spatial sides become the target size.
#[verifier::external_body]
pub(crate) fn pool_forward(p: &AdaptiveAvgPool2d, x: FeatureMaps) -> (r: FeatureMaps)
    requires
        map_dims(x).len() == 4,
        map_dims(x)[2] >= 1,
        map_dims(x)[3] >= 1,
    ensures
        map_dims(r) == seq![map_dims(x)[0], map_dims(x)[1], p.output_size[0], p.output_size[1]],
{
    FeatureMaps { tensor: p.forward(x.tensor) }
}

/// Relies on `bytemuck::cast`, which reads the bits as a binary64 value, and on
/// `DropoutConfig::init`, which keeps the probability it is given.
#[verifier::external_body]
pub(crate) fn new_dropout(prob_bits: u64) -> (r: Dropout)
    ensures
        dropout_prob_bits(r) == prob_bits,
{
    DropoutConfig::new(bytemuck::cast(prob_bits)).init()
}

/// Relies on `Dropout::forward`: the shape is kept; with gradient tracking and
/// a nonzero probability, elements are zeroed at random and the rest rescaled.
#[verifier::external_body]
pub(crate) fn dropout_maps(d: &Dropout, x: FeatureMaps) -> (r: FeatureMaps)
    requires
        is_unit_probability(dropout_prob_bits(*d)),
    ensures
        map_dims(r) == map_dims(x),
{
    FeatureMaps { tensor: d.forward(x.tensor) }
}

/// Relies on `Dropout::forward`: the shape is kept; with gradient tracking and
/// a nonzero probability, elements are zeroed at random and the rest rescaled.
#[verifier::external_body]
pub(crate) fn dropout_flat(d: &Dropout, x: FlatBatch) -> (r: FlatBatch)
    requires
        is_unit_probability(dropout_prob_bits(*d)),
    ensures
        flat_dims(r) == flat_dims(x),
{
    FlatBatch { tensor: d.forward(x.tensor) }
}

/// Relies on `Relu::new`.
#[verifier::external_body]
pub(crate) fn new_relu() -> (r: Relu) {
    Relu::new()
}

/// Relies on `Relu::forward`: elementwise, so the shape is kept.
#[verifier::external_body]
pub(crate) fn relu_maps(a: &Relu, x: FeatureMaps) -> (r: FeatureMaps)
    ensures
        map_dims(r) == map_dims(x),
{
    FeatureMaps { tensor: a.forward(x.tensor) }
}

/// Relies on `Relu::forward`: elementwise, so the shape is kept.
#[verifier::external_body]
pub(crate) fn relu_flat(a: &Relu, x: FlatBatch) -> (r: FlatBatch)
    ensures
        flat_dims(r) == flat_dims(x),
{
    FlatBatch { tensor: a.forward(x.tensor) }
}

} // verus!
