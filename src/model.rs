use vstd::prelude::*;
use burn::nn::pool::AdaptiveAvgPool2d;
use burn::nn::{Dropout, Relu};
use crate::config::ModelConfig;
use crate::layers::{
    conv_forward, conv_geometry, dropout_flat, dropout_maps, dropout_prob_bits, flat_dims,
    image_batch_dims, image_dims, images_to_maps, is_unit_probability, linear_forward,
    linear_widths, map_dims, maps_to_flat, new_conv, new_dropout, new_linear, new_pool, new_relu,
    pool_forward, relu_flat, relu_maps, ConvLayer, Device, FeatureMaps, FlatBatch, ImageBatch,
    LinearLayer,
};

verus! {

/// Side of the square convolution kernels.
pub const KERNEL_SIDE: usize = 3;

/// Channels out of the first convolution.
pub const CONV1_CHANNELS: usize = 8;

/// Channels out of the second convolution.
pub const CONV2_CHANNELS: usize = 16;

/// Side of the square grid that adaptive pooling produces.
pub const POOL_SIDE: usize = 8;

/// Width of a pooled feature map once flattened: channels times pooled area.
pub const FLAT_WIDTH: usize = 1024;

/// Smallest image side that leaves, after both convolutions, a grid at least
/// as large as the pooling target.
pub const MIN_IMAGE_SIDE: usize = 12;

/// Whether dropout is live during a forward pass.
#[derive(Clone, Copy, Debug, PartialEq, Eq, Structural)]
pub enum Mode {
    /// Dropout zeroes activations at random.
    Training,
    /// Dropout is the identity.
    Evaluation,
}

/// Why a forward pass was refused.
#[derive(Clone, Copy, Debug, PartialEq, Eq, Structural)]
pub enum ShapeError {
    /// The batch holds no image.
    EmptyBatch,
    /// The images are too small for the convolutions and pooling.
    TooSmall { height: usize, width: usize },
}

/// The spatial side left by one convolution (no padding, unit stride).
pub open spec fn conv_extent(side: int) -> int {
    side - (KERNEL_SIDE - 1)
}

/// An image side is accepted when both convolutions leave at least the
/// pooling target.
pub open spec fn accepts_side(side: int) -> bool {
    conv_extent(conv_extent(side)) >= POOL_SIDE
}

/// The shape of the scores for an image batch of shape `input`, or `None`
/// when the batch is refused.
pub open spec fn output_dims(input: Seq<usize>, num_classes: usize) -> Option<Seq<usize>> {
    if input.len() == 3 && input[0] >= 1 && accepts_side(input[1] as int) && accepts_side(
        input[2] as int,
    ) {
        Some(seq![input[0], num_classes])
    } else {
        None
    }
}

/// Every configuration gives a model that accepts non-empty batches of 28 by
/// 28 images and returns for each image one score per class.
pub proof fn lemma_digit_images_scored(config: ModelConfig, batch: usize)
    requires
        batch >= 1,
    ensures
        output_dims(seq![batch, 28usize, 28usize], config.spec_num_classes()) == Some(
            seq![batch, config.spec_num_classes()],
        ),
{
}

/// The digit classifier: two convolutions, adaptive average pooling and two
/// fully-connected layers, with dropout and rectification between them.
pub struct Model {
    conv1: ConvLayer,
    conv2: ConvLayer,
    pool: AdaptiveAvgPool2d,
    dropout: Dropout,
    linear1: LinearLayer,
    linear2: LinearLayer,
    activation: Relu,
}

impl Model {
    /// Size of the score vector for each image.
    pub closed spec fn spec_num_classes(&self) -> usize {
        linear_widths(self.linear2).1
    }

    /// Width of the hidden fully-connected layer.
    pub closed spec fn spec_hidden_size(&self) -> usize {
        linear_widths(self.linear1).1
    }

    /// Bit pattern of the dropout probability.
    pub closed spec fn spec_dropout_bits(&self) -> u64 {
        dropout_prob_bits(self.dropout)
    }

    /// The layers fit together: each consumes what the previous one produces.
    #[verifier::type_invariant]
    closed spec fn inv(&self) -> bool {
        &&& conv_geometry(self.conv1) == (1usize, CONV1_CHANNELS, KERNEL_SIDE)
        &&& conv_geometry(self.conv2) == (CONV1_CHANNELS, CONV2_CHANNELS, KERNEL_SIDE)
        &&& self.pool.output_size@ == seq![POOL_SIDE, POOL_SIDE]
        &&& linear_widths(self.linear1).0 == FLAT_WIDTH
        &&& linear_widths(self.linear2).0 == linear_widths(self.linear1).1
        &&& linear_widths(self.linear1).1 >= 1
        &&& linear_widths(self.linear2).1 >= 1
        &&& is_unit_probability(dropout_prob_bits(self.dropout))
    }

    fn dropout_maps_in(&self, x: FeatureMaps, mode: Mode) -> (r: FeatureMaps)
        requires
            is_unit_probability(dropout_prob_bits(self.dropout)),
        ensures
            map_dims(r) == map_dims(x),
    {
        match mode {
            Mode::Training => dropout_maps(&self.dropout, x),
            Mode::Evaluation => x,
        }
    }

    fn dropout_flat_in(&self, x: FlatBatch, mode: Mode) -> (r: FlatBatch)
        requires
            is_unit_probability(dropout_prob_bits(self.dropout)),
        ensures
            flat_dims(r) == flat_dims(x),
    {
        match mode {
            Mode::Training => dropout_flat(&self.dropout, x),
            Mode::Evaluation => x,
        }
    }

    /// Scores each image of a `[batch, height, width]` batch, giving
    /// `[batch, num_classes]`; refused when the batch is empty or a side is
    /// below the smallest the convolutions and pooling can take. In evaluation
    /// mode dropout is skipped.
    pub fn forward(&self, images: ImageBatch, mode: Mode) -> (r: Result<FlatBatch, ShapeError>)
        ensures
            match r {
                Ok(scores) => output_dims(image_dims(images), self.spec_num_classes()) == Some(
                    flat_dims(scores),
                ),
                Err(e) => {
                    &&& output_dims(image_dims(images), self.spec_num_classes()) is None
                    &&& e == if image_dims(images)[0] == 0 {
                        ShapeError::EmptyBatch
                    } else {
                        ShapeError::TooSmall {
                            height: image_dims(images)[1],
                            width: image_dims(images)[2],
                        }
                    }
                },
            },
    {
        proof {
            use_type_invariant(self);
        }
        let dims = image_batch_dims(&images);
        let batch = dims[0];
        let height = dims[1];
        let width = dims[2];
        if batch == 0 {
            return Err(ShapeError::EmptyBatch);
        }
        if height < MIN_IMAGE_SIDE || width < MIN_IMAGE_SIDE {
            return Err(ShapeError::TooSmall { height, width });
        }
        assert(batch * height * width == batch * 1 * height * width) by (nonlinear_arith);
        // [batch, 1, height, width]
        let x = images_to_maps(images, [batch, 1, height, width]);
        // [batch, 8, height - 2, width - 2]
        let x = conv_forward(&self.conv1, x);
        let x = self.dropout_maps_in(x, mode);
        // [batch, 16, height - 4, width - 4]
        let x = conv_forward(&self.conv2, x);
        let x = self.dropout_maps_in(x, mode);
        let x = relu_maps(&self.activation, x);
        // [batch, 16, 8, 8]
        let x = pool_forward(&self.pool, x);
        // [batch, 1024]
        let x = maps_to_flat(x, [batch, FLAT_WIDTH]);
        // [batch, hidden_size]
        let x = linear_forward(&self.linear1, x);
        let x = self.dropout_flat_in(x, mode);
        let x = relu_flat(&self.activation, x);
        // [batch, num_classes]
        let x = linear_forward(&self.linear2, x);
        Ok(x)
    }
}

impl ModelConfig {
    /// A model with freshly drawn parameters allocated on `device`, shaped by
    /// this configuration.
    pub fn init(&self, device: &Device) -> (r: Model)
        ensures
            r.spec_num_classes() == self.spec_num_classes(),
            r.spec_hidden_size() == self.spec_hidden_size(),
            r.spec_dropout_bits() == self.spec_dropout_bits(),
    {
        let num_classes = self.num_classes();
        let hidden_size = self.hidden_size();
        let dropout_bits = self.dropout_bits();
        Model {
            conv1: new_conv(1, CONV1_CHANNELS, KERNEL_SIDE, device),
            conv2: new_conv(CONV1_CHANNELS, CONV2_CHANNELS, KERNEL_SIDE, device),
            pool: new_pool([POOL_SIDE, POOL_SIDE]),
            activation: new_relu(),
            linear1: new_linear(FLAT_WIDTH, hidden_size, device),
            linear2: new_linear(hidden_size, num_classes, device),
            dropout: new_dropout(dropout_bits),
        }
    }
}

} // verus!
