use burn::backend::ndarray::NdArrayDevice;
use burn::tensor::{Distribution, Tensor};
use digit_classifier::config::ModelConfig;
use digit_classifier::layers::{ImageBatch, ModelBackend};
use digit_classifier::model::{Mode, ShapeError};

fn zeros(batch: usize, height: usize, width: usize) -> ImageBatch {
    ImageBatch { tensor: Tensor::<ModelBackend, 3>::zeros([batch, height, width], &NdArrayDevice::Cpu) }
}

fn uniform(batch: usize, height: usize, width: usize) -> ImageBatch {
    ImageBatch {
        tensor: Tensor::<ModelBackend, 3>::random(
            [batch, height, width],
            Distribution::Uniform(0.0, 1.0),
            &NdArrayDevice::Cpu,
        ),
    }
}

#[test]
fn single_zero_image_gives_ten_scores() {
    let model = ModelConfig::new(10, 512).unwrap().init(&NdArrayDevice::Cpu);
    let scores = model.forward(zeros(1, 28, 28), Mode::Evaluation).unwrap();
    assert_eq!(scores.tensor.dims(), [1, 10]);
}

#[test]
fn ten_by_ten_image_refused() {
    let model = ModelConfig::new(10, 512).unwrap().init(&NdArrayDevice::Cpu);
    let result = model.forward(zeros(1, 10, 10), Mode::Evaluation);
    assert!(matches!(result, Err(ShapeError::TooSmall { height: 10, width: 10 })));
}

#[test]
fn output_shape_follows_batch_and_classes() {
    for (classes, hidden, batch) in [(10usize, 512usize, 1usize), (1, 1, 2), (3, 7, 5), (26, 64, 4)] {
        let model = ModelConfig::new(classes, hidden).unwrap().init(&NdArrayDevice::Cpu);
        let scores = model.forward(uniform(batch, 28, 28), Mode::Evaluation).unwrap();
        assert_eq!(scores.tensor.dims(), [batch, classes]);
        let scores = model.forward(uniform(batch, 28, 28), Mode::Training).unwrap();
        assert_eq!(scores.tensor.dims(), [batch, classes]);
    }
}

#[test]
fn smallest_accepted_side() {
    let model = ModelConfig::new(4, 8).unwrap().init(&NdArrayDevice::Cpu);
    let scores = model.forward(uniform(2, 12, 12), Mode::Evaluation).unwrap();
    assert_eq!(scores.tensor.dims(), [2, 4]);
    let scores = model.forward(uniform(1, 12, 40), Mode::Evaluation).unwrap();
    assert_eq!(scores.tensor.dims(), [1, 4]);
}

#[test]
fn one_side_too_small_refused() {
    let model = ModelConfig::new(4, 8).unwrap().init(&NdArrayDevice::Cpu);
    let result = model.forward(zeros(1, 11, 28), Mode::Evaluation);
    assert!(matches!(result, Err(ShapeError::TooSmall { height: 11, width: 28 })));
    let result = model.forward(zeros(1, 28, 11), Mode::Training);
    assert!(matches!(result, Err(ShapeError::TooSmall { height: 28, width: 11 })));
}

#[test]
fn evaluation_is_deterministic() {
    let model = ModelConfig::new(10, 32).unwrap().init(&NdArrayDevice::Cpu);
    let images = uniform(3, 28, 28);
    let first = model.forward(ImageBatch { tensor: images.tensor.clone() }, Mode::Evaluation).unwrap();
    let second = model.forward(images, Mode::Evaluation).unwrap();
    assert_eq!(first.tensor.to_data(), second.tensor.to_data());
}

#[test]
fn training_dropout_varies_between_calls() {
    let model = ModelConfig::new(10, 32).unwrap().init(&NdArrayDevice::Cpu);
    let images = uniform(4, 28, 28);
    let first = model.forward(ImageBatch { tensor: images.tensor.clone() }, Mode::Training).unwrap();
    let second = model.forward(images, Mode::Training).unwrap();
    assert_eq!(first.tensor.dims(), second.tensor.dims());
    assert_ne!(first.tensor.to_data(), second.tensor.to_data());
}

#[test]
fn training_without_dropout_matches_evaluation() {
    let config = ModelConfig::new(10, 32).unwrap().with_dropout(0.0f64.to_bits()).unwrap();
    let model = config.init(&NdArrayDevice::Cpu);
    let images = uniform(2, 28, 28);
    let trained = model.forward(ImageBatch { tensor: images.tensor.clone() }, Mode::Training).unwrap();
    let evaluated = model.forward(images, Mode::Evaluation).unwrap();
    assert_eq!(trained.tensor.to_data(), evaluated.tensor.to_data());
}

#[test]
fn independent_inits_differ() {
    let config = ModelConfig::new(10, 32).unwrap();
    let first = config.init(&NdArrayDevice::Cpu);
    let second = config.init(&NdArrayDevice::Cpu);
    let images = uniform(1, 28, 28);
    let a = first.forward(ImageBatch { tensor: images.tensor.clone() }, Mode::Evaluation).unwrap();
    let b = second.forward(images, Mode::Evaluation).unwrap();
    assert_ne!(a.tensor.to_data(), b.tensor.to_data());
}

#[test]
fn empty_batch_refused() {
    let model = ModelConfig::new(10, 16).unwrap().init(&NdArrayDevice::Cpu);
    let result = model.forward(zeros(0, 28, 28), Mode::Evaluation);
    assert!(matches!(result, Err(ShapeError::EmptyBatch)));
    let result = model.forward(zeros(0, 5, 5), Mode::Training);
    assert!(matches!(result, Err(ShapeError::EmptyBatch)));
}
