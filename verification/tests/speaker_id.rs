use sherpa_rs::error::ConfigError;
use sherpa_rs::speaker_id::{
    EmbeddingEngine, EmbeddingError, EmbeddingExtractor, ExtractorConfig, ExtractorFailure,
    DEFAULT_EXTRACTOR_THREADS, DEFAULT_SIMILARITY_THRESHOLD,
};

/// An engine whose embedding is the mean and the peak of a recording. The
/// model's name scripts how it fails.
struct MeanPeak {
    model: String,
    open_streams: usize,
}

struct Recording {
    samples: Vec<f32>,
    finished: bool,
}

impl EmbeddingEngine for MeanPeak {
    type Sample = f32;
    type Stream = Recording;

    fn create(config: &ExtractorConfig) -> Result<Self, ExtractorFailure> {
        match config.model.as_str() {
            "absent.onnx" => Err(ExtractorFailure::ModelNotFound),
            "corrupt.onnx" => Err(ExtractorFailure::Engine),
            model => Ok(MeanPeak { model: model.to_string(), open_streams: 0 }),
        }
    }

    fn dim(&self) -> i32 {
        if self.model == "negative.onnx" {
            -1
        } else {
            2
        }
    }

    fn create_stream(&mut self) -> Option<Recording> {
        if self.model == "no-stream.onnx" {
            return None;
        }
        self.open_streams += 1;
        Some(Recording { samples: Vec::new(), finished: false })
    }

    fn accept_waveform(
        &mut self,
        stream: &mut Recording,
        _sample_rate: i32,
        samples: Vec<f32>,
        count: i32,
    ) {
        assert_eq!(count as usize, samples.len());
        assert!(!stream.finished);
        stream.samples.extend_from_slice(&samples);
    }

    fn input_finished(&mut self, stream: &mut Recording) {
        stream.finished = true;
    }

    fn is_ready(&mut self, stream: &mut Recording) -> bool {
        stream.finished && stream.samples.len() >= 4
    }

    fn compute_embedding(&mut self, stream: &mut Recording, size: usize) -> Option<Vec<f32>> {
        match self.model.as_str() {
            "mute.onnx" => None,
            "short.onnx" => Some(vec![0.0; size - 1]),
            _ => {
                let mean = stream.samples.iter().sum::<f32>() / stream.samples.len() as f32;
                let peak = stream.samples.iter().cloned().fold(0.0, f32::max);
                Some(vec![mean, peak])
            }
        }
    }

    fn destroy_stream(&mut self, _stream: Recording) {
        self.open_streams -= 1;
    }
}

fn extractor(model: &str) -> Result<EmbeddingExtractor<MeanPeak>, EmbeddingError> {
    EmbeddingExtractor::new_from_config(ExtractorConfig::new(model, None, None, false).unwrap())
}

#[test]
fn an_extractor_configuration_takes_its_defaults() {
    let config = ExtractorConfig::new("model.onnx", None, None, false).unwrap();
    assert_eq!(config.model.as_str(), "model.onnx");
    assert_eq!(config.provider.as_str(), "cpu");
    assert_eq!(config.num_threads, 2);
    assert_eq!(DEFAULT_EXTRACTOR_THREADS, 2);
    assert!(!config.debug);
    assert_eq!(DEFAULT_SIMILARITY_THRESHOLD, 500);
}

#[test]
fn an_extractor_configuration_takes_what_is_named() {
    let config = ExtractorConfig::new("m.onnx", Some("cuda"), Some(6), true).unwrap();
    assert_eq!(config.provider.as_str(), "cuda");
    assert_eq!(config.num_threads, 6);
    assert!(config.debug);
}

#[test]
fn an_extractor_configuration_refuses_a_nul() {
    assert!(matches!(
        ExtractorConfig::new("m\0.onnx", None, None, false),
        Err(ConfigError::EmbeddedNul)
    ));
    assert!(matches!(
        ExtractorConfig::new("m.onnx", Some("\0"), None, false),
        Err(ConfigError::EmbeddedNul)
    ));
}

#[test]
fn an_extractor_knows_the_size_of_its_embeddings() {
    assert_eq!(extractor("model.onnx").unwrap().embedding_size(), 2);
}

#[test]
fn an_extractor_reports_why_it_was_not_made() {
    assert!(matches!(extractor("absent.onnx"), Err(EmbeddingError::ModelNotFound)));
    assert!(matches!(extractor("corrupt.onnx"), Err(EmbeddingError::EngineCreation)));
    assert!(matches!(extractor("negative.onnx"), Err(EmbeddingError::Dimension)));
}

#[test]
fn an_extractor_is_made_of_an_engine_and_its_size() {
    let engine = MeanPeak { model: "model.onnx".to_string(), open_streams: 0 };
    assert_eq!(EmbeddingExtractor::from_parts(engine, 0).unwrap().embedding_size(), 0);
    let engine = MeanPeak { model: "model.onnx".to_string(), open_streams: 0 };
    assert_eq!(EmbeddingExtractor::from_parts(engine, 192).unwrap().embedding_size(), 192);
    let engine = MeanPeak { model: "model.onnx".to_string(), open_streams: 0 };
    assert!(matches!(
        EmbeddingExtractor::from_parts(engine, i32::MIN),
        Err(EmbeddingError::Dimension)
    ));
}

#[test]
fn an_embedding_is_what_the_engine_computes() {
    let mut extractor = extractor("model.onnx").unwrap();
    let embedding =
        extractor.compute_speaker_embedding(16000, vec![1.0, 3.0, 2.0, 2.0]).unwrap();
    assert_eq!(embedding, vec![2.0, 3.0]);
    // Any rate is taken: the engine resamples.
    let embedding = extractor.compute_speaker_embedding(8000, vec![4.0; 8]).unwrap();
    assert_eq!(embedding, vec![4.0, 4.0]);
}

#[test]
fn a_short_recording_gives_no_embedding() {
    let mut extractor = extractor("model.onnx").unwrap();
    assert_eq!(
        extractor.compute_speaker_embedding(16000, vec![1.0; 3]),
        Err(EmbeddingError::NotReady)
    );
    assert_eq!(
        extractor.compute_speaker_embedding(16000, Vec::new()),
        Err(EmbeddingError::NotReady)
    );
}

#[test]
fn an_engine_that_fails_gives_no_embedding() {
    assert_eq!(
        extractor("no-stream.onnx").unwrap().compute_speaker_embedding(16000, vec![1.0; 8]),
        Err(EmbeddingError::StreamCreation)
    );
    assert_eq!(
        extractor("mute.onnx").unwrap().compute_speaker_embedding(16000, vec![1.0; 8]),
        Err(EmbeddingError::Compute)
    );
    assert_eq!(
        extractor("short.onnx").unwrap().compute_speaker_embedding(16000, vec![1.0; 8]),
        Err(EmbeddingError::Compute)
    );
}

#[test]
fn the_engines_answers_decide_the_embedding() {
    type Extractor = EmbeddingExtractor<MeanPeak>;
    assert_eq!(Extractor::conclude(true, Some(vec![1.0, 2.0]), 2), Ok(vec![1.0, 2.0]));
    assert_eq!(Extractor::conclude(true, Some(vec![1.0]), 2), Err(EmbeddingError::Compute));
    assert_eq!(Extractor::conclude(true, Some(vec![1.0; 3]), 2), Err(EmbeddingError::Compute));
    assert_eq!(Extractor::conclude(true, None, 2), Err(EmbeddingError::Compute));
    assert_eq!(Extractor::conclude(false, Some(vec![1.0, 2.0]), 2), Err(EmbeddingError::NotReady));
    assert_eq!(Extractor::conclude(false, None, 2), Err(EmbeddingError::NotReady));
    assert_eq!(Extractor::conclude(true, Some(Vec::new()), 0), Ok(Vec::new()));
}
