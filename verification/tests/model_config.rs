use sherpa_rs::error::ConfigError;
use sherpa_rs::online::model::{
    FeatureConfig, ModelBackendConfig, OnlineModelConfig, Thousandths, DEFAULT_NUM_THREADS,
    FEATURE_DIM,
};
use sherpa_rs::online::paraformer::Paraformer;
use sherpa_rs::online::transducer::Transducer;
use sherpa_rs::online::zipformer2_ctc::Zipformer2Ctc;

fn transducer() -> Transducer {
    Transducer::new("enc.onnx", "dec.onnx", "join.onnx").unwrap()
}

fn paraformer() -> Paraformer {
    Paraformer::new("p-enc.onnx", "p-dec.onnx").unwrap()
}

fn zipformer() -> Zipformer2Ctc {
    Zipformer2Ctc::new("ctc.onnx").unwrap()
}

#[test]
fn a_transducer_keeps_its_three_paths() {
    let t = transducer();
    assert_eq!(t.encoder.as_str(), "enc.onnx");
    assert_eq!(t.decoder.as_str(), "dec.onnx");
    assert_eq!(t.joiner.as_str(), "join.onnx");
    assert_eq!(t.model_type(), "transducer");
}

#[test]
fn a_transducer_path_with_a_nul_is_refused() {
    assert!(matches!(Transducer::new("e\0", "d", "j"), Err(ConfigError::EmbeddedNul)));
    assert!(matches!(Transducer::new("e", "\0d", "j"), Err(ConfigError::EmbeddedNul)));
    assert!(matches!(Transducer::new("e", "d", "j\0j"), Err(ConfigError::EmbeddedNul)));
}

#[test]
fn a_paraformer_keeps_its_two_paths() {
    let p = paraformer();
    assert_eq!(p.encoder.as_str(), "p-enc.onnx");
    assert_eq!(p.decoder.as_str(), "p-dec.onnx");
    assert_eq!(p.model_type(), "paraformer");
    assert!(matches!(Paraformer::new("e\0", "d"), Err(ConfigError::EmbeddedNul)));
    assert!(matches!(Paraformer::new("e", "d\0"), Err(ConfigError::EmbeddedNul)));
}

#[test]
fn a_zipformer_keeps_its_path() {
    let z = zipformer();
    assert_eq!(z.model.as_str(), "ctc.onnx");
    assert_eq!(z.model_type(), "zipformer2_ctc");
    assert!(matches!(Zipformer2Ctc::new("\0"), Err(ConfigError::EmbeddedNul)));
}

#[test]
fn paths_are_not_looked_up() {
    assert!(Transducer::new("/no/such/enc", "/no/such/dec", "/no/such/join").is_ok());
    assert!(Zipformer2Ctc::new("").is_ok());
}

#[test]
fn one_family_makes_its_model() {
    match ModelBackendConfig::select(Some(transducer()), None, None) {
        Ok(ModelBackendConfig::Transducer(t)) => assert_eq!(t.joiner.as_str(), "join.onnx"),
        _ => panic!("a transducer was given"),
    }
    match ModelBackendConfig::select(None, Some(paraformer()), None) {
        Ok(ModelBackendConfig::Paraformer(p)) => assert_eq!(p.encoder.as_str(), "p-enc.onnx"),
        _ => panic!("a paraformer was given"),
    }
    match ModelBackendConfig::select(None, None, Some(zipformer())) {
        Ok(ModelBackendConfig::Zipformer2Ctc(z)) => assert_eq!(z.model.as_str(), "ctc.onnx"),
        _ => panic!("a zipformer was given"),
    }
}

#[test]
fn conflicting_families_are_refused() {
    assert!(matches!(
        ModelBackendConfig::select(Some(transducer()), Some(paraformer()), None),
        Err(ConfigError::ConflictingVariant)
    ));
    assert!(matches!(
        ModelBackendConfig::select(Some(transducer()), None, Some(zipformer())),
        Err(ConfigError::ConflictingVariant)
    ));
    assert!(matches!(
        ModelBackendConfig::select(None, Some(paraformer()), Some(zipformer())),
        Err(ConfigError::ConflictingVariant)
    ));
    assert!(matches!(
        ModelBackendConfig::select(Some(transducer()), Some(paraformer()), Some(zipformer())),
        Err(ConfigError::ConflictingVariant)
    ));
}

#[test]
fn no_family_is_refused() {
    assert!(matches!(
        ModelBackendConfig::select(None, None, None),
        Err(ConfigError::MissingVariant)
    ));
}

#[test]
fn the_tag_is_read_off_the_variant() {
    assert_eq!(ModelBackendConfig::Transducer(transducer()).model_type(), "transducer");
    assert_eq!(ModelBackendConfig::Paraformer(paraformer()).model_type(), "paraformer");
    assert_eq!(ModelBackendConfig::Zipformer2Ctc(zipformer()).model_type(), "zipformer2_ctc");
    assert!(ModelBackendConfig::Zipformer2Ctc(zipformer()).is_zipformer2_ctc());
    assert!(!ModelBackendConfig::Transducer(transducer()).is_zipformer2_ctc());
    assert!(!ModelBackendConfig::Paraformer(paraformer()).is_zipformer2_ctc());
}

#[test]
fn a_model_configuration_takes_its_defaults() {
    let model = OnlineModelConfig::build(
        ModelBackendConfig::Transducer(transducer()),
        "tokens.txt",
        None,
        None,
        false,
    )
    .unwrap();
    assert_eq!(model.tokens.as_str(), "tokens.txt");
    assert_eq!(model.provider.as_str(), "cpu");
    assert_eq!(model.num_threads, 1);
    assert_eq!(DEFAULT_NUM_THREADS, 1);
    assert!(!model.debug);
    assert_eq!(model.model_type(), "transducer");
    assert_eq!(model.modeling_unit(), "cjkchar");
}

#[test]
fn a_model_configuration_takes_what_is_named() {
    let model = OnlineModelConfig::build(
        ModelBackendConfig::Paraformer(paraformer()),
        "t.txt",
        Some("cuda"),
        Some(4),
        true,
    )
    .unwrap();
    assert_eq!(model.provider.as_str(), "cuda");
    assert_eq!(model.num_threads, 4);
    assert!(model.debug);
    assert_eq!(model.model_type(), "paraformer");
    assert_eq!(model.modeling_unit(), "cjkchar");
    assert!(matches!(model.backend, ModelBackendConfig::Paraformer(_)));
}

#[test]
fn a_model_configuration_refuses_a_nul() {
    assert!(matches!(
        OnlineModelConfig::build(
            ModelBackendConfig::Transducer(transducer()),
            "to\0kens.txt",
            None,
            None,
            false
        ),
        Err(ConfigError::EmbeddedNul)
    ));
    assert!(matches!(
        OnlineModelConfig::build(
            ModelBackendConfig::Transducer(transducer()),
            "tokens.txt",
            Some("cpu\0"),
            None,
            false
        ),
        Err(ConfigError::EmbeddedNul)
    ));
}

#[test]
fn building_twice_gives_the_same_configuration() {
    let build = || {
        OnlineModelConfig::build(
            ModelBackendConfig::Zipformer2Ctc(zipformer()),
            "tokens.txt",
            Some("coreml"),
            Some(2),
            true,
        )
        .unwrap()
    };
    let (a, b) = (build(), build());
    assert_eq!(a.tokens.as_str(), b.tokens.as_str());
    assert_eq!(a.provider.as_str(), b.provider.as_str());
    assert_eq!(a.num_threads, b.num_threads);
    assert_eq!(a.debug, b.debug);
    assert_eq!(a.model_type(), b.model_type());
}

#[test]
fn the_features_are_fixed() {
    let f = FeatureConfig::new();
    assert_eq!(f.sample_rate, 16000);
    assert_eq!(f.feature_dim, 80);
    assert_eq!(FEATURE_DIM, 80);
    assert_eq!(f, FeatureConfig { sample_rate: 16000, feature_dim: 80 });
    assert_eq!(Thousandths(1500), Thousandths(1500));
    assert_ne!(Thousandths(1500), Thousandths(1501));
}
