use sherpa_rs::error::DecodeError;
use sherpa_rs::online::driver::DecodeLoop;
use sherpa_rs::online::engine::{RecognizerEngine, StreamEngine};
use sherpa_rs::online::model::ModelBackendConfig;
use sherpa_rs::online::stream::recognizer::{RecognizerConfig, RecognizerStream, Search};
use sherpa_rs::online::stream::{drain, OnlineStream, Segmentable};
use sherpa_rs::online::transducer::Transducer;

const SECOND: usize = 16000;

/// The audio that one decode step of `Mute` takes: a second and a quarter.
const WINDOW: usize = SECOND + SECOND / 4;

/// An engine that decodes a window per step and never has a hypothesis.
struct Mute {
    greedy: bool,
    transducer: bool,
    buffered: usize,
    steps: usize,
}

impl StreamEngine for Mute {
    type Sample = f32;

    fn accept_waveform(&mut self, sample_rate: i32, samples: Vec<f32>, count: i32) {
        assert_eq!(sample_rate, 16000);
        assert_eq!(count as usize, samples.len());
        self.buffered += samples.len();
    }

    fn is_ready(&mut self) -> bool {
        self.buffered >= WINDOW
    }

    fn decode(&mut self) -> Result<(), DecodeError> {
        self.buffered -= WINDOW;
        self.steps += 1;
        Ok(())
    }

    fn get_result(&mut self) -> String {
        String::new()
    }
}

impl RecognizerEngine for Mute {
    fn create(config: &RecognizerConfig) -> Option<Self> {
        Some(Mute {
            greedy: config.decoding_method == Search::Greedy,
            transducer: matches!(config.model_config.backend, ModelBackendConfig::Transducer(_)),
            buffered: 0,
            steps: 0,
        })
    }

    fn open_stream(&mut self) -> bool {
        true
    }

    fn is_endpoint(&mut self) -> bool {
        false
    }

    fn reset(&mut self) {
        self.steps = 0;
    }
}

fn tone(seconds: usize) -> Vec<f32> {
    (0..seconds * SECOND)
        .map(|i| (i as f32 * 2.0 * std::f32::consts::PI * 440.0 / SECOND as f32).sin())
        .collect()
}

#[test]
fn a_silent_second_and_a_tone_through_an_engine_without_a_hypothesis() {
    let mut stream: RecognizerStream<Mute> = RecognizerStream::from_transducer(
        Transducer::new("encoder.onnx", "decoder.onnx", "joiner.onnx").unwrap(),
        None,
        "tokens.txt",
        Search::Greedy,
        false,
        None,
        None,
        None,
    )
    .unwrap();
    assert!(stream.engine().greedy);
    assert!(stream.engine().transducer);
    assert!(!stream.is_ready());
    assert_eq!(stream.get_result(), "");

    // A silent second is less than the engine's window.
    stream.accept_waveform(16000, vec![0.0; SECOND]).unwrap();
    assert!(!stream.is_ready());
    assert_eq!(drain(&mut stream).steps, 0);
    assert_eq!(stream.get_result(), "");

    // Three seconds of tone fill three windows, with a fifth of a second left.
    stream.accept_waveform(16000, tone(3)).unwrap();
    assert!(stream.is_ready());
    assert_eq!(stream.get_result(), "");
    let mut steps = 0;
    while stream.is_ready() {
        stream.decode_stream().unwrap();
        steps += 1;
        assert_eq!(stream.get_result(), "");
    }
    assert_eq!(steps, 3);
    assert_eq!(stream.engine().steps, 3);
    assert_eq!(stream.engine().buffered, 4 * SECOND - 3 * WINDOW);
    assert!(!stream.is_ready());
    assert!(!stream.is_endpoint());
    assert_eq!(stream.get_result(), "");
}

#[test]
fn a_loop_over_the_same_audio_shows_nothing() {
    let mut stream: RecognizerStream<Mute> = RecognizerStream::from_transducer(
        Transducer::new("encoder.onnx", "decoder.onnx", "joiner.onnx").unwrap(),
        None,
        "tokens.txt",
        Search::Greedy,
        false,
        None,
        None,
        None,
    )
    .unwrap();
    let mut decode_loop = DecodeLoop::new();
    for chunk in [vec![0.0; SECOND], tone(3)] {
        let pass = decode_loop.feed_segmented(&mut stream, 16000, chunk).unwrap();
        assert_eq!(pass.shown, None);
        assert_eq!(pass.closed, None);
        assert!(!pass.reset);
    }
    assert_eq!(stream.engine().steps, 3);
    assert_eq!(decode_loop.segment_index(), 0);
    assert_eq!(decode_loop.last_text(), "");
}
