use sherpa_rs::error::DecodeError;
use sherpa_rs::online::driver::DecodeLoop;
use sherpa_rs::online::engine::{RecognizerEngine, StreamEngine};
use sherpa_rs::online::session::{Phase, Session};
use sherpa_rs::online::stream::recognizer::{RecognizerConfig, RecognizerStream, Search};
use sherpa_rs::online::stream::{drain, Drained, OnlineStream};
use sherpa_rs::online::transducer::Transducer;

/// An engine that decodes one sample per step and fails at every sample
/// below zero.
struct Fragile {
    pending: Vec<f32>,
    decoded: Vec<f32>,
}

impl StreamEngine for Fragile {
    type Sample = f32;

    fn accept_waveform(&mut self, _sample_rate: i32, samples: Vec<f32>, _count: i32) {
        self.pending.extend_from_slice(&samples);
    }

    fn is_ready(&mut self) -> bool {
        !self.pending.is_empty()
    }

    fn decode(&mut self) -> Result<(), DecodeError> {
        let sample = self.pending.remove(0);
        if sample < 0.0 {
            return Err(DecodeError);
        }
        self.decoded.push(sample);
        Ok(())
    }

    fn get_result(&mut self) -> String {
        format!("{:?}", self.decoded)
    }
}

impl RecognizerEngine for Fragile {
    fn create(_config: &RecognizerConfig) -> Option<Self> {
        Some(Fragile { pending: Vec::new(), decoded: Vec::new() })
    }

    fn open_stream(&mut self) -> bool {
        true
    }

    fn is_endpoint(&mut self) -> bool {
        false
    }

    fn reset(&mut self) {
        self.decoded.clear();
    }
}

fn open() -> RecognizerStream<Fragile> {
    RecognizerStream::from_transducer(
        Transducer::new("e", "d", "j").unwrap(),
        None,
        "tokens.txt",
        Search::Greedy,
        false,
        None,
        None,
        None,
    )
    .unwrap()
}

#[test]
fn a_failed_step_is_told_and_spent() {
    let mut stream = open();
    stream.accept_waveform(16000, vec![-1.0, 2.0]).unwrap();
    assert!(stream.is_ready());
    assert_eq!(stream.decode_stream(), Err(DecodeError));
    assert_eq!(stream.get_result(), "");
    assert!(stream.is_ready());
    assert_eq!(stream.decode_stream(), Ok(()));
    assert_eq!(stream.get_result(), "[2.0]");
    assert!(!stream.is_ready());
}

#[test]
fn a_drain_counts_the_steps_that_failed_and_goes_on() {
    let mut stream = open();
    stream.accept_waveform(16000, vec![1.0, -1.0, -1.0, 4.0, -1.0]).unwrap();
    assert_eq!(drain(&mut stream), Drained { steps: 5, failed: 3 });
    assert_eq!(stream.get_result(), "[1.0, 4.0]");
    assert_eq!(drain(&mut stream), Drained { steps: 0, failed: 0 });
}

#[test]
fn nothing_is_reported_while_every_step_has_failed() {
    let mut stream = open();
    stream.accept_waveform(16000, vec![-1.0; 4]).unwrap();
    assert_eq!(drain(&mut stream), Drained { steps: 4, failed: 4 });
    assert_eq!(stream.get_result(), "");
}

#[test]
fn a_loop_goes_on_after_a_failed_step() {
    let mut stream = open();
    let mut decode_loop = DecodeLoop::new();
    let shown: Vec<Option<String>> = [vec![-1.0f32], vec![3.0, -1.0], vec![-1.0], vec![5.0]]
        .into_iter()
        .map(|chunk| decode_loop.feed(&mut stream, 16000, chunk).unwrap())
        .collect();
    assert_eq!(
        shown,
        vec![None, Some("[3.0]".to_string()), None, Some("[3.0, 5.0]".to_string())]
    );
}

#[test]
fn a_failed_step_leaves_the_account_undecoded() {
    let mut session = Session::new();
    session.accept(16000, 2).unwrap();
    assert!(session.observe_ready(true));
    session.step(false);
    assert!(!session.has_decoded());
    assert_eq!(session.phase(), Phase::Buffering);
    assert!(session.observe_ready(true));
    session.step(true);
    assert!(session.has_decoded());
    assert_eq!(session.phase(), Phase::Idle);
}
