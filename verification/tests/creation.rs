use std::sync::atomic::{AtomicUsize, Ordering};

use sherpa_rs::error::{CreationFailure, DecodeError, Error};
use sherpa_rs::online::engine::{started, RecognizerEngine, StreamEngine};
use sherpa_rs::online::stream::recognizer::{RecognizerConfig, RecognizerStream, Search};
use sherpa_rs::online::transducer::Transducer;

static BUILT: AtomicUsize = AtomicUsize::new(0);
static RELEASED: AtomicUsize = AtomicUsize::new(0);

/// An engine that is always built and never gives a stream, and that counts
/// how often it was built and released.
struct Streamless;

impl Drop for Streamless {
    fn drop(&mut self) {
        RELEASED.fetch_add(1, Ordering::SeqCst);
    }
}

impl StreamEngine for Streamless {
    type Sample = f32;

    fn accept_waveform(&mut self, _sample_rate: i32, _samples: Vec<f32>, _count: i32) {
        panic!("no stream was opened");
    }

    fn is_ready(&mut self) -> bool {
        panic!("no stream was opened");
    }

    fn decode(&mut self) -> Result<(), DecodeError> {
        panic!("no stream was opened");
    }

    fn get_result(&mut self) -> String {
        panic!("no stream was opened");
    }
}

impl RecognizerEngine for Streamless {
    fn create(_config: &RecognizerConfig) -> Option<Self> {
        BUILT.fetch_add(1, Ordering::SeqCst);
        Some(Streamless)
    }

    fn open_stream(&mut self) -> bool {
        false
    }

    fn is_endpoint(&mut self) -> bool {
        panic!("no stream was opened");
    }

    fn reset(&mut self) {
        panic!("no stream was opened");
    }
}

#[test]
fn an_engine_that_gives_no_stream_is_released() {
    let r: Result<RecognizerStream<Streamless>, Error> = RecognizerStream::from_transducer(
        Transducer::new("e", "d", "j").unwrap(),
        None,
        "tokens.txt",
        Search::Greedy,
        false,
        None,
        None,
        None,
    );
    assert!(matches!(r, Err(Error::StreamCreation)));
    assert_eq!(BUILT.load(Ordering::SeqCst), 1);
    assert_eq!(RELEASED.load(Ordering::SeqCst), 1);
}

#[test]
fn an_engine_is_kept_only_with_its_stream() {
    assert_eq!(started(7, true), Ok(7));
    assert_eq!(started(7, false), Err(CreationFailure::Stream));
    assert_eq!(started("engine", true), Ok("engine"));
}
