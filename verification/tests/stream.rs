use futures_retry::{
    AttemptErrorHandler, RetryPolicy, StreamRetry, StreamRetryState, StreamStep,
};

struct AlwaysRepeat;

impl<E> AttemptErrorHandler<E> for AlwaysRepeat {
    type OutError = ();

    fn handle(&mut self, _attempt: usize, _e: E) -> RetryPolicy<()> {
        RetryPolicy::Repeat
    }

    fn ok(&mut self, _attempt: usize) {}
}

struct WaitAll(u64);

impl<E> AttemptErrorHandler<E> for WaitAll {
    type OutError = ();

    fn handle(&mut self, _attempt: usize, _e: E) -> RetryPolicy<()> {
        RetryPolicy::WaitRetry(self.0)
    }

    fn ok(&mut self, _attempt: usize) {}
}

struct ForwardAll;

impl<E> AttemptErrorHandler<E> for ForwardAll {
    type OutError = E;

    fn handle(&mut self, _attempt: usize, e: E) -> RetryPolicy<E> {
        RetryPolicy::ForwardError(e)
    }

    fn ok(&mut self, _attempt: usize) {}
}

#[derive(PartialEq, Eq, Debug)]
enum Call {
    Handle(usize),
    Success(usize),
}

struct Recorder {
    calls: Vec<Call>,
}

impl AttemptErrorHandler<i32> for Recorder {
    type OutError = ();

    fn handle(&mut self, attempt: usize, _e: i32) -> RetryPolicy<()> {
        self.calls.push(Call::Handle(attempt));
        RetryPolicy::Repeat
    }

    fn ok(&mut self, attempt: usize) {
        self.calls.push(Call::Success(attempt));
    }
}

/// Drives the machine as the asynchronous shell would, feeding it the items
/// of `source` and then its end.  Returns every emitted item and the total
/// milliseconds of timer suspension the machine asked for.
fn drive_all<I, E, F>(
    retry: &mut StreamRetry<F>,
    source: Vec<Result<I, E>>,
) -> (Vec<Result<(I, usize), (F::OutError, usize)>>, u64)
where
    F: AttemptErrorHandler<E>,
{
    let mut out = Vec::new();
    let mut slept: u64 = 0;
    let mut items = source.into_iter();
    loop {
        if let StreamRetryState::TimerActive { millis } = retry.state {
            slept += millis;
            retry.on_timer_elapsed();
        }
        match retry.on_source_item(items.next()) {
            StreamStep::Emit(x) => out.push(x),
            StreamStep::Finished => return (out, slept),
            StreamStep::PollAgain => {}
            StreamStep::Suspend(_) => {}
        }
    }
}

#[test]
fn stream_naive() {
    let mut retry = StreamRetry::new(AlwaysRepeat);
    let (out, _) = drive_all(&mut retry, vec![Ok::<_, u8>(17u8), Ok(19u8)]);
    assert_eq!(vec![Ok((17u8, 1)), Ok((19u8, 1))], out);
}

#[test]
fn repeat() {
    let mut retry = StreamRetry::new(AlwaysRepeat);
    let (out, _) = drive_all(&mut retry, vec![Ok(1), Err(17), Ok(19)]);
    assert_eq!(vec![Ok((1, 1)), Ok((19, 2))], out);
}

#[test]
fn wait() {
    let mut retry = StreamRetry::new(WaitAll(10));
    let (out, slept) = drive_all(&mut retry, vec![Err(17), Ok(19)]);
    assert_eq!(vec![Ok((19, 2))], out);
    assert_eq!(10, slept);
}

#[test]
fn propagate() {
    let mut retry = StreamRetry::new(ForwardAll);
    let step = retry.on_source_item(Some(Err::<u16, u8>(17u8)));
    assert_eq!(StreamStep::Emit(Err((17u8, 1))), step);
}

#[test]
fn forward_error_keeps_the_sequence_open() {
    let mut retry = StreamRetry::new(ForwardAll);
    let first = retry.on_source_item(Some(Err::<u16, u8>(17u8)));
    assert_eq!(StreamStep::Emit(Err((17u8, 1))), first);
    let second = retry.on_source_item(Some(Ok::<u16, u8>(19u16)));
    assert_eq!(StreamStep::Emit(Ok((19u16, 2))), second);
    let end = retry.on_source_item(None::<Result<u16, u8>>);
    assert_eq!(StreamStep::Finished, end);
}

#[test]
fn repeat_never_suspends() {
    let mut retry = StreamRetry::new(AlwaysRepeat);
    let (out, slept) = drive_all(&mut retry, vec![Err(7), Err(7), Ok(5)]);
    assert_eq!(vec![Ok((5, 3))], out);
    assert_eq!(0, slept);
}

#[test]
fn success_calls_ok_once_with_one_plus_preceding_failures() {
    let mut retry = StreamRetry::new(Recorder { calls: Vec::new() });
    let (out, _) = drive_all(&mut retry, vec![Err(7), Err(7), Ok(5)]);
    assert_eq!(vec![Ok((5, 3))], out);
    assert_eq!(
        vec![Call::Handle(1), Call::Handle(2), Call::Success(3)],
        retry.error_action.calls
    );
}

#[test]
fn counter_resets_to_one_after_success_before_next_failure() {
    let mut retry = StreamRetry::new(Recorder { calls: Vec::new() });
    let (out, _) = drive_all(&mut retry, vec![Err(7), Ok(5), Err(8), Ok(6)]);
    assert_eq!(vec![Ok((5, 2)), Ok((6, 2))], out);
    assert_eq!(
        vec![
            Call::Handle(1),
            Call::Success(2),
            Call::Handle(1),
            Call::Success(2)
        ],
        retry.error_action.calls
    );
    assert_eq!(1, retry.attempt);
}

#[test]
fn with_counter_starts_at_the_given_attempt() {
    let mut retry = StreamRetry::with_counter(AlwaysRepeat, 5);
    assert_eq!(5, retry.attempt);
    let (out, _) = drive_all(&mut retry, vec![Ok::<u8, u8>(40u8)]);
    assert_eq!(vec![Ok((40u8, 5))], out);
    assert_eq!(1, retry.attempt);
}

#[test]
fn wait_decision_enters_and_leaves_timer_state() {
    let mut retry = StreamRetry::new(WaitAll(25));
    let step = retry.on_source_item(Some(Err::<u16, u8>(9u8)));
    assert_eq!(StreamStep::Suspend(25), step);
    assert!(matches!(
        retry.state,
        StreamRetryState::TimerActive { millis: 25 }
    ));
    retry.on_timer_elapsed();
    assert!(matches!(retry.state, StreamRetryState::WaitingForStream));
    assert_eq!(2, retry.attempt);
}
