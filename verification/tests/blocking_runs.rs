use loading_screen::outcome::Outcome;
use loading_screen::renderer::{resolve_renderer, RendererChoice};
use loading_screen::signal::CompletionSignal;
use loading_screen::sync_runner::{SyncEvent, SyncRunner, SyncStep};
use std::sync::atomic::{AtomicBool, AtomicUsize, Ordering};
use std::sync::mpsc::channel;
use std::sync::{Arc, Mutex};
use std::time::{Duration, Instant};
use tokio::runtime::{Builder, Runtime};

/// Parks the calling thread for `millis` milliseconds.
fn pause(millis: u64) {
    let (_sender, receiver) = channel::<()>();
    let _ = receiver.recv_timeout(Duration::from_millis(millis));
}

fn runtime() -> Runtime {
    Builder::new_multi_thread().worker_threads(4).build().unwrap()
}

/// Fires the signal when the renderer's context is left, by return or by fault.
struct FireOnExit(Arc<Mutex<CompletionSignal>>);

impl Drop for FireOnExit {
    fn drop(&mut self) {
        self.0.lock().unwrap().fire();
    }
}

#[derive(Debug, PartialEq)]
enum Ending {
    Returned,
    TaskFault,
    RendererFault,
}

struct Run {
    ending: Ending,
    steps: Vec<SyncStep>,
}

/// Drives one blocking run on the runtime's blocking threads. `on_signal_set`
/// is called each time a read finds the signal set.
fn run_blocking<R, F, S>(
    runtime: &Runtime,
    custom: Option<R>,
    fallback: R,
    task: F,
    on_signal_set: S,
) -> Run
where
    R: FnOnce() + Send + 'static,
    F: FnOnce() + Send + 'static,
    S: Fn(),
{
    let mut runner = SyncRunner::new(RendererChoice::of(&custom));
    let mut renderer = Some(resolve_renderer(custom, fallback));
    let mut task = Some(task);
    let signal = Arc::new(Mutex::new(CompletionSignal::new()));
    let mut renderer_context = None;
    let mut task_context = None;
    let mut steps = Vec::new();
    loop {
        let step = runner.pending();
        steps.push(step);
        let reported = match step {
            SyncStep::StartRenderer(_) => {
                let call = renderer.take().unwrap();
                let guard = FireOnExit(Arc::clone(&signal));
                renderer_context = Some(runtime.spawn_blocking(move || {
                    let _guard = guard;
                    call();
                }));
                runner.advance(SyncEvent::Started)
            }
            SyncStep::StartTask => {
                task_context = Some(runtime.spawn_blocking(task.take().unwrap()));
                runner.advance(SyncEvent::Started)
            }
            SyncStep::JoinTask => {
                let joined = runtime.block_on(task_context.take().unwrap());
                runner.advance(SyncEvent::TaskJoined(Outcome::of(&joined)))
            }
            SyncStep::ReadSignal => {
                let next = runner.read_signal(&signal.lock().unwrap());
                if next == Ok(SyncStep::JoinRenderer) {
                    on_signal_set();
                }
                next
            }
            SyncStep::Sleep { millis } => {
                pause(millis);
                runner.advance(SyncEvent::Slept)
            }
            SyncStep::JoinRenderer => {
                let joined = runtime.block_on(renderer_context.take().unwrap());
                runner.advance(SyncEvent::RendererJoined(Outcome::of(&joined)))
            }
            SyncStep::Return => return Run { ending: Ending::Returned, steps },
            SyncStep::RaiseTaskFault => return Run { ending: Ending::TaskFault, steps },
            SyncStep::RaiseRendererFault => return Run { ending: Ending::RendererFault, steps },
        };
        reported.unwrap();
    }
}

fn flag() -> (Arc<AtomicBool>, Arc<AtomicBool>) {
    let flag = Arc::new(AtomicBool::new(false));
    (Arc::clone(&flag), flag)
}

#[test]
fn blocking_run_returns_after_the_task_has_ended() {
    let runtime = runtime();
    let (task_done, seen) = flag();
    let run = run_blocking(
        &runtime,
        None,
        || {},
        move || {
            pause(50);
            task_done.store(true, Ordering::SeqCst);
        },
        || {},
    );
    assert!(seen.load(Ordering::SeqCst));
    assert_eq!(run.ending, Ending::Returned);
}

#[test]
fn blocking_run_waits_for_the_renderer_to_finish() {
    let runtime = runtime();
    let (last_frame, seen) = flag();
    let began = Instant::now();
    let run = run_blocking(
        &runtime,
        None,
        move || {
            pause(300);
            last_frame.store(true, Ordering::SeqCst);
        },
        || {},
        || {},
    );
    assert!(seen.load(Ordering::SeqCst));
    assert!(began.elapsed() >= Duration::from_millis(300));
    assert_eq!(run.ending, Ending::Returned);
    assert!(run.steps.contains(&SyncStep::Sleep { millis: 100 }));
    assert_eq!(run.steps[run.steps.len() - 2], SyncStep::JoinRenderer);
}

#[test]
fn blocking_run_starts_the_custom_renderer_and_not_the_default() {
    let runtime = runtime();
    let (custom_ran, custom_seen) = flag();
    let (default_ran, default_seen) = flag();
    let custom: Box<dyn FnOnce() + Send> = Box::new(move || {
        custom_ran.store(true, Ordering::SeqCst);
    });
    let fallback: Box<dyn FnOnce() + Send> = Box::new(move || {
        default_ran.store(true, Ordering::SeqCst);
    });
    let run = run_blocking(&runtime, Some(custom), fallback, || {}, || {});
    assert!(custom_seen.load(Ordering::SeqCst));
    assert!(!default_seen.load(Ordering::SeqCst));
    assert_eq!(run.steps[0], SyncStep::StartRenderer(RendererChoice::Custom));
    assert_eq!(run.ending, Ending::Returned);
}

#[test]
fn blocking_run_starts_the_default_renderer_when_none_is_given() {
    let runtime = runtime();
    let (default_ran, default_seen) = flag();
    let fallback: Box<dyn FnOnce() + Send> = Box::new(move || {
        default_ran.store(true, Ordering::SeqCst);
    });
    let run = run_blocking(&runtime, None, fallback, || {}, || {});
    assert!(default_seen.load(Ordering::SeqCst));
    assert_eq!(run.steps[0], SyncStep::StartRenderer(RendererChoice::Default));
    assert_eq!(run.ending, Ending::Returned);
}

#[test]
fn blocking_run_raises_the_fault_of_the_task() {
    let runtime = runtime();
    let (last_frame, seen) = flag();
    let run = run_blocking(
        &runtime,
        None,
        move || {
            pause(150);
            last_frame.store(true, Ordering::SeqCst);
        },
        || panic!("the task failed"),
        || {},
    );
    assert_eq!(run.ending, Ending::TaskFault);
    assert!(seen.load(Ordering::SeqCst));
    assert_eq!(run.steps[run.steps.len() - 2], SyncStep::JoinRenderer);
}

#[test]
fn blocking_run_does_not_hang_on_a_faulting_renderer() {
    let runtime = runtime();
    let (task_done, seen) = flag();
    let run = run_blocking(
        &runtime,
        Some((|| panic!("the renderer failed")) as fn()),
        (|| {}) as fn(),
        move || task_done.store(true, Ordering::SeqCst),
        || {},
    );
    assert_eq!(run.ending, Ending::RendererFault);
    assert!(seen.load(Ordering::SeqCst));
}

#[test]
fn hundred_blocking_runs_never_see_the_signal_early() {
    let runtime = runtime();
    let completions = Arc::new(AtomicUsize::new(0));
    for round in 0..100 {
        let counter = Arc::clone(&completions);
        let observed = Arc::clone(&completions);
        let run = run_blocking(
            &runtime,
            None,
            move || {
                pause(1);
                counter.fetch_add(1, Ordering::SeqCst);
            },
            || {},
            move || assert_eq!(observed.load(Ordering::SeqCst), round + 1),
        );
        assert_eq!(run.ending, Ending::Returned);
        assert_eq!(completions.load(Ordering::SeqCst), round + 1);
    }
}
