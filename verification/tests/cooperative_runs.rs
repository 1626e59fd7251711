use loading_screen::async_runner::{AsyncEvent, AsyncRunner, AsyncStep};
use loading_screen::outcome::{OutOfTurn, Outcome};
use loading_screen::renderer::{resolve_renderer, RendererChoice};
use std::future::{pending, ready};
use std::sync::atomic::{AtomicBool, Ordering};
use std::sync::mpsc::channel;
use std::sync::Arc;
use std::time::{Duration, Instant};
use tokio::runtime::{Builder, Runtime};

/// Parks the calling thread for `millis` milliseconds.
fn pause(millis: u64) {
    let (_sender, receiver) = channel::<()>();
    let _ = receiver.recv_timeout(Duration::from_millis(millis));
}

fn runtime() -> Runtime {
    Builder::new_multi_thread().worker_threads(4).build().unwrap()
}

fn flag() -> (Arc<AtomicBool>, Arc<AtomicBool>) {
    let flag = Arc::new(AtomicBool::new(false));
    (Arc::clone(&flag), flag)
}

#[derive(Debug, PartialEq)]
enum Ending {
    Returned,
    TaskFault,
}

struct Run {
    ending: Ending,
    steps: Vec<AsyncStep>,
}

/// Drives one cooperative run on `runtime`.
fn run_cooperative<R, F>(runtime: &Runtime, custom: Option<R>, fallback: R, task: F) -> Run
where
    R: FnOnce() + Send + 'static,
    F: FnOnce() + Send + 'static,
{
    runtime.block_on(async move {
        let mut runner = AsyncRunner::new(RendererChoice::of(&custom));
        let mut renderer = Some(resolve_renderer(custom, fallback));
        let mut task = Some(task);
        let mut renderer_handle = None;
        let mut task_handle = None;
        let mut steps = Vec::new();
        loop {
            let step = runner.pending();
            steps.push(step);
            let reported = match step {
                AsyncStep::ScheduleRenderer(_) => {
                    let call = renderer.take().unwrap();
                    renderer_handle = Some(tokio::spawn(async move { call() }));
                    runner.advance(AsyncEvent::Scheduled)
                }
                AsyncStep::ScheduleTask => {
                    let call = task.take().unwrap();
                    task_handle = Some(tokio::spawn(async move { call() }));
                    runner.advance(AsyncEvent::Scheduled)
                }
                AsyncStep::AwaitTask => {
                    let settled = task_handle.take().unwrap().await;
                    runner.advance(AsyncEvent::TaskSettled(Outcome::of(&settled)))
                }
                AsyncStep::CancelRenderer => {
                    runner.cancel_renderer(renderer_handle.as_ref().unwrap())
                }
                AsyncStep::Return => return Run { ending: Ending::Returned, steps },
                AsyncStep::RaiseTaskFault => return Run { ending: Ending::TaskFault, steps },
            };
            reported.unwrap();
        }
    })
}

#[test]
fn cooperative_run_resolves_after_the_task_and_before_the_renderer() {
    let runtime = runtime();
    let (task_done, task_seen) = flag();
    let (last_frame, renderer_seen) = flag();
    let began = Instant::now();
    let run = run_cooperative(
        &runtime,
        None,
        move || {
            pause(1500);
            last_frame.store(true, Ordering::SeqCst);
        },
        move || {
            pause(50);
            task_done.store(true, Ordering::SeqCst);
        },
    );
    let took = began.elapsed();
    assert!(task_seen.load(Ordering::SeqCst));
    assert!(!renderer_seen.load(Ordering::SeqCst));
    assert!(took >= Duration::from_millis(50));
    assert!(took < Duration::from_millis(1500));
    assert_eq!(run.ending, Ending::Returned);
    assert_eq!(
        run.steps,
        vec![
            AsyncStep::ScheduleRenderer(RendererChoice::Default),
            AsyncStep::ScheduleTask,
            AsyncStep::AwaitTask,
            AsyncStep::CancelRenderer,
            AsyncStep::Return,
        ]
    );
}

#[test]
fn cooperative_run_resolves_when_the_renderer_has_already_ended() {
    let runtime = runtime();
    let (task_done, task_seen) = flag();
    let (last_frame, renderer_seen) = flag();
    let run = run_cooperative(
        &runtime,
        None,
        move || last_frame.store(true, Ordering::SeqCst),
        move || {
            pause(100);
            task_done.store(true, Ordering::SeqCst);
        },
    );
    assert!(task_seen.load(Ordering::SeqCst));
    assert!(renderer_seen.load(Ordering::SeqCst));
    assert_eq!(run.ending, Ending::Returned);
}

#[test]
fn cooperative_run_schedules_the_custom_renderer_and_not_the_default() {
    let runtime = runtime();
    let (custom_ran, custom_seen) = flag();
    let (default_ran, default_seen) = flag();
    let custom: Box<dyn FnOnce() + Send> = Box::new(move || {
        custom_ran.store(true, Ordering::SeqCst);
    });
    let fallback: Box<dyn FnOnce() + Send> = Box::new(move || {
        default_ran.store(true, Ordering::SeqCst);
    });
    let run = run_cooperative(&runtime, Some(custom), fallback, || pause(50));
    assert!(custom_seen.load(Ordering::SeqCst));
    assert!(!default_seen.load(Ordering::SeqCst));
    assert_eq!(run.steps[0], AsyncStep::ScheduleRenderer(RendererChoice::Custom));
}

#[test]
fn cooperative_run_raises_the_fault_of_the_task() {
    let runtime = runtime();
    let run = run_cooperative(&runtime, None, || {}, || panic!("the task failed"));
    assert_eq!(run.ending, Ending::TaskFault);
    assert_eq!(run.steps[run.steps.len() - 2], AsyncStep::CancelRenderer);
}

fn runner_about_to_cancel() -> AsyncRunner {
    let mut runner = AsyncRunner::new(RendererChoice::Default);
    runner.advance(AsyncEvent::Scheduled).unwrap();
    runner.advance(AsyncEvent::Scheduled).unwrap();
    runner.advance(AsyncEvent::TaskSettled(Outcome::Completed)).unwrap();
    runner
}

#[test]
fn cancel_renderer_cancels_a_task_that_would_never_end() {
    let runtime = runtime();
    let endless = runtime.spawn(pending::<()>());
    let mut runner = runner_about_to_cancel();
    assert_eq!(runner.cancel_renderer(&endless), Ok(AsyncStep::Return));
    assert!(runner.is_finished());
    let joined = runtime.block_on(endless);
    assert!(joined.unwrap_err().is_cancelled());
}

#[test]
fn cancel_renderer_accepts_a_task_that_has_already_ended() {
    let runtime = runtime();
    let ended = runtime.spawn(ready(()));
    pause(50);
    let mut runner = runner_about_to_cancel();
    assert_eq!(runner.cancel_renderer(&ended), Ok(AsyncStep::Return));
    assert!(runtime.block_on(ended).is_ok());
}

#[test]
fn cancel_renderer_reports_the_fault_of_the_task_as_next_step() {
    let runtime = runtime();
    let endless = runtime.spawn(pending::<()>());
    let mut runner = AsyncRunner::new(RendererChoice::Custom);
    runner.advance(AsyncEvent::Scheduled).unwrap();
    runner.advance(AsyncEvent::Scheduled).unwrap();
    runner.advance(AsyncEvent::TaskSettled(Outcome::Faulted)).unwrap();
    assert_eq!(runner.cancel_renderer(&endless), Ok(AsyncStep::RaiseTaskFault));
    assert!(runtime.block_on(endless).unwrap_err().is_cancelled());
}

#[test]
fn cancel_renderer_out_of_turn_leaves_the_task_alone() {
    let runtime = runtime();
    let (sender, receiver) = channel::<()>();
    let waiting = runtime.spawn_blocking(move || receiver.recv().is_ok());
    let mut runner = AsyncRunner::new(RendererChoice::Default);
    assert_eq!(runner.cancel_renderer(&waiting), Err(OutOfTurn));
    runner.advance(AsyncEvent::Scheduled).unwrap();
    assert_eq!(runner.cancel_renderer(&waiting), Err(OutOfTurn));
    runner.advance(AsyncEvent::Scheduled).unwrap();
    assert_eq!(runner.cancel_renderer(&waiting), Err(OutOfTurn));
    assert_eq!(runner.pending(), AsyncStep::AwaitTask);
    sender.send(()).unwrap();
    assert_eq!(runtime.block_on(waiting).unwrap(), true);
}

#[test]
fn cancel_renderer_is_refused_once_the_run_has_finished() {
    let runtime = runtime();
    let ended = runtime.spawn(ready(()));
    let mut runner = runner_about_to_cancel();
    runner.advance(AsyncEvent::CancelRequested).unwrap();
    assert_eq!(runner.cancel_renderer(&ended), Err(OutOfTurn));
    assert!(runner.is_finished());
}
