use skadi::supervisor::Action;
use skadi::supervisor::Adapter;
use skadi::supervisor::Signal;
use skadi::supervisor::Supervisor;

fn line(adapter: Adapter, text: &str) -> Signal {
    Signal::Envelope(adapter, text.to_string())
}

fn write(text: &str) -> Action {
    Action::Write(text.to_string())
}

fn run(signals: Vec<Signal>) -> (Supervisor, Vec<Action>) {
    let mut supervisor = Supervisor::new();
    let mut actions = Vec::new();
    for signal in signals {
        actions.push(supervisor.step(signal));
    }
    (supervisor, actions)
}

#[test]
fn a_new_supervisor_is_running() {
    assert_eq!(Supervisor::new(), Supervisor::Running);
    assert!(Supervisor::new().is_running());
    assert!(!Supervisor::Stopped(Adapter::Audio).is_running());
}

#[test]
fn lines_are_written_in_the_order_of_arrival() {
    let (supervisor, actions) = run(vec![
        line(Adapter::Metrics, "a"),
        line(Adapter::Media, "b"),
        line(Adapter::Metrics, "c"),
        line(Adapter::Audio, "d"),
    ]);
    assert_eq!(actions, vec![write("a"), write("b"), write("c"), write("d")]);
    assert_eq!(supervisor, Supervisor::Running);
}

#[test]
fn the_first_adapter_to_end_ends_the_process() {
    let (supervisor, actions) = run(vec![
        line(Adapter::Metrics, "a"),
        Signal::Finished(Adapter::WindowManager),
        line(Adapter::Media, "b"),
        Signal::Finished(Adapter::Media),
        line(Adapter::Audio, "c"),
    ]);
    assert_eq!(
        actions,
        vec![write("a"), Action::Exit, Action::Ignore, Action::Ignore, Action::Ignore]
    );
    assert_eq!(supervisor, Supervisor::Stopped(Adapter::WindowManager));
}

#[test]
fn the_process_ends_exactly_once() {
    let adapters = [Adapter::Metrics, Adapter::WindowManager, Adapter::Media, Adapter::Audio];
    for first in adapters {
        let mut signals = vec![line(Adapter::Metrics, "x"), Signal::Finished(first)];
        for other in adapters {
            signals.push(line(other, "late"));
            signals.push(Signal::Finished(other));
        }
        let (supervisor, actions) = run(signals);
        let exits = actions.iter().filter(|a| **a == Action::Exit).count();
        assert_eq!(exits, 1);
        assert_eq!(actions[1], Action::Exit);
        assert!(actions[2..].iter().all(|a| *a == Action::Ignore));
        assert_eq!(supervisor, Supervisor::Stopped(first));
    }
}

#[test]
fn an_adapter_that_ends_at_once_ends_the_process() {
    let (supervisor, actions) = run(vec![Signal::Finished(Adapter::Audio)]);
    assert_eq!(actions, vec![Action::Exit]);
    assert_eq!(supervisor, Supervisor::Stopped(Adapter::Audio));
}
