//! Sessions of the multiplexer: the window layout a new session receives.
use vstd::prelude::*;
use crate::config::WindowConfig;
use crate::plan::{steps_view, warn_step, Action, ActionView, OnFailure, PolicyView, Step, StepView};

verus! {

/// The target naming a window of a session: `<session>:<window>`.
pub open spec fn window_target_of(session: Seq<char>, window: Seq<char>) -> Seq<char> {
    session + seq![':'] + window
}

/// The target naming the window `window` of `session`.
pub fn window_target(session: &str, window: &str) -> (r: String)
    ensures
        r@ == window_target_of(session@, window@),
{
    let sep = ":";
    proof {
        reveal_strlit(":");
    }
    String::from_str(session).concat(sep).concat(window)
}

/// The command typed into the window `target`, if there is one; a failure
/// only warns.
pub open spec fn keys_for(target: Seq<char>, command: Option<String>) -> Seq<StepView> {
    match command {
        Some(c) => seq![warn_step(ActionView::SendKeys(target, c@))],
        None => seq![],
    }
}

/// The policy of the step that makes or names a window: a failure warns, and
/// the window's command, if it has one, is then not typed.
pub open spec fn window_policy(command: Option<String>) -> PolicyView {
    match command {
        Some(_) => PolicyView::WarnAndSkip(1),
        None => PolicyView::Warn,
    }
}

/// The steps that create the windows after the first, among the first `n`
/// windows: each is created by name in `dir`, and its command, if any, typed
/// into it once it exists.
pub open spec fn later_windows(
    session: Seq<char>,
    dir: Seq<char>,
    windows: Seq<WindowConfig>,
    n: nat,
) -> Seq<StepView>
    decreases n,
{
    if n <= 1 {
        seq![]
    } else {
        let w = windows[n - 1];
        later_windows(session, dir, windows, (n - 1) as nat) + seq![
            StepView {
                action: ActionView::NewWindow(session, w.name@, dir),
                on_failure: window_policy(w.command),
            },
        ] + keys_for(window_target_of(session, w.name@), w.command)
    }
}

/// The layout of a new session: with no windows configured, nothing (the
/// session keeps its default window). Otherwise the default window is renamed
/// to the first name and receives the first command, if any; the other windows
/// are created in order with their commands; and the first window is focused.
/// Every failure only warns, and a window that could not be made or named
/// receives no command.
pub open spec fn window_steps_of(session: Seq<char>, dir: Seq<char>, windows: Seq<WindowConfig>) -> Seq<
    StepView,
> {
    if windows.len() == 0 {
        seq![]
    } else {
        let first = windows[0];
        let target = window_target_of(session, first.name@);
        seq![
            StepView {
                action: ActionView::RenameWindow(session, first.name@),
                on_failure: window_policy(first.command),
            },
        ] + keys_for(target, first.command) + later_windows(session, dir, windows, windows.len())
            + seq![warn_step(ActionView::SelectWindow(target))]
    }
}

/// Appends the step that makes or names a window, with `window_policy`.
fn push_window_step(out: &mut Vec<Step>, action: Action, command: &Option<String>)
    ensures
        steps_view(final(out)@) == steps_view(old(out)@).push(
            StepView { action: action@, on_failure: window_policy(*command) },
        ),
{
    let ghost before = steps_view(out@);
    let on_failure = match command {
        Some(_) => OnFailure::WarnAndSkip(1),
        None => OnFailure::Warn,
    };
    let ghost av = action@;
    out.push(Step { action, on_failure });
    assert(steps_view(out@) =~= before.push(
        StepView { action: av, on_failure: window_policy(*command) },
    ));
}

/// Appends the command of a window, if any, as keys typed into `target`.
fn push_keys(out: &mut Vec<Step>, target: &String, command: &Option<String>)
    ensures
        steps_view(final(out)@) == steps_view(old(out)@) + keys_for(target@, *command),
{
    let ghost before = steps_view(out@);
    match command {
        Some(c) => {
            out.push(
                Step {
                    action: Action::SendKeys { target: target.clone(), keys: c.clone() },
                    on_failure: OnFailure::Warn,
                },
            );
        },
        None => {},
    }
    assert(steps_view(out@) =~= before + keys_for(target@, *command));
}

/// The steps that give the session `session`, rooted at `working_dir`, its
/// configured windows (see `window_steps_of`).
pub fn setup_windows(session: &str, working_dir: &str, windows: &Vec<WindowConfig>) -> (r: Vec<
    Step,
>)
    ensures
        steps_view(r@) == window_steps_of(session@, working_dir@, windows@),
{
    let mut out: Vec<Step> = Vec::new();
    if windows.len() == 0 {
        assert(steps_view(out@) =~= seq![]);
        return out;
    }
    let first = &windows[0];
    let target = window_target(session, first.name.as_str());
    assert(steps_view(out@) =~= seq![]);
    push_window_step(
        &mut out,
        Action::RenameWindow { session: String::from_str(session), name: first.name.clone() },
        &first.command,
    );
    push_keys(&mut out, &target, &first.command);
    let ghost head = steps_view(out@);
    assert(head =~= seq![
        StepView {
            action: ActionView::RenameWindow(session@, first.name@),
            on_failure: window_policy(first.command),
        },
    ] + keys_for(target@, first.command));
    let mut i: usize = 1;
    while i < windows.len()
        invariant
            1 <= i <= windows.len(),
            steps_view(out@) == head + later_windows(session@, working_dir@, windows@, i as nat),
        decreases windows.len() - i,
    {
        let w = &windows[i];
        push_window_step(
            &mut out,
            Action::NewWindow {
                session: String::from_str(session),
                name: w.name.clone(),
                dir: String::from_str(working_dir),
            },
            &w.command,
        );
        let wt = window_target(session, w.name.as_str());
        push_keys(&mut out, &wt, &w.command);
        assert(steps_view(out@) =~= head + later_windows(
            session@,
            working_dir@,
            windows@,
            (i + 1) as nat,
        ));
        i = i + 1;
    }
    let ghost before = steps_view(out@);
    out.push(Step { action: Action::SelectWindow { target }, on_failure: OnFailure::Warn });
    assert(steps_view(out@) =~= before.push(
        warn_step(ActionView::SelectWindow(window_target_of(session@, first.name@))),
    ));
    assert(steps_view(out@) =~= window_steps_of(session@, working_dir@, windows@));
    out
}

} // verus!
