//! More of what the chips do with what they are told: the edges of each
//! action and of each answer.

use chips::api::{Answer, Command, Entry, Place, Request};
use chips::state::{Asked, Chips, Effect, Panel, Warning, SHOWN_COMMAND};

/// Runs an action, giving each request the next ticket; the requests with
/// their tickets are handed back.
fn run(chips: &mut Chips, next: &mut i32, action: &str, argument: &str) -> Vec<(i32, Request)> {
    let effects = chips.run(action, argument);
    perform(chips, next, effects)
}

fn perform(chips: &mut Chips, next: &mut i32, effects: Vec<Effect>) -> Vec<(i32, Request)> {
    let mut requests = Vec::new();
    for effect in effects {
        if let Effect::Ask { asked, request } = effect {
            *next += 1;
            let _ = chips.issued(asked, Some(*next));
            requests.push((*next, request));
        }
    }
    requests
}

fn here(directory: &str, branch: Option<&str>) -> Place {
    Place {
        directory: String::from(directory),
        branch: branch.map(String::from),
        worktree: false,
    }
}

#[test]
fn dismissing_shuts_the_panel_and_asks_nothing() {
    let mut chips = Chips::new();
    let mut next = 0;
    chips.place = Some(here("/srv", None));
    run(&mut chips, &mut next, "open-directory", "");
    assert_eq!(chips.panel, Panel::Directory);

    let asked = run(&mut chips, &mut next, "dismiss", "");

    assert_eq!(chips.panel, Panel::Closed);
    assert!(asked.is_empty());
}

#[test]
fn the_branch_picker_opens_outside_a_directory_but_asks_nothing() {
    let mut chips = Chips::new();
    let mut next = 0;
    chips.branches = vec![String::from("stale")];

    let asked = run(&mut chips, &mut next, "open-branch", "");

    assert_eq!(chips.panel, Panel::Branch);
    assert!(chips.branches.is_empty());
    assert!(asked.is_empty());
}

#[test]
fn opening_the_directory_picker_before_the_pane_has_said_lists_nothing_in_particular() {
    let mut chips = Chips::new();
    let mut next = 0;
    chips.entries = vec![Entry { name: String::from("old"), directory: true }];

    let asked = run(&mut chips, &mut next, "open-directory", "");

    assert_eq!(chips.browsing, "");
    assert!(chips.entries.is_empty());
    assert_eq!(asked.len(), 1);
    assert_eq!(asked[0].1, Request::List { path: String::new() });
}

#[test]
fn the_keys_chip_runs_a_command_it_is_handed() {
    let mut chips = Chips::new();
    let mut next = 0;

    let asked = run(&mut chips, &mut next, "run-command", "crook/window/close-pane");

    assert_eq!(
        asked[0].1,
        Request::Run { name: String::from("crook/window/close-pane"), argument: String::new() }
    );
}

#[test]
fn rebinding_nothing_asks_for_nothing() {
    let mut chips = Chips::new();
    let mut next = 0;

    assert!(run(&mut chips, &mut next, "rebind", "").is_empty());
}

#[test]
fn any_action_takes_away_the_trouble_shown() {
    let mut chips = Chips::new();
    let mut next = 0;
    chips.trouble = Some(String::from("Not allowed to: anything"));

    let asked = run(&mut chips, &mut next, "no-such-action", "x");

    assert_eq!(chips.trouble, None);
    assert!(asked.is_empty());
}

#[test]
fn a_tick_changes_nothing_it_knows() {
    let mut chips = Chips::new();
    chips.place = Some(here("/srv", Some("main")));
    chips.added = 4;

    let effects = chips.tick();

    assert_eq!(effects.len(), 2);
    assert_eq!(effects[1], Effect::SetTimer(2000));
    assert_eq!(chips.place, Some(here("/srv", Some("main"))));
    assert_eq!(chips.added, 4);
}

#[test]
fn building_registers_seven_actions_none_of_them_offered_with_a_title() {
    let mut chips = Chips::new();

    let effects = chips.build();

    let names: Vec<String> = effects
        .iter()
        .filter_map(|e| match e {
            Effect::Register(a) => {
                assert_eq!(a.title, None);
                Some(a.name.clone())
            }
            _ => None,
        })
        .collect();
    assert_eq!(
        names,
        [
            "open-directory",
            "open-branch",
            "choose-directory",
            "choose-branch",
            "run-command",
            "rebind",
            "dismiss"
        ]
    );
    assert_eq!(effects.len(), 14);
}

#[test]
fn an_answer_nobody_waits_for_changes_nothing() {
    let mut chips = Chips::new();

    chips.deliver(42, Answer::Failed(String::from("boom")));

    assert_eq!(chips.trouble, None);
}

#[test]
fn a_ticket_the_host_would_not_take_is_not_waited_on() {
    let mut chips = Chips::new();
    let effects = chips.run("open-directory", "");
    for effect in effects {
        if let Effect::Ask { asked, .. } = effect {
            let _ = chips.issued(asked, None);
        }
    }

    chips.deliver(1, Answer::Listed(vec![Entry { name: String::from("a"), directory: true }]));

    assert!(chips.entries.is_empty());
}

#[test]
fn an_answer_is_used_once() {
    let mut chips = Chips::new();
    let mut next = 0;
    let asked = run(&mut chips, &mut next, "open-directory", "");
    let ticket = asked[0].0;

    chips.deliver(ticket, Answer::Listed(vec![Entry { name: String::from("a"), directory: true }]));
    chips.deliver(ticket, Answer::Listed(vec![Entry { name: String::from("b"), directory: true }]));

    let names: Vec<&str> = chips.entries.iter().map(|e| e.name.as_str()).collect();
    assert_eq!(names, ["a"]);
}

#[test]
fn an_answer_of_the_wrong_kind_is_not_used() {
    let mut chips = Chips::new();
    let mut next = 0;
    let asked = run(&mut chips, &mut next, "open-directory", "");

    chips.deliver(
        asked[0].0,
        Answer::Where { place: Some(here("/elsewhere", None)), home: None, added: 1, removed: 1 },
    );

    assert_eq!(chips.place, None);
    assert_eq!(chips.added, 0);
}

#[test]
fn an_answer_goes_to_its_own_question() {
    let mut chips = Chips::new();
    chips.issued(Asked::Repository, Some(7));
    chips.issued(Asked::Commands, Some(8));

    chips.deliver(
        8,
        Answer::Commands(vec![Command {
            name: String::from(SHOWN_COMMAND),
            title: String::from("New agent tab"),
            chord: None,
        }]),
    );
    chips.deliver(
        7,
        Answer::Repository { head: Some(String::from("main")), branches: vec![String::from("main")] },
    );

    assert_eq!(chips.commands.len(), 1);
    assert_eq!(chips.head.as_deref(), Some("main"));
    assert_eq!(chips.branches, [String::from("main")]);
}

#[test]
fn a_failure_is_kept_in_the_hosts_own_words() {
    let mut chips = Chips::new();
    chips.issued(Asked::Deed, Some(3));

    chips.deliver(3, Answer::Failed(String::from("git: no such branch")));

    assert_eq!(chips.trouble.as_deref(), Some("git: no such branch"));
}

#[test]
fn a_deed_that_was_done_changes_nothing() {
    let mut chips = Chips::new();
    chips.issued(Asked::Deed, Some(3));

    chips.deliver(3, Answer::Done);

    assert_eq!(chips.trouble, None);
    assert_eq!(chips.panel, Panel::Closed);
}

#[test]
fn where_the_pane_is_is_kept_with_the_line_counts() {
    let mut chips = Chips::new();
    chips.issued(Asked::Where, Some(1));

    chips.deliver(
        1,
        Answer::Where {
            place: Some(here("/srv/app", Some("main"))),
            home: Some(String::from("/home/eugen")),
            added: 12,
            removed: 3,
        },
    );

    assert_eq!(chips.directory(), Some("/srv/app"));
    assert_eq!(chips.branch(), Some("main"));
    assert_eq!(chips.home.as_deref(), Some("/home/eugen"));
    assert_eq!((chips.added, chips.removed), (12, 3));
}

#[test]
fn a_pane_outside_a_repository_has_no_branch() {
    let mut chips = Chips::new();
    assert_eq!(chips.directory(), None);
    assert_eq!(chips.branch(), None);

    chips.place = Some(here("/tmp", None));

    assert_eq!(chips.directory(), Some("/tmp"));
    assert_eq!(chips.branch(), None);
}

#[test]
fn the_first_command_of_that_name_is_the_one_shown() {
    let mut chips = Chips::new();
    assert!(chips.shown_command().is_none());
    chips.commands = vec![
        Command { name: String::from(SHOWN_COMMAND), title: String::from("First"), chord: None },
        Command { name: String::from(SHOWN_COMMAND), title: String::from("Second"), chord: None },
    ];

    assert_eq!(chips.shown_command().map(|c| c.title.as_str()), Some("First"));
}

#[test]
fn an_action_with_nothing_to_do_says_so_in_the_log() {
    let mut chips = Chips::new();

    let effects = chips.run("choose-directory", "");
    assert_eq!(
        effects,
        [Effect::Warn(Warning::NothingToDo { action: String::from("choose-directory") })]
    );

    let effects = chips.run("no-such-action", "x");
    assert_eq!(
        effects,
        [Effect::Warn(Warning::NothingToDo { action: String::from("no-such-action") })]
    );
}

#[test]
fn an_answer_that_does_not_answer_the_question_is_logged() {
    let mut chips = Chips::new();
    let _ = chips.issued(Asked::Where, Some(5));

    let effects = chips.deliver(5, Answer::Done);

    assert_eq!(
        effects,
        [Effect::Warn(Warning::AnsweredOtherwise { asked: Asked::Where, answer: Answer::Done })]
    );
}

#[test]
fn an_answer_that_fits_or_goes_to_nobody_is_not_logged() {
    let mut chips = Chips::new();
    let _ = chips.issued(Asked::Deed, Some(5));

    assert!(chips.deliver(5, Answer::Done).is_empty());
    assert!(chips.deliver(5, Answer::Done).is_empty());
    let _ = chips.issued(Asked::List, Some(6));
    assert!(chips.deliver(6, Answer::Refused(String::from("x"))).is_empty());
}

#[test]
fn a_request_the_host_would_not_take_is_logged() {
    let mut chips = Chips::new();

    assert_eq!(chips.issued(Asked::Where, None), [Effect::Warn(Warning::NotTaken)]);
    assert!(chips.issued(Asked::Where, Some(1)).is_empty());
}
