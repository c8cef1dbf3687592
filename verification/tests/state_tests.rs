//! What the chips do when they are told things.
//!
//! A small host runs here: it performs what each step hands back, gives every
//! request a ticket, counting on from the last, and keeps what it was asked
//! so that a test can read it.

use chips::api::{Answer, Command, Entry, Place, Request};
use chips::state::{Chips, Effect, Panel, CD, REBIND, SHOWN_COMMAND, SLOT, SWITCH};

/// What the plugin asked of the host since it was last read.
#[derive(Default)]
struct Asked {
    contributions: Vec<(String, String, i32)>,
    requests: Vec<(i32, Request)>,
    timers: Vec<i32>,
}

/// The host side, as a test sees it.
#[derive(Default)]
struct Host {
    next_ticket: i32,
    asked: Asked,
}

impl Host {
    fn perform(&mut self, chips: &mut Chips, effects: Vec<Effect>) {
        for effect in effects {
            match effect {
                Effect::Contribute(c) => self.asked.contributions.push((c.slot, c.entry, c.order)),
                Effect::Register(_) => {}
                Effect::Ask { asked, request } => {
                    self.next_ticket += 1;
                    let ticket = self.next_ticket;
                    self.asked.requests.push((ticket, request));
                    let _ = chips.issued(asked, Some(ticket));
                }
                Effect::SetTimer(ms) => self.asked.timers.push(ms),
                Effect::Warn(_) => {}
            }
        }
    }

    fn taken(&mut self) -> Asked {
        std::mem::take(&mut self.asked)
    }
}

fn run(host: &mut Host, chips: &mut Chips, action: &str, argument: &str) {
    let effects = chips.run(action, argument);
    host.perform(chips, effects);
}

fn tick(host: &mut Host, chips: &mut Chips) {
    let effects = chips.tick();
    host.perform(chips, effects);
}

/// The directory these tests pretend the pane is in.
fn somewhere() -> Place {
    Place {
        directory: String::from("/home/eugen/Work/crook"),
        branch: None,
        worktree: false,
    }
}

/// A plugin that has been built, with everything it asked for thrown away.
fn built(host: &mut Host) -> Chips {
    let mut chips = Chips::new();
    let effects = chips.build();
    host.perform(&mut chips, effects);
    let _ = host.taken();
    chips
}

/// Answers the last thing asked for, as the host would.
fn answer(host: &mut Host, chips: &mut Chips, answer: Answer) {
    let asked = host.taken();
    let (ticket, _) = asked
        .requests
        .last()
        .expect("something should have been asked");
    let _ = chips.deliver(*ticket, answer);
}

#[test]
fn building_registers_the_four_chips_and_asks_where_it_is() {
    let mut host = Host::default();
    let mut chips = Chips::new();
    let effects = chips.build();
    host.perform(&mut chips, effects);
    let asked = host.taken();

    let entries: Vec<&str> = asked
        .contributions
        .iter()
        .map(|(slot, entry, _)| {
            assert_eq!(slot, SLOT);
            entry.as_str()
        })
        .collect();
    assert_eq!(entries, ["directory", "branch", "diff", "keys"]);

    let requests: Vec<&Request> = asked.requests.iter().map(|(_, request)| request).collect();
    assert_eq!(requests, [&Request::Where, &Request::Commands]);
    assert_eq!(asked.timers, [2_000], "it has to keep asking");
}

#[test]
fn opening_the_directory_picker_lists_the_directory_the_pane_is_in() {
    let mut host = Host::default();
    let mut chips = built(&mut host);
    chips.place = Some(somewhere());

    run(&mut host, &mut chips, "open-directory", "");

    assert_eq!(chips.panel, Panel::Directory);
    let asked = host.taken();
    assert_eq!(
        asked.requests.last().map(|(_, request)| request),
        Some(&Request::List {
            path: String::from("/home/eugen/Work/crook")
        })
    );
}

#[test]
fn the_branch_picker_shuts_when_the_pane_moves_to_another_directory() {
    let mut host = Host::default();
    let mut chips = built(&mut host);
    chips.place = Some(somewhere());
    run(&mut host, &mut chips, "open-branch", "");
    answer(
        &mut host,
        &mut chips,
        Answer::Repository {
            head: Some(String::from("main")),
            branches: vec![String::from("main"), String::from("old-work")],
        },
    );
    assert_eq!(chips.panel, Panel::Branch);

    tick(&mut host, &mut chips);
    answer(
        &mut host,
        &mut chips,
        Answer::Where {
            place: Some(Place {
                directory: String::from("/home/eugen/Work/elsewhere"),
                branch: Some(String::from("trunk")),
                worktree: false,
            }),
            home: None,
            added: 0,
            removed: 0,
        },
    );

    assert_eq!(chips.panel, Panel::Closed);
}

#[test]
fn the_branch_picker_stays_up_while_the_pane_stays_put() {
    let mut host = Host::default();
    let mut chips = built(&mut host);
    chips.place = Some(somewhere());
    run(&mut host, &mut chips, "open-branch", "");
    let _ = host.taken();

    tick(&mut host, &mut chips);
    answer(
        &mut host,
        &mut chips,
        Answer::Where {
            place: Some(somewhere()),
            home: None,
            added: 0,
            removed: 0,
        },
    );

    assert_eq!(chips.panel, Panel::Branch);
}

#[test]
fn a_listing_keeps_the_directories_and_drops_the_files() {
    let mut host = Host::default();
    let mut chips = built(&mut host);
    run(&mut host, &mut chips, "open-directory", "");
    answer(
        &mut host,
        &mut chips,
        Answer::Listed(vec![
            Entry {
                name: String::from("app"),
                directory: true,
            },
            Entry {
                name: String::from("Cargo.toml"),
                directory: false,
            },
        ]),
    );

    let names: Vec<&str> = chips
        .entries
        .iter()
        .map(|entry| entry.name.as_str())
        .collect();
    assert_eq!(names, ["app"]);
}

#[test]
fn choosing_a_directory_types_a_cd_and_shuts_the_panel() {
    let mut host = Host::default();
    let mut chips = built(&mut host);
    run(&mut host, &mut chips, "open-directory", "");
    let _ = host.taken();

    run(&mut host, &mut chips, "choose-directory", "/home/eugen/Work/crook/app");

    assert_eq!(chips.panel, Panel::Closed);
    let asked = host.taken();
    assert_eq!(
        asked.requests.last().map(|(_, request)| request),
        Some(&Request::Type {
            template: String::from(CD),
            argument: String::from("/home/eugen/Work/crook/app"),
        }),
        "it types the granted template and nothing else"
    );
}

#[test]
fn choosing_a_branch_switches_to_it() {
    let mut host = Host::default();
    let mut chips = built(&mut host);
    chips.place = Some(Place {
        branch: Some(String::from("main")),
        ..somewhere()
    });
    run(&mut host, &mut chips, "open-branch", "");
    let _ = host.taken();

    run(&mut host, &mut chips, "choose-branch", "pirate-ext");

    assert_eq!(chips.panel, Panel::Closed);
    let asked = host.taken();
    assert_eq!(
        asked.requests.last().map(|(_, request)| request),
        Some(&Request::Type {
            template: String::from(SWITCH),
            argument: String::from("pirate-ext"),
        })
    );
}

#[test]
fn an_action_with_nothing_to_say_asks_for_nothing() {
    let mut host = Host::default();
    let mut chips = built(&mut host);

    run(&mut host, &mut chips, "choose-directory", "");
    run(&mut host, &mut chips, "choose-branch", "");

    assert!(host.taken().requests.is_empty());
}

#[test]
fn the_keys_chip_runs_the_command_it_stands_for() {
    let mut host = Host::default();
    let mut chips = built(&mut host);

    run(&mut host, &mut chips, "run-command", "");

    let asked = host.taken();
    assert_eq!(
        asked.requests.last().map(|(_, request)| request),
        Some(&Request::Run {
            name: String::from(SHOWN_COMMAND),
            argument: String::new(),
        })
    );
}

#[test]
fn its_menu_asks_crook_to_record_a_new_chord_for_that_command() {
    let mut host = Host::default();
    let mut chips = built(&mut host);

    run(&mut host, &mut chips, "rebind", SHOWN_COMMAND);

    let asked = host.taken();
    assert_eq!(
        asked.requests.last().map(|(_, request)| request),
        Some(&Request::Run {
            name: String::from(REBIND),
            argument: String::from(SHOWN_COMMAND),
        })
    );
}

#[test]
fn a_refusal_is_kept_where_a_person_will_read_it() {
    let mut host = Host::default();
    let mut chips = built(&mut host);
    run(&mut host, &mut chips, "open-directory", "");
    answer(
        &mut host,
        &mut chips,
        Answer::Refused(String::from("See the names of the files in ~")),
    );

    assert_eq!(
        chips.trouble.as_deref(),
        Some("Not allowed to: See the names of the files in ~")
    );
}

#[test]
fn the_panel_shuts_when_the_pane_moves_out_from_under_it() {
    let mut host = Host::default();
    let mut chips = built(&mut host);
    chips.place = Some(somewhere());
    run(&mut host, &mut chips, "open-directory", "");
    let _ = host.taken();

    tick(&mut host, &mut chips);
    answer(
        &mut host,
        &mut chips,
        Answer::Where {
            place: Some(Place {
                directory: String::from("/home/eugen/Work"),
                branch: None,
                worktree: false,
            }),
            home: None,
            added: 0,
            removed: 0,
        },
    );

    assert_eq!(chips.panel, Panel::Closed);
}

#[test]
fn a_tick_asks_again_and_goes_back_to_waiting() {
    let mut host = Host::default();
    let mut chips = built(&mut host);

    tick(&mut host, &mut chips);

    let asked = host.taken();
    assert_eq!(
        asked.requests.last().map(|(_, request)| request),
        Some(&Request::Where)
    );
    assert_eq!(asked.timers, [2_000]);
}

#[test]
fn the_chip_that_prints_a_chord_finds_its_command_by_name() {
    let mut host = Host::default();
    let mut chips = built(&mut host);
    chips.commands = vec![
        Command {
            name: String::from("crook/window/close-pane"),
            title: String::from("Close the focused pane"),
            chord: Some(String::from("ctrl+shift+w")),
        },
        Command {
            name: String::from(SHOWN_COMMAND),
            title: String::from("New agent tab"),
            chord: Some(String::from("ctrl+shift+t")),
        },
    ];

    let shown = chips.shown_command().expect("it should find it");

    assert_eq!(shown.title, "New agent tab");
    assert_eq!(shown.chord.as_deref(), Some("ctrl+shift+t"));
}
