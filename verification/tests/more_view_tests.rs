//! More of what the chips draw, and of the path arithmetic under them.

use chips::api::{Command, Gap, Node, Place, Tone};
use chips::state::{Chips, Panel, SHOWN_COMMAND};
use chips::view::{chip, join, parent_of, render, shorten};

fn in_repository(added: u32, removed: u32) -> Chips {
    let mut chips = Chips::new();
    chips.place = Some(Place {
        directory: String::from("/srv/app"),
        branch: Some(String::from("main")),
        worktree: false,
    });
    chips.added = added;
    chips.removed = removed;
    chips
}

#[test]
fn the_diff_chip_writes_each_count_in_decimal() {
    let Node::Chip { text, .. } = chip(&in_repository(0, 5), "diff") else {
        panic!("something changed");
    };
    assert_eq!(text, "+0 −5");

    let Node::Chip { text, .. } = chip(&in_repository(u32::MAX, 1_000_000), "diff") else {
        panic!("something changed");
    };
    assert_eq!(text, "+4294967295 −1000000");
}

#[test]
fn the_diff_chip_is_absent_outside_a_repository() {
    let mut chips = in_repository(3, 4);
    chips.place = Some(Place { branch: None, ..chips.place.clone().unwrap() });

    assert_eq!(chip(&chips, "diff"), Node::Empty);
}

#[test]
fn the_branch_chip_names_the_branch() {
    let Node::Anchored { content, panel, dismiss } = chip(&in_repository(0, 0), "branch") else {
        panic!("the branch chip should hang a panel");
    };
    assert!(panel.is_none());
    assert_eq!(dismiss, "dismiss");
    assert_eq!(
        *content,
        Node::Pressable {
            content: Box::new(Node::Chip {
                icon: String::from("git-branch"),
                text: String::from("main"),
                tone: Tone::Success,
            }),
            action: String::from("open-branch"),
        }
    );
}

#[test]
fn an_unbound_command_says_it_has_no_keys() {
    let mut chips = Chips::new();
    chips.commands = vec![Command {
        name: String::from(SHOWN_COMMAND),
        title: String::from("NEW Agent Tab"),
        chord: None,
    }];

    let Node::Menu { content, .. } = chip(&chips, "keys") else {
        panic!("the keys chip should carry a menu");
    };
    let Node::Pressable { content, action } = *content else {
        panic!("and be pressable");
    };
    assert_eq!(action, "run-command");
    assert_eq!(
        *content,
        Node::Chip {
            icon: String::from("keyboard"),
            text: String::from("new agent tab  (no keys)"),
            tone: Tone::Muted,
        }
    );
}

#[test]
fn a_contribution_this_build_did_not_make_draws_nothing() {
    assert_eq!(chip(&in_repository(1, 1), "weather"), Node::Empty);
}

#[test]
fn an_open_panel_carries_the_trouble_under_it() {
    let mut chips = in_repository(0, 0);
    chips.panel = Panel::Branch;
    chips.branches = vec![String::from("main")];
    chips.trouble = Some(String::from("Not allowed to: See which project each tab is in"));

    let Node::Anchored { panel: Some(panel), .. } = chip(&chips, "branch") else {
        panic!("the panel should be up");
    };
    let Node::Column(parts) = *panel else {
        panic!("the panel should carry the trouble");
    };
    assert_eq!(parts.len(), 5);
    assert!(matches!(parts[0], Node::Picker { .. }));
    assert_eq!(parts[1], Node::Gap(Gap::Small));
    assert_eq!(parts[2], Node::Rule);
    assert_eq!(parts[3], Node::Gap(Gap::Small));
    assert_eq!(
        parts[4],
        Node::Note {
            text: String::from("Not allowed to: See which project each tab is in"),
            tone: Tone::Danger,
        }
    );
}

#[test]
fn the_directory_picker_at_the_root_has_no_way_up() {
    let mut chips = in_repository(0, 0);
    chips.panel = Panel::Directory;
    chips.browsing = String::from("/");
    chips.entries = vec![chips::api::Entry { name: String::from("srv"), directory: true }];

    let Node::Anchored { panel: Some(panel), .. } = chip(&chips, "directory") else {
        panic!("the panel should be up");
    };
    let Node::Picker { rows, placeholder, .. } = *panel else {
        panic!("the panel should be a picker");
    };
    assert_eq!(placeholder, "Search directories…");
    assert_eq!(rows.len(), 1);
    assert_eq!(rows[0].key, "/srv");
    assert_eq!(rows[0].label, "srv");
    assert_eq!(rows[0].icon, "folder");
}

#[test]
fn shortening_needs_a_home_to_shorten_to() {
    assert_eq!(shorten("/home/eugen/x", None), "/home/eugen/x");
    assert_eq!(shorten("/home/eugen/x", Some("")), "/home/eugen/x");
    assert_eq!(shorten("/home/eugen/", Some("/home/eugen")), "~/");
    assert_eq!(shorten("/home/eugen/Work/crook", Some("/home/eugen")), "~/Work/crook");
}

#[test]
fn the_way_up_sets_trailing_separators_aside() {
    assert_eq!(parent_of("/home/eugen/").as_deref(), Some("/home"));
    assert_eq!(parent_of("a/b").as_deref(), Some("a"));
    assert_eq!(parent_of("relative"), None);
    assert_eq!(parent_of("//"), None);
    assert_eq!(parent_of(""), None);
}

#[test]
fn joining_onto_nothing_or_a_trailing_separator() {
    assert_eq!(join("", "x"), "/x");
    assert_eq!(join("/a/", "b"), "/a/b");
}

#[test]
fn the_way_up_from_a_chosen_row_leads_back() {
    for (directory, name) in [("/", "home"), ("/home/eugen", "Work"), ("relative/dir", "x")] {
        assert_eq!(parent_of(&join(directory, name)).as_deref(), Some(directory));
    }
}

#[test]
fn home_is_written_short_only_at_a_separator() {
    for path in ["/home/eugen", "/home/eugen/a", "/home/eugenia", "/home/euge", "/elsewhere"] {
        let short = shorten(path, Some("/home/eugen"));
        if short != path {
            assert!(short == "~" || short.starts_with("~/"));
            assert_eq!(format!("/home/eugen{}", &short[1..]), path);
        }
    }
}

#[test]
fn a_slot_the_chips_do_not_contribute_to_draws_nothing() {
    let chips = in_repository(2, 1);

    assert_eq!(render(&chips, "pane.header", "diff"), Node::Empty);
    assert_eq!(render(&chips, "pane.chips", "diff"), chip(&chips, "diff"));
    assert_ne!(render(&chips, "pane.chips", "diff"), Node::Empty);
}
