//! The sentence and the keys of every capability.

use chips::api::{fill_holes, Capability};

fn list(items: &[&str]) -> Vec<String> {
    items.iter().map(|s| String::from(*s)).collect()
}

#[test]
fn every_capability_has_its_sentence() {
    let cases = [
        (Capability::ReadSettings, "Read your settings"),
        (Capability::ReadTabs, "See what your tabs are called"),
        (Capability::ReadWorkingDirectory, "See which project each tab is in"),
        (Capability::Network(list(&["api.github.com", "example.org"])), "Reach api.github.com, example.org"),
        (Capability::Clipboard, "Read and change your clipboard"),
        (Capability::Storage, "Keep notes of its own between sessions"),
        (Capability::ReadFiles(list(&["~/.config/x"])), "Read ~/.config/x"),
        (Capability::ListDirectories(list(&["~", "/srv"])), "See the names of the files in ~, /srv"),
        (Capability::TypeCommands(list(&["make {}"])), "Type into your shell, and run: make …"),
        (Capability::RunCommands(list(&["a", "b", "c"])), "Use Crook's own a, b, c"),
        (Capability::ReadCommands, "See what Crook can be asked to do, and the keys for it"),
    ];
    for (capability, sentence) in cases {
        assert_eq!(capability.sentence(), sentence);
    }
}

#[test]
fn an_empty_list_is_a_sentence_with_nothing_after_it() {
    assert_eq!(Capability::Network(Vec::new()).sentence(), "Reach ");
}

#[test]
fn every_capability_has_one_key_per_thing_granted() {
    let cases = [
        (Capability::ReadSettings, list(&["settings.read"])),
        (Capability::ReadTabs, list(&["tabs.read"])),
        (Capability::ReadWorkingDirectory, list(&["cwd.read"])),
        (Capability::Network(list(&["a.com", "b.com"])), list(&["net:a.com", "net:b.com"])),
        (Capability::Clipboard, list(&["clipboard"])),
        (Capability::Storage, list(&["storage"])),
        (Capability::ReadFiles(list(&["/etc/x"])), list(&["file:/etc/x"])),
        (Capability::ListDirectories(list(&["~"])), list(&["list:~"])),
        (Capability::TypeCommands(list(&["cd {}"])), list(&["type:cd {}"])),
        (Capability::RunCommands(list(&["x", "y"])), list(&["run:x", "run:y"])),
        (Capability::ReadCommands, list(&["commands.read"])),
        (Capability::Network(Vec::new()), Vec::new()),
    ];
    for (capability, keys) in cases {
        assert_eq!(capability.keys(), keys);
    }
}

#[test]
fn every_hole_of_a_template_is_written_as_an_ellipsis() {
    assert_eq!(fill_holes("cd {}"), "cd …");
    assert_eq!(fill_holes("{}{}"), "……");
    assert_eq!(fill_holes("{{}}"), "{…}");
    assert_eq!(fill_holes("{ }"), "{ }");
    assert_eq!(fill_holes("{"), "{");
    assert_eq!(fill_holes(""), "");
}

#[test]
fn a_host_added_later_is_a_key_not_granted_before() {
    let before = Capability::Network(list(&["api.anthropic.com"])).keys();
    let after = Capability::Network(list(&["api.anthropic.com", "evil.example"])).keys();

    assert!(!before.contains(&String::from("net:evil.example")));
    assert_eq!(after[..before.len()], before[..]);
    assert_eq!(after.last().map(String::as_str), Some("net:evil.example"));
}
