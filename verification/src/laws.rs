//! What holds of the chips across every state, every action and every answer.
use vstd::prelude::*;

use crate::api::{AnswerView, CapabilityView, EntryView, Node, PlaceView, RequestView, Tone, keys_of};
use crate::state::{
    Asked, ChipsView, EffectView, Panel, CD, SWITCH, answered, built, delivered, moved, run_step,
    ticked, ticket_index, took, WarningView,
};
use crate::the_manifest;
use crate::view::{decimal, drawn, is_chip, joined, last_slash, parent, shortened, trimmed};

verus! {

proof fn lemma_ticket_absent(waiting: Seq<(i32, Asked)>, ticket: i32)
    requires
        forall|j: int| 0 <= j < waiting.len() ==> waiting[j].0 != ticket,
    ensures
        ticket_index(waiting, ticket) is None,
    decreases waiting.len(),
{
    if waiting.len() > 0 {
        let rest = waiting.drop_first();
        assert forall|j: int| 0 <= j < rest.len() implies rest[j].0 != ticket by {
            assert(rest[j] == waiting[j + 1]);
        }
        lemma_ticket_absent(rest, ticket);
    }
}

proof fn lemma_ticket_found(waiting: Seq<(i32, Asked)>, ticket: i32)
    ensures
        ticket_index(waiting, ticket) matches Some(i) ==> 0 <= i < waiting.len() && waiting[i].0
            == ticket && forall|j: int| 0 <= j < i ==> waiting[j].0 != ticket,
        ticket_index(waiting, ticket) is None ==> forall|j: int|
            0 <= j < waiting.len() ==> waiting[j].0 != ticket,
    decreases waiting.len(),
{
    if waiting.len() > 0 {
        let rest = waiting.drop_first();
        lemma_ticket_found(rest, ticket);
        if waiting[0].0 != ticket {
            assert forall|j: int| 1 <= j < waiting.len() implies #[trigger] waiting[j] == rest[j - 1] by {}
        }
    }
}

proof fn lemma_answered_keeps_waiting(s: ChipsView, asked: Asked, a: AnswerView)
    ensures
        answered(s, asked, a).waiting == s.waiting,
{
}

/// Every action first takes away the trouble the panel was showing.
pub proof fn law_an_action_clears_the_trouble(s: ChipsView, action: Seq<char>, argument: Seq<char>)
    ensures
        run_step(s, action, argument).0.trouble is None,
{
}

/// An action that needs an argument and is handed an empty one — as a chord
/// bound to it is — asks for nothing and changes nothing but the trouble
/// shown; it only says in the log that there was nothing to do.
pub proof fn law_nothing_to_say_asks_for_nothing(s: ChipsView, action: Seq<char>)
    requires
        action == "choose-directory"@ || action == "choose-branch"@ || action == "rebind"@,
    ensures
        run_step(s, action, Seq::empty()).1 == seq![
            EffectView::Warn(WarningView::NothingToDo { action }),
        ],
        run_step(s, action, Seq::empty()).0 == (ChipsView { trouble: None, ..s }),
{
    reveal_strlit("choose-directory");
    reveal_strlit("choose-branch");
    reveal_strlit("rebind");
    reveal_strlit("open-directory");
    reveal_strlit("open-branch");
    reveal_strlit("dismiss");
    reveal_strlit("run-command");
    assert("choose-directory"@ != "open-directory"@ && "choose-directory"@ != "open-branch"@
        && "choose-directory"@ != "dismiss"@ && "choose-directory"@ != "run-command"@
        && "choose-directory"@ != "choose-branch"@ && "choose-directory"@ != "rebind"@) by {
        assert("choose-directory"@[1] != "open-directory"@[1]);
        assert("choose-directory"@[1] != "open-branch"@[1]);
        assert("choose-directory"@.len() != "dismiss"@.len());
        assert("choose-directory"@.len() != "run-command"@.len());
        assert("choose-directory"@.len() != "choose-branch"@.len());
        assert("choose-directory"@.len() != "rebind"@.len());
    }
    assert("choose-branch"@ != "open-directory"@ && "choose-branch"@ != "open-branch"@
        && "choose-branch"@ != "dismiss"@ && "choose-branch"@ != "run-command"@
        && "choose-branch"@ != "rebind"@) by {
        assert("choose-branch"@[1] != "open-directory"@[1]);
        assert("choose-branch"@[1] != "open-branch"@[1]);
        assert("choose-branch"@.len() != "dismiss"@.len());
        assert("choose-branch"@[0] != "run-command"@[0]);
        assert("choose-branch"@.len() != "rebind"@.len());
    }
    assert("rebind"@ != "open-directory"@ && "rebind"@ != "open-branch"@ && "rebind"@
        != "dismiss"@ && "rebind"@ != "run-command"@) by {
        assert("rebind"@.len() != "open-directory"@.len());
        assert("rebind"@.len() != "open-branch"@.len());
        assert("rebind"@.len() != "dismiss"@.len());
        assert("rebind"@.len() != "run-command"@.len());
    }
}

/// What the plugin types into the shell is always one of the two templates the
/// manifest asks to be allowed to type, and the manifest grants exactly those.
pub proof fn law_it_types_only_what_it_was_granted(
    s: ChipsView,
    action: Seq<char>,
    argument: Seq<char>,
    k: int,
)
    requires
        0 <= k < run_step(s, action, argument).1.len(),
        run_step(s, action, argument).1[k] matches EffectView::Ask { request, .. } && request is Type,
    ensures
        run_step(s, action, argument).1[k] matches EffectView::Ask { request, .. } && (
        request->template == CD@ || request->template == SWITCH@),
        the_manifest().capabilities[2] == CapabilityView::TypeCommands(seq![CD@, SWITCH@]),
{
}

/// Nothing is typed into the shell but from an action somebody ran: building
/// and the timer ask only where the pane is and what Crook can do.
pub proof fn law_it_types_only_when_pressed(k: int)
    ensures
        0 <= k < built().len() ==> !(built()[k] matches EffectView::Ask { request, .. }
            && request is Type),
        0 <= k < ticked().len() ==> !(ticked()[k] matches EffectView::Ask { request, .. }
            && request is Type),
{
}

/// A host added to a plugin's network list in a later version is a key that
/// was not granted before, so it is asked about again, and the hosts already
/// allowed keep the keys they had.
pub proof fn law_a_new_host_is_a_new_key(hosts: Seq<Seq<char>>, host: Seq<char>)
    requires
        !hosts.contains(host),
    ensures
        !keys_of(CapabilityView::Network(hosts)).contains("net:"@ + host),
        keys_of(CapabilityView::Network(hosts.push(host))) == keys_of(
            CapabilityView::Network(hosts),
        ).push("net:"@ + host),
{
    let keys = keys_of(CapabilityView::Network(hosts));
    if keys.contains("net:"@ + host) {
        let i = choose|i: int| 0 <= i < keys.len() && keys[i] == "net:"@ + host;
        assert(keys[i] == "net:"@ + hosts[i]);
        assert(("net:"@ + hosts[i]).skip("net:"@.len() as int) =~= hosts[i]);
        assert(("net:"@ + host).skip("net:"@.len() as int) =~= host);
        assert(hosts.contains(hosts[i]));
    }
    assert(keys_of(CapabilityView::Network(hosts.push(host))) =~= keys.push("net:"@ + host));
}

/// An answer is used for what it was asked for: a ticket handed back for a
/// request and then answered leaves the outstanding tickets as they were, and
/// the answer does what an answer to that request does.
pub proof fn law_an_answer_goes_to_its_question(
    s: ChipsView,
    asked: Asked,
    ticket: i32,
    a: AnswerView,
)
    requires
        ticket_index(s.waiting, ticket) is None,
    ensures
        delivered(took(s, asked, Some(ticket)), ticket, a) == answered(s, asked, a),
{
    lemma_ticket_found(s.waiting, ticket);
    let t = took(s, asked, Some(ticket));
    assert forall|j: int| 0 <= j < s.waiting.len() implies t.waiting[j].0 != ticket by {
        assert(t.waiting[j] == s.waiting[j]);
    }
    crate::state::lemma_ticket_index(t.waiting, ticket, s.waiting.len() as int);
    assert(t.waiting.remove(s.waiting.len() as int) =~= s.waiting);
    assert(ChipsView { waiting: t.waiting.remove(s.waiting.len() as int), ..t } == s);
}

/// An answer for a ticket nobody is waiting on changes nothing.
pub proof fn law_an_unknown_ticket_changes_nothing(s: ChipsView, ticket: i32, a: AnswerView)
    requires
        ticket_index(s.waiting, ticket) is None,
    ensures
        delivered(s, ticket, a) == s,
{
}

/// A ticket is answered once: where each ticket is waited on at most once, as
/// the host hands them out, a second answer to the same ticket is ignored.
pub proof fn law_a_ticket_is_answered_once(s: ChipsView, ticket: i32, a: AnswerView, b: AnswerView)
    requires
        forall|i: int, j: int|
            0 <= i < j < s.waiting.len() ==> s.waiting[i].0 != s.waiting[j].0,
    ensures
        delivered(delivered(s, ticket, a), ticket, b) == delivered(s, ticket, a),
{
    lemma_ticket_found(s.waiting, ticket);
    match ticket_index(s.waiting, ticket) {
        None => {},
        Some(at) => {
            let rest = s.waiting.remove(at);
            let d = delivered(s, ticket, a);
            lemma_answered_keeps_waiting(ChipsView { waiting: rest, ..s }, s.waiting[at].1, a);
            assert(d.waiting == rest);
            assert forall|j: int| 0 <= j < rest.len() implies rest[j].0 != ticket by {
                if j < at {
                    assert(rest[j] == s.waiting[j]);
                } else {
                    assert(rest[j] == s.waiting[j + 1]);
                }
            }
            lemma_ticket_absent(rest, ticket);
        },
    }
}

/// A listing keeps the directories and drops the files, in the host's order.
pub proof fn law_a_listing_keeps_only_directories(
    s: ChipsView,
    ticket: i32,
    entries: Seq<EntryView>,
)
    requires
        ticket_index(s.waiting, ticket) matches Some(at) && s.waiting[at].1 == Asked::List,
    ensures
        delivered(s, ticket, AnswerView::Listed(entries)).entries == entries.filter(
            |e: EntryView| e.directory,
        ),
        forall|k: int|
            0 <= k < delivered(s, ticket, AnswerView::Listed(entries)).entries.len()
                ==> #[trigger] delivered(s, ticket, AnswerView::Listed(entries)).entries[k].directory,
{
    let kept = entries.filter(|e: EntryView| e.directory);
    assert forall|k: int| 0 <= k < kept.len() implies #[trigger] kept[k].directory by {
        entries.lemma_filter_pred(|e: EntryView| e.directory, k);
    }
}

/// The panel shuts when the pane moves to another directory — its rows are
/// about a directory nobody is in any more — and stays up while it stays put.
pub proof fn law_the_panel_follows_the_pane(
    s: ChipsView,
    ticket: i32,
    a: AnswerView,
)
    requires
        ticket_index(s.waiting, ticket) matches Some(at) && s.waiting[at].1 == Asked::Where,
        a is Where,
    ensures
        moved(s.place, a->place) ==> delivered(s, ticket, a).panel == Panel::Closed,
        !moved(s.place, a->place) ==> delivered(s, ticket, a).panel == s.panel,
        delivered(s, ticket, a).place == a->place,
{
}

/// A refusal is kept where a person will read it, in the host's own words.
pub proof fn law_a_refusal_is_kept(s: ChipsView, ticket: i32, sentence: Seq<char>)
    requires
        ticket_index(s.waiting, ticket) is Some,
    ensures
        delivered(s, ticket, AnswerView::Refused(sentence)).trouble == Some(
            "Not allowed to: "@ + sentence,
        ),
{
}

proof fn lemma_last_slash_after(a: Seq<char>, b: Seq<char>)
    requires
        forall|i: int| 0 <= i < b.len() ==> b[i] != '/',
    ensures
        last_slash(a + seq!['/'] + b) == Some(a.len() as int),
    decreases b.len(),
{
    let s = a + seq!['/'] + b;
    if b.len() == 0 {
        assert(s.last() == '/');
    } else {
        assert(s.last() == b.last());
        assert(s.drop_last() =~= a + seq!['/'] + b.drop_last());
        lemma_last_slash_after(a, b.drop_last());
    }
}

/// The way up from a row chosen in the directory picker leads back to the
/// directory it was chosen in: the parent of a directory joined with a name
/// is that directory, for the root and for any directory not written with a
/// separator at its end, and any name with no separator in it.
pub proof fn law_the_way_up_leads_back(directory: Seq<char>, name: Seq<char>)
    requires
        directory == "/"@ || (directory.len() > 0 && directory.last() != '/'),
        name.len() > 0,
        forall|i: int| 0 <= i < name.len() ==> name[i] != '/',
    ensures
        parent(joined(directory, name)) == Some(directory),
{
    reveal_strlit("/");
    let j = joined(directory, name);
    if directory == "/"@ {
        assert(j =~= Seq::<char>::empty() + seq!['/'] + name);
        lemma_last_slash_after(Seq::empty(), name);
    } else {
        assert(j =~= directory + seq!['/'] + name);
        lemma_last_slash_after(directory, name);
        assert(j.take(directory.len() as int) =~= directory);
    }
    assert(j.last() == name.last());
    assert(trimmed(j) == j);
}

/// The way up stops at the root: a path made only of separators, the root
/// among them, has no parent.
pub proof fn law_the_way_up_stops_at_the_root(path: Seq<char>)
    requires
        forall|i: int| 0 <= i < path.len() ==> path[i] == '/',
    ensures
        parent(path) is None,
    decreases path.len(),
{
    if path.len() > 0 {
        assert forall|i: int| 0 <= i < path.drop_last().len() implies path.drop_last()[i] == '/' by {
            assert(path.drop_last()[i] == path[i]);
        }
        law_the_way_up_stops_at_the_root(path.drop_last());
        assert(trimmed(path) == trimmed(path.drop_last()));
    }
}

/// A path is printed whole, or with the home directory written `~` and what
/// follows it being nothing or a separator: a sibling of the home directory
/// whose name merely begins like it is never shortened.
pub proof fn law_home_is_shortened_only_at_a_separator(path: Seq<char>, home: Option<Seq<char>>)
    ensures
        shortened(path, home) == path || ({
            let s = shortened(path, home);
            &&& home matches Some(h) && h.is_prefix_of(path)
            &&& s[0] == '~'
            &&& s.len() == 1 || s[1] == '/'
            &&& path == home->0 + s.skip(1)
        }),
{
    reveal_strlit("~");
    match home {
        Some(h) => {
            if h.len() > 0 && h.is_prefix_of(path) {
                let rest = path.skip(h.len() as int);
                assert(path =~= h + rest);
                let s = shortened(path, home);
                if rest.len() == 0 {
                    assert(s.skip(1) =~= rest);
                } else if rest[0] == '/' {
                    assert(s.skip(1) =~= rest);
                }
            }
        },
        None => {},
    }
}

/// Every answer to where the pane is refreshes what the chips print of it —
/// the place, the home directory and both line counts — whether or not the
/// pane has moved.
pub proof fn law_where_the_pane_is_is_always_refreshed(
    s: ChipsView,
    ticket: i32,
    place: Option<PlaceView>,
    home: Option<Seq<char>>,
    added: u32,
    removed: u32,
)
    requires
        ticket_index(s.waiting, ticket) matches Some(at) && s.waiting[at].1 == Asked::Where,
    ensures
        delivered(s, ticket, AnswerView::Where { place, home, added, removed }).place == place,
        delivered(s, ticket, AnswerView::Where { place, home, added, removed }).home == home,
        delivered(s, ticket, AnswerView::Where { place, home, added, removed }).added == added,
        delivered(s, ticket, AnswerView::Where { place, home, added, removed }).removed == removed,
{
}

/// Opening the branch picker asks about the repository of the directory the
/// pane is in — not the one the directory picker last showed — and asks
/// nothing where the pane has not said where it is.
pub proof fn law_the_branch_picker_asks_about_the_panes_directory(
    s: ChipsView,
    argument: Seq<char>,
)
    ensures
        s.place matches Some(p) ==> run_step(s, "open-branch"@, argument).1 == seq![
            EffectView::Ask {
                asked: Asked::Repository,
                request: RequestView::Repository { path: p.directory },
            },
        ],
        s.place is None ==> run_step(s, "open-branch"@, argument).1 == Seq::<EffectView>::empty(),
        run_step(s, "open-branch"@, argument).0.panel == Panel::Branch,
        run_step(s, "open-branch"@, argument).0.branches == Seq::<Seq<char>>::empty(),
{
    reveal_strlit("open-branch");
    reveal_strlit("open-directory");
    assert("open-branch"@[5] != "open-directory"@[5]);
}

proof fn lemma_entry_names_differ()
    ensures
        "branch"@ != "directory"@,
        "diff"@ != "directory"@,
        "diff"@ != "branch"@,
{
    reveal_strlit("branch");
    reveal_strlit("directory");
    reveal_strlit("diff");
    assert("branch"@.len() != "directory"@.len());
    assert("diff"@.len() != "directory"@.len());
    assert("diff"@.len() != "branch"@.len());
}

/// In a repository the diff chip is absent exactly when nothing has been
/// added and nothing removed; otherwise it prints both counts in decimal, so
/// lines added with none removed still show.
pub proof fn law_the_diff_chip_shows_any_change(c: ChipsView, n: Node)
    requires
        drawn(c, "diff"@, n),
        c.place matches Some(p) && p.branch is Some,
    ensures
        n == Node::Empty <==> (c.added == 0 && c.removed == 0),
        !(c.added == 0 && c.removed == 0) ==> is_chip(
            n,
            "diff"@,
            "+"@ + decimal(c.added as nat) + " \u{2212}"@ + decimal(c.removed as nat),
            Tone::Warning,
        ),
{
    lemma_entry_names_differ();
}

/// The picker hung under a chip, with or without the trouble written under it.
pub open spec fn picker_in(panel: Node) -> Node {
    match panel {
        Node::Column(v) => v@[0],
        _ => panel,
    }
}

/// The open directory picker offers the way up, where there is one, and
/// then every entry of the directory it shows, in order: each row labelled
/// with the entry's name and keyed by the path of that entry.
pub proof fn law_the_directory_picker_offers_every_entry(c: ChipsView, n: Node)
    requires
        drawn(c, "directory"@, n),
        c.panel == Panel::Directory,
        c.place is Some,
    ensures
        match n {
            Node::Anchored { panel: Some(p), .. } => match picker_in(*p) {
                Node::Picker { rows, .. } => {
                    let up: int = if parent(c.browsing) is Some {
                        1
                    } else {
                        0
                    };
                    &&& rows@.len() == up + c.entries.len()
                    &&& parent(c.browsing) matches Some(q) ==> rows@[0].key@ == q
                    &&& forall|k: int|
                        0 <= k < c.entries.len() ==> {
                            &&& (#[trigger] rows@[up + k]).label@ == c.entries[k].name
                            &&& rows@[up + k].key@ == joined(c.browsing, c.entries[k].name)
                        }
                },
                _ => false,
            },
            _ => false,
        },
{
    match n {
        Node::Anchored { panel: Some(p), .. } => {
            let r = picker_in(*p);
            match r {
                Node::Picker { rows, .. } => {
                    let up: int = if parent(c.browsing) is Some {
                        1
                    } else {
                        0
                    };
                    let v = crate::api::rows_view(rows@);
                    assert(v == crate::view::directory_rows(c));
                    assert forall|k: int| 0 <= k < c.entries.len() implies {
                        &&& (#[trigger] rows@[up + k]).label@ == c.entries[k].name
                        &&& rows@[up + k].key@ == joined(c.browsing, c.entries[k].name)
                    } by {
                        assert(v[up + k] == rows@[up + k]@);
                    }
                    if parent(c.browsing) is Some {
                        assert(v[0] == rows@[0]@);
                    }
                },
                _ => {},
            }
        },
        _ => {},
    }
}

/// The open branch picker offers every branch, in git's order, each row
/// keyed by the very branch it shows — so choosing a row switches to that
/// branch — and marked exactly when it is the one checked out.
pub proof fn law_the_branch_picker_offers_every_branch(c: ChipsView, n: Node)
    requires
        drawn(c, "branch"@, n),
        c.panel == Panel::Branch,
        c.place matches Some(p) && p.branch is Some,
    ensures
        match n {
            Node::Anchored { panel: Some(p), .. } => match picker_in(*p) {
                Node::Picker { rows, .. } => {
                    &&& rows@.len() == c.branches.len()
                    &&& forall|k: int|
                        0 <= k < c.branches.len() ==> {
                            &&& (#[trigger] rows@[k]).key@ == c.branches[k]
                            &&& rows@[k].label@ == c.branches[k]
                            &&& (rows@[k].tone == Tone::Accent <==> c.head == Some(c.branches[k]))
                        }
                },
                _ => false,
            },
            _ => false,
        },
{
    lemma_entry_names_differ();
    match n {
        Node::Anchored { panel: Some(p), .. } => {
            match picker_in(*p) {
                Node::Picker { rows, .. } => {
                    let v = crate::api::rows_view(rows@);
                    assert(v == crate::view::branch_rows(c));
                    assert forall|k: int| 0 <= k < c.branches.len() implies {
                        &&& (#[trigger] rows@[k]).key@ == c.branches[k]
                        &&& rows@[k].label@ == c.branches[k]
                        &&& (rows@[k].tone == Tone::Accent <==> c.head == Some(c.branches[k]))
                    } by {
                        assert(v[k] == rows@[k]@);
                    }
                },
                _ => {},
            }
        },
        _ => {},
    }
}

} // verus!
