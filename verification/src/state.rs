//! What the chips know, and what they ask for.
//!
//! Everything that decides anything is here. Nothing here talks to the host:
//! each step hands back the [`Effect`]s it wants performed — a chip to
//! contribute, an action to register, a request to raise, a timer to set — and
//! whoever runs the plugin performs them in order. A request is the one effect
//! with an answer: the host hands back a ticket for it, or declines to take it,
//! and that is handed to [`Chips::issued`] before the next effect is performed.
//!
//! It holds nothing the host already knows between steps beyond what a chip
//! prints: where the pane is is re-asked every two seconds rather than
//! remembered across a `cd`.
use vstd::prelude::*;
use vstd::string::*;

use crate::api::{
    Action, Answer, AnswerView, Command, CommandView, Contribution, Entry, EntryView, Place,
    PlaceView, Request, RequestView, commands_view, entries_view, opt_place, opt_text, texts,
};
use crate::text::same;

verus! {

/// The slot the chips go in.
pub const SLOT: &'static str = "pane.chips";

/// The command line typing a directory in runs; the host puts the directory
/// in the hole and quotes it.
pub const CD: &'static str = "cd {}";

/// The one that changes branch.
pub const SWITCH: &'static str = "git switch {}";

/// The command that opens the recorder for a keybinding.
pub const REBIND: &'static str = "crook/shortcuts/rebind";

/// The command the keys chip stands for.
pub const SHOWN_COMMAND: &'static str = "crook/window/new-tab";

/// The root the directory picker may list under.
pub const ROOT: &'static str = "~";

/// How often, in milliseconds, the chips ask the host where the pane is.
pub const REFRESH: i32 = 2000;

/// Which panel is up, if any.
#[derive(Copy, Clone, Debug, Default, PartialEq, Eq, Structural)]
pub enum Panel {
    /// None: the chips and nothing over them.
    #[default]
    Closed,
    /// The directories under the one the pane is in.
    Directory,
    /// The repository's branches.
    Branch,
}

/// What one outstanding request was for.
#[derive(Copy, Clone, Debug, PartialEq, Eq, Structural)]
pub enum Asked {
    /// Where the pane is.
    Where,
    /// What is in a directory.
    List,
    /// What the repository has.
    Repository,
    /// What Crook can be asked to do.
    Commands,
    /// Something that changes the world: a line typed, a command run.
    Deed,
}

/// Something a step of the plugin wants the host to do, in the order given.
#[derive(Debug, PartialEq, Eq)]
pub enum Effect {
    /// Contribute an entry to a slot.
    Contribute(Contribution),
    /// Register an action.
    Register(Action),
    /// Raise a request, remembered as being for `asked` once the host has
    /// given it a ticket (see [`Chips::issued`]).
    Ask { asked: Asked, request: Request },
    /// Be woken after this many milliseconds.
    SetTimer(i32),
    /// Write a warning to the host's log.
    Warn(Warning),
}

/// Something worth a line in the host's log.
#[derive(Debug, PartialEq, Eq)]
pub enum Warning {
    /// An action was run that this plugin has nothing to do for: one it does
    /// not know, or one that needs an argument and was handed none.
    NothingToDo { action: String },
    /// A request was answered with something other than what answers it.
    AnsweredOtherwise { asked: Asked, answer: Answer },
    /// The host would not take a request.
    NotTaken,
}

/// A warning as contracts read it: each string as its characters.
pub enum WarningView {
    NothingToDo { action: Seq<char> },
    AnsweredOtherwise { asked: Asked, answer: AnswerView },
    NotTaken,
}

impl View for Warning {
    type V = WarningView;

    open spec fn view(&self) -> WarningView {
        match self {
            Warning::NothingToDo { action } => WarningView::NothingToDo { action: action@ },
            Warning::AnsweredOtherwise { asked, answer } => WarningView::AnsweredOtherwise {
                asked: *asked,
                answer: answer@,
            },
            Warning::NotTaken => WarningView::NotTaken,
        }
    }
}

/// An effect as contracts read it: each string as its characters.
pub enum EffectView {
    Contribute { slot: Seq<char>, entry: Seq<char>, order: i32 },
    Register { name: Seq<char>, title: Option<Seq<char>> },
    Ask { asked: Asked, request: RequestView },
    SetTimer(i32),
    Warn(WarningView),
}

impl View for Effect {
    type V = EffectView;

    open spec fn view(&self) -> EffectView {
        match self {
            Effect::Contribute(c) => EffectView::Contribute {
                slot: c.slot@,
                entry: c.entry@,
                order: c.order,
            },
            Effect::Register(a) => EffectView::Register { name: a.name@, title: opt_text(a.title) },
            Effect::Ask { asked, request } => EffectView::Ask { asked: *asked, request: request@ },
            Effect::SetTimer(ms) => EffectView::SetTimer(*ms),
            Effect::Warn(w) => EffectView::Warn(w@),
        }
    }
}

/// A list of effects, each by its view.
pub open spec fn effects_view(v: Seq<Effect>) -> Seq<EffectView> {
    v.map_values(|e: Effect| e@)
}

/// Everything the chips know.
#[derive(Debug, Default)]
pub struct Chips {
    /// Where the focused pane is, as the host last answered.
    pub place: Option<Place>,
    /// The person's home directory, for printing a path as `~/…`.
    pub home: Option<String>,
    /// How much has changed in the working tree.
    pub added: u32,
    pub removed: u32,
    /// Which panel is up.
    pub panel: Panel,
    /// The directory the picker is showing, and what is in it.
    pub browsing: String,
    pub entries: Vec<Entry>,
    /// What the repository under the pane has.
    pub head: Option<String>,
    pub branches: Vec<String>,
    /// Everything Crook can be asked to do, for the chip that prints a chord.
    pub commands: Vec<Command>,
    /// What went wrong with the last thing asked for, in the host's own words.
    pub trouble: Option<String>,
    /// The tickets outstanding, and what each was for.
    pub waiting: Tickets,
}

/// The tickets handed out for requests and not yet answered, in the order
/// they were handed out, each with what its request was for.
#[derive(Debug, Default)]
pub struct Tickets {
    outstanding: Vec<(i32, Asked)>,
}

impl View for Tickets {
    type V = Seq<(i32, Asked)>;

    closed spec fn view(&self) -> Seq<(i32, Asked)> {
        self.outstanding@
    }
}

impl Tickets {
    /// No ticket outstanding.
    pub fn new() -> (t: Tickets)
        ensures
            t@ == Seq::<(i32, Asked)>::empty(),
    {
        Tickets { outstanding: Vec::new() }
    }

    /// Waits on one more ticket.
    fn push(&mut self, ticket: i32, asked: Asked)
        ensures
            final(self)@ == old(self)@.push((ticket, asked)),
    {
        self.outstanding.push((ticket, asked));
    }

    /// Ends the first wait on a ticket, handing back what it was for; `None`,
    /// and nothing changed, where nobody waits on it.
    fn take(&mut self, ticket: i32) -> (asked: Option<Asked>)
        ensures
            match ticket_index(old(self)@, ticket) {
                Some(at) => asked == Some(old(self)@[at].1) && final(self)@ == old(self)@.remove(at),
                None => asked is None && final(self)@ == old(self)@,
            },
    {
        let found = find_ticket(&self.outstanding, ticket);
        match found {
            Some(at) => {
                proof {
                    assert(old(self)@ == self.outstanding@);
                }
                let ghost before = self.outstanding@;
                let removed = self.outstanding.remove(at);
                proof {
                    assert(self.outstanding@ =~= before.remove(at as int));
                }
                Some(removed.1)
            },
            None => None,
        }
    }
}

/// What the chips know, with every string read as its characters.
#[verifier::ext_equal]
pub struct ChipsView {
    pub place: Option<PlaceView>,
    pub home: Option<Seq<char>>,
    pub added: u32,
    pub removed: u32,
    pub panel: Panel,
    pub browsing: Seq<char>,
    pub entries: Seq<EntryView>,
    pub head: Option<Seq<char>>,
    pub branches: Seq<Seq<char>>,
    pub commands: Seq<CommandView>,
    pub trouble: Option<Seq<char>>,
    pub waiting: Seq<(i32, Asked)>,
}

impl View for Chips {
    type V = ChipsView;

    open spec fn view(&self) -> ChipsView {
        ChipsView {
            place: opt_place(self.place),
            home: opt_text(self.home),
            added: self.added,
            removed: self.removed,
            panel: self.panel,
            browsing: self.browsing@,
            entries: entries_view(self.entries@),
            head: opt_text(self.head),
            branches: texts(self.branches@),
            commands: commands_view(self.commands@),
            trouble: opt_text(self.trouble),
            waiting: self.waiting@,
        }
    }
}

/// The state of a plugin that knows nothing yet.
pub open spec fn fresh() -> ChipsView {
    ChipsView {
        place: None,
        home: None,
        added: 0,
        removed: 0,
        panel: Panel::Closed,
        browsing: Seq::empty(),
        entries: Seq::empty(),
        head: None,
        branches: Seq::empty(),
        commands: Seq::empty(),
        trouble: None,
        waiting: Seq::empty(),
    }
}

/// A request, remembered as being for `asked`.
pub open spec fn ask(asked: Asked, request: RequestView) -> EffectView {
    EffectView::Ask { asked, request }
}

/// An action registered without a title: reachable by name, not offered.
pub open spec fn untitled(name: Seq<char>) -> EffectView {
    EffectView::Register { name, title: None }
}

/// What building asks for: the four chips, the seven actions, where the pane
/// is and what Crook can do, and a wake-up.
pub open spec fn built() -> Seq<EffectView> {
    seq![
        EffectView::Contribute { slot: SLOT@, entry: "directory"@, order: 10 },
        EffectView::Contribute { slot: SLOT@, entry: "branch"@, order: 20 },
        EffectView::Contribute { slot: SLOT@, entry: "diff"@, order: 25 },
        EffectView::Contribute { slot: SLOT@, entry: "keys"@, order: 30 },
        untitled("open-directory"@),
        untitled("open-branch"@),
        untitled("choose-directory"@),
        untitled("choose-branch"@),
        untitled("run-command"@),
        untitled("rebind"@),
        untitled("dismiss"@),
        ask(Asked::Where, RequestView::Where),
        ask(Asked::Commands, RequestView::Commands),
        EffectView::SetTimer(REFRESH),
    ]
}

/// What a tick asks for: where the pane is, and the next wake-up.
pub open spec fn ticked() -> Seq<EffectView> {
    seq![ask(Asked::Where, RequestView::Where), EffectView::SetTimer(REFRESH)]
}

/// The directory of a place, if there is one.
pub open spec fn place_directory(p: Option<PlaceView>) -> Option<Seq<char>> {
    match p {
        Some(p) => Some(p.directory),
        None => None,
    }
}

/// The branch of a place, if there is one and it is in a repository.
pub open spec fn place_branch(p: Option<PlaceView>) -> Option<Seq<char>> {
    match p {
        Some(p) => p.branch,
        None => None,
    }
}

/// What running an action does: the state after it and what it asks for.
///
/// Every action first clears the trouble shown. An action that is not known,
/// or that needs an argument and is handed an empty one, does nothing else
/// but say so in the log.
pub open spec fn run_step(s0: ChipsView, action: Seq<char>, argument: Seq<char>) -> (
    ChipsView,
    Seq<EffectView>,
) {
    let s = ChipsView { trouble: None, ..s0 };
    if action == "open-directory"@ {
        let browsing = match place_directory(s.place) {
            Some(d) => d,
            None => Seq::empty(),
        };
        (
            ChipsView { panel: Panel::Directory, browsing, entries: Seq::empty(), ..s },
            seq![ask(Asked::List, RequestView::List { path: browsing })],
        )
    } else if action == "open-branch"@ {
        let s1 = ChipsView { panel: Panel::Branch, branches: Seq::empty(), ..s };
        match place_directory(s.place) {
            Some(path) => (s1, seq![ask(Asked::Repository, RequestView::Repository { path })]),
            None => (s1, Seq::empty()),
        }
    } else if action == "dismiss"@ {
        (ChipsView { panel: Panel::Closed, ..s }, Seq::empty())
    } else if action == "choose-directory"@ && argument.len() > 0 {
        (
            ChipsView { panel: Panel::Closed, ..s },
            seq![ask(Asked::Deed, RequestView::Type { template: CD@, argument })],
        )
    } else if action == "choose-branch"@ && argument.len() > 0 {
        (
            ChipsView { panel: Panel::Closed, ..s },
            seq![ask(Asked::Deed, RequestView::Type { template: SWITCH@, argument })],
        )
    } else if action == "run-command"@ {
        let name = if argument.len() == 0 {
            SHOWN_COMMAND@
        } else {
            argument
        };
        (s, seq![ask(Asked::Deed, RequestView::Run { name, argument: Seq::empty() })])
    } else if action == "rebind"@ && argument.len() > 0 {
        (s, seq![ask(Asked::Deed, RequestView::Run { name: REBIND@, argument })])
    } else {
        (s, seq![EffectView::Warn(WarningView::NothingToDo { action })])
    }
}

/// Where the first outstanding request with this ticket is, if any.
pub open spec fn ticket_index(waiting: Seq<(i32, Asked)>, ticket: i32) -> Option<int>
    decreases waiting.len(),
{
    if waiting.len() == 0 {
        None
    } else if waiting[0].0 == ticket {
        Some(0)
    } else {
        match ticket_index(waiting.drop_first(), ticket) {
            Some(i) => Some(i + 1),
            None => None,
        }
    }
}

/// Whether the pane has moved to another directory than the one known.
pub open spec fn moved(known: Option<PlaceView>, now: Option<PlaceView>) -> bool {
    place_directory(known) != place_directory(now)
}

/// What an answer does to the state, given what it was asked for.
pub open spec fn answered(s: ChipsView, asked: Asked, a: AnswerView) -> ChipsView {
    match a {
        AnswerView::Where { place, home, added, removed } => if asked == Asked::Where {
            let panel = if s.panel != Panel::Closed && moved(s.place, place) {
                Panel::Closed
            } else {
                s.panel
            };
            ChipsView { panel, place, home, added, removed, ..s }
        } else {
            s
        },
        AnswerView::Listed(entries) => if asked == Asked::List {
            ChipsView { entries: entries.filter(|e: EntryView| e.directory), ..s }
        } else {
            s
        },
        AnswerView::Repository { head, branches } => if asked == Asked::Repository {
            ChipsView { head, branches, ..s }
        } else {
            s
        },
        AnswerView::Commands(commands) => if asked == Asked::Commands {
            ChipsView { commands, ..s }
        } else {
            s
        },
        AnswerView::Refused(sentence) => ChipsView {
            trouble: Some("Not allowed to: "@ + sentence),
            ..s
        },
        AnswerView::Failed(why) => ChipsView { trouble: Some(why), ..s },
        _ => s,
    }
}

/// Whether an answer is one that answers what was asked: a refusal or a
/// failure answers anything; otherwise each request has its own answer, and a
/// deed is answered by its being done.
pub open spec fn fits(asked: Asked, a: AnswerView) -> bool {
    match a {
        AnswerView::Where { .. } => asked == Asked::Where,
        AnswerView::Listed(_) => asked == Asked::List,
        AnswerView::Repository { .. } => asked == Asked::Repository,
        AnswerView::Commands(_) => asked == Asked::Commands,
        AnswerView::Done => asked == Asked::Deed,
        AnswerView::Refused(_) => true,
        AnswerView::Failed(_) => true,
        _ => false,
    }
}

/// What delivering an answer for a ticket writes to the log: a line for an
/// answer that does not answer what its ticket was for, and nothing else — a
/// ticket nobody waits on is not worth a line.
pub open spec fn delivery_warnings(s: ChipsView, ticket: i32, a: AnswerView) -> Seq<EffectView> {
    match ticket_index(s.waiting, ticket) {
        Some(at) => if fits(s.waiting[at].1, a) {
            Seq::empty()
        } else {
            seq![
                EffectView::Warn(
                    WarningView::AnsweredOtherwise { asked: s.waiting[at].1, answer: a },
                ),
            ]
        },
        None => Seq::empty(),
    }
}

/// What handing back a ticket writes to the log: a line where the host would
/// not take the request.
pub open spec fn taking_warnings(ticket: Option<i32>) -> Seq<EffectView> {
    match ticket {
        Some(_) => Seq::empty(),
        None => seq![EffectView::Warn(WarningView::NotTaken)],
    }
}

/// What delivering an answer for a ticket does: nothing for a ticket nobody
/// waits on; otherwise the first wait for it is over and the answer is used
/// for what that wait was for.
pub open spec fn delivered(s: ChipsView, ticket: i32, a: AnswerView) -> ChipsView {
    match ticket_index(s.waiting, ticket) {
        None => s,
        Some(at) => answered(ChipsView { waiting: s.waiting.remove(at), ..s }, s.waiting[at].1, a),
    }
}

/// What handing back a ticket does: a ticket is waited on, a refusal is not.
pub open spec fn took(s: ChipsView, asked: Asked, ticket: Option<i32>) -> ChipsView {
    match ticket {
        Some(t) => ChipsView { waiting: s.waiting.push((t, asked)), ..s },
        None => s,
    }
}

/// Where the first command with this name is, if any.
pub open spec fn command_index(commands: Seq<CommandView>, name: Seq<char>) -> Option<int>
    decreases commands.len(),
{
    if commands.len() == 0 {
        None
    } else if commands[0].name == name {
        Some(0)
    } else {
        match command_index(commands.drop_first(), name) {
            Some(i) => Some(i + 1),
            None => None,
        }
    }
}

pub(crate) proof fn lemma_ticket_index(waiting: Seq<(i32, Asked)>, ticket: i32, i: int)
    requires
        0 <= i <= waiting.len(),
        forall|j: int| 0 <= j < i ==> waiting[j].0 != ticket,
    ensures
        i < waiting.len() && waiting[i].0 == ticket ==> ticket_index(waiting, ticket) == Some(i),
        i == waiting.len() ==> ticket_index(waiting, ticket) is None,
    decreases i,
{
    if i > 0 {
        let rest = waiting.drop_first();
        assert forall|j: int| 0 <= j < i - 1 implies rest[j].0 != ticket by {
            assert(rest[j] == waiting[j + 1]);
        }
        lemma_ticket_index(rest, ticket, i - 1);
        assert(waiting[0].0 != ticket);
    }
}

proof fn lemma_command_index(commands: Seq<CommandView>, name: Seq<char>, i: int)
    requires
        0 <= i <= commands.len(),
        forall|j: int| 0 <= j < i ==> commands[j].name != name,
    ensures
        i < commands.len() && commands[i].name == name ==> command_index(commands, name) == Some(
            i,
        ),
        i == commands.len() ==> command_index(commands, name) is None,
    decreases i,
{
    if i > 0 {
        let rest = commands.drop_first();
        assert forall|j: int| 0 <= j < i - 1 implies rest[j].name != name by {
            assert(rest[j] == commands[j + 1]);
        }
        lemma_command_index(rest, name, i - 1);
        assert(commands[0].name != name);
    }
}

/// Where the first outstanding request with this ticket is.
fn find_ticket(waiting: &Vec<(i32, Asked)>, ticket: i32) -> (at: Option<usize>)
    ensures
        match at {
            Some(a) => a < waiting@.len() && ticket_index(waiting@, ticket) == Some(a as int),
            None => ticket_index(waiting@, ticket) is None,
        },
{
    let mut i: usize = 0;
    while i < waiting.len()
        invariant
            i <= waiting@.len(),
            forall|j: int| 0 <= j < i ==> waiting@[j].0 != ticket,
        decreases waiting@.len() - i,
    {
        if waiting[i].0 == ticket {
            proof {
                lemma_ticket_index(waiting@, ticket, i as int);
            }
            return Some(i);
        }
        i = i + 1;
    }
    proof {
        lemma_ticket_index(waiting@, ticket, i as int);
    }
    None
}

/// The entries that are directories, in the order given.
fn directories_only(entries: &Vec<Entry>) -> (kept: Vec<Entry>)
    ensures
        entries_view(kept@) == entries_view(entries@).filter(|e: EntryView| e.directory),
{
    let mut kept: Vec<Entry> = Vec::new();
    let mut i: usize = 0;
    while i < entries.len()
        invariant
            i <= entries@.len(),
            entries_view(kept@) == entries_view(entries@).take(i as int).filter(
                |e: EntryView| e.directory,
            ),
        decreases entries@.len() - i,
    {
        let ghost all = entries_view(entries@);
        let ghost keep = |e: EntryView| e.directory;
        proof {
            assert(all.take(i + 1) =~= all.take(i as int).push(all[i as int]));
            all.take(i as int).lemma_filter_push(all[i as int], keep);
        }
        if entries[i].directory {
            let ghost before = kept@;
            kept.push(Entry { name: entries[i].name.clone(), directory: true });
            proof {
                assert(entries_view(kept@) =~= entries_view(before).push(all[i as int]));
            }
        }
        i = i + 1;
    }
    proof {
        assert(entries_view(entries@).take(entries@.len() as int) =~= entries_view(entries@));
    }
    kept
}

/// Whether two optional places are in the same directory.
fn same_directory(a: &Option<Place>, b: &Option<Place>) -> (same_dir: bool)
    ensures
        same_dir == !moved(opt_place(*a), opt_place(*b)),
{
    match a {
        Some(x) => match b {
            Some(y) => x.directory == y.directory,
            None => false,
        },
        None => match b {
            Some(_) => false,
            None => true,
        },
    }
}

/// Whether an answer is one that answers what was asked.
fn answers(asked: Asked, answer: &Answer) -> (res: bool)
    ensures
        res == fits(asked, answer@),
{
    match answer {
        Answer::Where { .. } => asked == Asked::Where,
        Answer::Listed(_) => asked == Asked::List,
        Answer::Repository { .. } => asked == Asked::Repository,
        Answer::Commands(_) => asked == Asked::Commands,
        Answer::Done => asked == Asked::Deed,
        Answer::Refused(_) => true,
        Answer::Failed(_) => true,
        _ => false,
    }
}

/// Contributes one entry to the chips' slot.
fn contribute(entry: &str, order: i32) -> (e: Effect)
    ensures
        e@ == (EffectView::Contribute { slot: SLOT@, entry: entry@, order }),
{
    Effect::Contribute(Contribution { slot: SLOT.to_owned(), entry: entry.to_owned(), order })
}

/// Registers one action, without a title.
fn register(name: &str) -> (e: Effect)
    ensures
        e@ == untitled(name@),
{
    Effect::Register(Action { name: name.to_owned(), title: None })
}

impl Chips {
    /// A plugin that knows nothing yet.
    pub fn new() -> (chips: Self)
        ensures
            chips@ == fresh(),
    {
        let chips = Chips {
            place: None,
            home: None,
            added: 0,
            removed: 0,
            panel: Panel::Closed,
            browsing: String::new(),
            entries: Vec::new(),
            head: None,
            branches: Vec::new(),
            commands: Vec::new(),
            trouble: None,
            waiting: Tickets::new(),
        };
        proof {
            assert(chips@ =~= fresh());
        }
        chips
    }

    /// Registers everything, and asks the first questions.
    pub fn build(&mut self) -> (effects: Vec<Effect>)
        ensures
            *final(self) == *old(self),
            effects_view(effects@) == built(),
    {
        let mut effects: Vec<Effect> = Vec::new();
        effects.push(contribute("directory", 10));
        effects.push(contribute("branch", 20));
        effects.push(contribute("diff", 25));
        effects.push(contribute("keys", 30));
        effects.push(register("open-directory"));
        effects.push(register("open-branch"));
        effects.push(register("choose-directory"));
        effects.push(register("choose-branch"));
        effects.push(register("run-command"));
        effects.push(register("rebind"));
        effects.push(register("dismiss"));
        effects.push(Self::ask(Asked::Where, Request::Where));
        effects.push(Self::ask(Asked::Commands, Request::Commands));
        effects.push(Effect::SetTimer(REFRESH));
        proof {
            assert(effects_view(effects@) =~= built());
        }
        effects
    }

    /// The wait is over: ask again, and go back to waiting.
    pub fn tick(&mut self) -> (effects: Vec<Effect>)
        ensures
            *final(self) == *old(self),
            effects_view(effects@) == ticked(),
    {
        let mut effects: Vec<Effect> = Vec::new();
        effects.push(Self::ask(Asked::Where, Request::Where));
        effects.push(Effect::SetTimer(REFRESH));
        proof {
            assert(effects_view(effects@) =~= ticked());
        }
        effects
    }

    /// Runs one of the actions registered while building.
    ///
    /// `argument` is what the thing pressed had to say: the key of a chosen
    /// row, the entry of a menu. Empty for a chord and for the palette, which
    /// is why every action that needs one checks.
    pub fn run(&mut self, action: &str, argument: &str) -> (effects: Vec<Effect>)
        ensures
            final(self)@ == run_step(old(self)@, action@, argument@).0,
            effects_view(effects@) == run_step(old(self)@, action@, argument@).1,
    {
        self.trouble = None;
        let mut effects: Vec<Effect> = Vec::new();
        if same(action, "open-directory") {
            self.panel = Panel::Directory;
            let browsing = match self.directory() {
                Some(d) => d.to_owned(),
                None => String::new(),
            };
            self.browsing = browsing;
            self.entries.clear();
            let path = self.browsing.clone();
            effects.push(Self::ask(Asked::List, Request::List { path }));
        } else if same(action, "open-branch") {
            self.panel = Panel::Branch;
            self.branches.clear();
            match self.directory() {
                Some(d) => {
                    let path = d.to_owned();
                    effects.push(Self::ask(Asked::Repository, Request::Repository { path }));
                },
                None => {},
            }
        } else if same(action, "dismiss") {
            self.panel = Panel::Closed;
        } else if same(action, "choose-directory") && !argument.is_empty() {
            self.panel = Panel::Closed;
            let request = Request::Type { template: CD.to_owned(), argument: argument.to_owned() };
            effects.push(Self::ask(Asked::Deed, request));
        } else if same(action, "choose-branch") && !argument.is_empty() {
            self.panel = Panel::Closed;
            let request = Request::Type {
                template: SWITCH.to_owned(),
                argument: argument.to_owned(),
            };
            effects.push(Self::ask(Asked::Deed, request));
        } else if same(action, "run-command") {
            // The chip stands for one command and says so on its face, so an
            // empty argument means the one the chip is about.
            let name = if argument.is_empty() {
                SHOWN_COMMAND.to_owned()
            } else {
                argument.to_owned()
            };
            effects.push(Self::ask(Asked::Deed, Request::Run { name, argument: String::new() }));
        } else if same(action, "rebind") && !argument.is_empty() {
            let request = Request::Run { name: REBIND.to_owned(), argument: argument.to_owned() };
            effects.push(Self::ask(Asked::Deed, request));
        } else {
            effects.push(Effect::Warn(Warning::NothingToDo { action: action.to_owned() }));
        }
        proof {
            assert(self@ =~= run_step(old(self)@, action@, argument@).0);
            assert(effects_view(effects@) =~= run_step(old(self)@, action@, argument@).1);
        }
        effects
    }

    /// The answer to something asked for.
    ///
    /// Hands back the warning to log where the answer does not answer what
    /// was asked.
    pub fn deliver(&mut self, ticket: i32, answer: Answer) -> (effects: Vec<Effect>)
        ensures
            final(self)@ == delivered(old(self)@, ticket, answer@),
            effects_view(effects@) == delivery_warnings(old(self)@, ticket, answer@),
    {
        let mut effects: Vec<Effect> = Vec::new();
        let asked = match self.waiting.take(ticket) {
            Some(asked) => asked,
            // A ticket nobody is waiting on: a plugin that was rebuilt while
            // an answer was in flight gets exactly this. Not worth a line.
            None => return effects,
        };
        let ghost s = self@;
        if !answers(asked, &answer) {
            effects.push(Effect::Warn(Warning::AnsweredOtherwise { asked, answer }));
            proof {
                assert(effects_view(effects@) =~= delivery_warnings(old(self)@, ticket, answer@));
            }
            return effects;
        }
        match answer {
            Answer::Where { place, home, added, removed } => {
                if asked == Asked::Where {
                    // The directory moved out from under the panel: what it is
                    // showing is about a directory nobody is in any more.
                    if !(self.panel == Panel::Closed) && !same_directory(&self.place, &place) {
                        self.panel = Panel::Closed;
                    }
                    self.place = place;
                    self.home = home;
                    self.added = added;
                    self.removed = removed;
                }
            },
            Answer::Listed(entries) => {
                if asked == Asked::List {
                    // Directories only: a picker that cds is a picker whose
                    // rows are places you can be.
                    self.entries = directories_only(&entries);
                }
            },
            Answer::Repository { head, branches } => {
                if asked == Asked::Repository {
                    self.head = head;
                    self.branches = branches;
                }
            },
            Answer::Commands(commands) => {
                if asked == Asked::Commands {
                    self.commands = commands;
                }
            },
            Answer::Refused(sentence) => {
                self.trouble = Some("Not allowed to: ".to_owned().concat(sentence.as_str()));
            },
            Answer::Failed(why) => {
                self.trouble = Some(why);
            },
            _ => {},
        }
        proof {
            assert(self@ =~= answered(s, asked, answer@));
            assert(effects_view(effects@) =~= delivery_warnings(old(self)@, ticket, answer@));
        }
        effects
    }

    /// The host's answer to an [`Effect::Ask`]: the ticket it gave the
    /// request, which is then waited on, or `None` where it would not take it,
    /// which is worth a line in the log.
    pub fn issued(&mut self, asked: Asked, ticket: Option<i32>) -> (effects: Vec<Effect>)
        ensures
            final(self)@ == took(old(self)@, asked, ticket),
            effects_view(effects@) == taking_warnings(ticket),
    {
        let mut effects: Vec<Effect> = Vec::new();
        match ticket {
            Some(t) => self.waiting.push(t, asked),
            None => effects.push(Effect::Warn(Warning::NotTaken)),
        }
        proof {
            assert(self@ =~= took(old(self)@, asked, ticket));
            assert(effects_view(effects@) =~= taking_warnings(ticket));
        }
        effects
    }

    /// Where the pane is, or `None` before it has said.
    pub fn directory(&self) -> (dir: Option<&str>)
        ensures
            match dir {
                Some(d) => place_directory(self@.place) == Some(d@),
                None => place_directory(self@.place) is None,
            },
    {
        match &self.place {
            Some(place) => Some(place.directory.as_str()),
            None => None,
        }
    }

    /// Which branch it is on, when the directory is in a repository.
    pub fn branch(&self) -> (b: Option<&str>)
        ensures
            match b {
                Some(b) => place_branch(self@.place) == Some(b@),
                None => place_branch(self@.place) is None,
            },
    {
        match &self.place {
            Some(place) => match &place.branch {
                Some(b) => Some(b.as_str()),
                None => None,
            },
            None => None,
        }
    }

    /// What the chip that prints a chord should say, if the host has told us:
    /// the first command named [`SHOWN_COMMAND`].
    pub fn shown_command(&self) -> (c: Option<&Command>)
        ensures
            match command_index(self@.commands, SHOWN_COMMAND@) {
                Some(i) => c matches Some(c) && c@ == self@.commands[i],
                None => c is None,
            },
    {
        let mut i: usize = 0;
        while i < self.commands.len()
            invariant
                i <= self.commands@.len(),
                forall|j: int| 0 <= j < i ==> self@.commands[j].name != SHOWN_COMMAND@,
            decreases self.commands@.len() - i,
        {
            if same(self.commands[i].name.as_str(), SHOWN_COMMAND) {
                proof {
                    lemma_command_index(self@.commands, SHOWN_COMMAND@, i as int);
                }
                return Some(&self.commands[i]);
            }
            i = i + 1;
        }
        proof {
            lemma_command_index(self@.commands, SHOWN_COMMAND@, i as int);
        }
        None
    }

    /// A request, remembered as being for `asked`.
    fn ask(asked: Asked, request: Request) -> (e: Effect)
        ensures
            e@ == ask(asked, request@),
    {
        Effect::Ask { asked, request }
    }
}

} // verus!
