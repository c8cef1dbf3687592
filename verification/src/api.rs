//! What a sandboxed plugin and its host say to each other.
//!
//! Shared by both sides: the host and every plugin speak this vocabulary. A
//! [`Node`] says *what a thing is* — a label, a badge, a row — and the host
//! decides what that looks like in the theme in force. Nothing here is a
//! colour, a pixel or a font.
//!
//! Each type that carries text has a view: the same shape with every `String`
//! read as its sequence of characters. The contracts of the rest of the crate
//! are stated over those views.
use vstd::prelude::*;
use vstd::string::*;

verus! {

/// What version of this vocabulary a plugin was built against.
///
/// Bumped when a shape below changes in a way that would make an older plugin
/// decode to something other than what it meant.
pub const ABI_VERSION: u32 = 3;

/// The strings of a list, each read as its characters.
pub open spec fn texts(v: Seq<String>) -> Seq<Seq<char>> {
    v.map_values(|s: String| s@)
}

/// An optional string, read as its characters.
pub open spec fn opt_text(o: Option<String>) -> Option<Seq<char>> {
    match o {
        Some(s) => Some(s@),
        None => None,
    }
}

/// What a sandboxed plugin says about itself, before any of it runs.
#[derive(Clone, Debug, PartialEq, Eq)]
pub struct Manifest {
    /// The version of this vocabulary the plugin was built against.
    pub abi: u32,
    /// `owner/name`.
    pub id: String,
    /// What a person sees in a list.
    pub name: String,
    /// One line, for the row under the name.
    pub description: String,
    /// The plugin's own version.
    pub version: String,
    /// What it needs to be allowed to do.
    pub capabilities: Vec<Capability>,
}

/// A manifest as contracts read it: each string as its characters.
pub struct ManifestView {
    pub abi: u32,
    pub id: Seq<char>,
    pub name: Seq<char>,
    pub description: Seq<char>,
    pub version: Seq<char>,
    pub capabilities: Seq<CapabilityView>,
}

impl View for Manifest {
    type V = ManifestView;

    open spec fn view(&self) -> ManifestView {
        ManifestView {
            abi: self.abi,
            id: self.id@,
            name: self.name@,
            description: self.description@,
            version: self.version@,
            capabilities: self.capabilities@.map_values(|c: Capability| c@),
        }
    }
}

/// Something a plugin has to be allowed to do, phrased as the sentence the
/// permission dialog will say.
#[derive(Clone, Debug, PartialEq, Eq)]
pub enum Capability {
    /// Read the settings.
    ReadSettings,
    /// Read what is in the tab strip.
    ReadTabs,
    /// Read the working directory and git facts of the active pane.
    ReadWorkingDirectory,
    /// Reach the network, and only these hosts.
    Network(Vec<String>),
    /// Read and write the system clipboard.
    Clipboard,
    /// Keep a little state of its own between runs.
    Storage,
    /// Read files on this machine, and only these paths.
    ReadFiles(Vec<String>),
    /// List the names in a directory, and only under these roots.
    ListDirectories(Vec<String>),
    /// Type a command into the shell, and only these templates, each with one
    /// `{}` where the argument goes.
    TypeCommands(Vec<String>),
    /// Run one of Crook's own commands, and only these.
    RunCommands(Vec<String>),
    /// See what Crook can be asked to do, and which keys reach it.
    ReadCommands,
}

/// A capability as contracts read it: each string as its characters.
pub enum CapabilityView {
    ReadSettings,
    ReadTabs,
    ReadWorkingDirectory,
    Network(Seq<Seq<char>>),
    Clipboard,
    Storage,
    ReadFiles(Seq<Seq<char>>),
    ListDirectories(Seq<Seq<char>>),
    TypeCommands(Seq<Seq<char>>),
    RunCommands(Seq<Seq<char>>),
    ReadCommands,
}

impl View for Capability {
    type V = CapabilityView;

    open spec fn view(&self) -> CapabilityView {
        match self {
            Capability::ReadSettings => CapabilityView::ReadSettings,
            Capability::ReadTabs => CapabilityView::ReadTabs,
            Capability::ReadWorkingDirectory => CapabilityView::ReadWorkingDirectory,
            Capability::Network(v) => CapabilityView::Network(texts(v@)),
            Capability::Clipboard => CapabilityView::Clipboard,
            Capability::Storage => CapabilityView::Storage,
            Capability::ReadFiles(v) => CapabilityView::ReadFiles(texts(v@)),
            Capability::ListDirectories(v) => CapabilityView::ListDirectories(texts(v@)),
            Capability::TypeCommands(v) => CapabilityView::TypeCommands(texts(v@)),
            Capability::RunCommands(v) => CapabilityView::RunCommands(texts(v@)),
            Capability::ReadCommands => CapabilityView::ReadCommands,
        }
    }
}

/// How much a piece of text matters, rather than what colour it is.
#[derive(Copy, Clone, Debug, Default, PartialEq, Eq, Structural)]
pub enum Tone {
    /// The ordinary weight of text on this surface.
    #[default]
    Primary,
    /// Secondary: a subtitle, a unit, a hint.
    Muted,
    /// The one thing on the surface that is being pointed at.
    Accent,
    /// Something is not right but nothing has failed.
    Warning,
    /// Something failed.
    Danger,
    /// Something worked.
    Success,
}

/// How big a piece of text is, relative to the interface.
#[derive(Copy, Clone, Debug, Default, PartialEq, Eq, Structural)]
pub enum Size {
    /// Smaller than the interface's default.
    Small,
    /// The interface's default.
    #[default]
    Body,
    /// A heading.
    Large,
}

/// A gap, in units rather than pixels.
#[derive(Copy, Clone, Debug, Default, PartialEq, Eq, Structural)]
pub enum Gap {
    /// The gap between two words.
    Small,
    /// The gap between two controls.
    #[default]
    Medium,
    /// The gap between two groups.
    Large,
}

/// Something to draw, described rather than painted.
#[derive(Debug, PartialEq)]
pub enum Node {
    /// Nothing at all.
    Empty,
    /// A run of text.
    Text { text: String, size: Size, tone: Tone },
    /// Text inside a rounded pill.
    Badge { text: String, tone: Tone },
    /// One of Crook's icons, by its Lucide name.
    Icon { name: String, tone: Tone },
    /// Children left to right.
    Row(Vec<Node>),
    /// Children top to bottom.
    Column(Vec<Node>),
    /// A fixed gap.
    Gap(Gap),
    /// Something to press, which runs one of the plugin's named actions.
    Button { label: String, action: String, tone: Tone },
    /// A bar with part of it filled. The fraction, between zero and one, is
    /// carried as the bits of its IEEE-754 single-precision number, which is
    /// what the host reads it as.
    Meter { fraction_bits: u32, tone: Tone },
    /// A hairline across whatever holds it.
    Rule,
    /// Space that takes whatever is left over.
    Fill,
    /// Prose, which wraps.
    Note { text: String, tone: Tone },
    /// Anything at all, made to answer a click.
    Pressable { content: Box<Node>, action: String },
    /// Something with a panel hung under it; `panel` is `None` while it is shut.
    Anchored { content: Box<Node>, panel: Option<Box<Node>>, dismiss: String },
    /// A list to choose from, with a field over it that the host drives.
    Picker { placeholder: String, rows: Vec<Row>, choose: String },
    /// A mark and a word in a quiet pill.
    Chip { icon: String, text: String, tone: Tone },
    /// Something with a menu on its secondary click.
    Menu { content: Box<Node>, items: Vec<MenuItem> },
}

/// One thing a [`Node::Picker`] offers.
#[derive(Clone, Debug, Default, PartialEq, Eq)]
pub struct Row {
    /// What the plugin is told when this row is chosen. Never shown.
    pub key: String,
    /// What the row says, and what the host filters on.
    pub label: String,
    /// A Lucide name drawn in front of the label, or empty.
    pub icon: String,
    /// Which of the theme's tones the label takes.
    pub tone: Tone,
}

/// A picker row as contracts read it: each string as its characters.
pub struct RowView {
    pub key: Seq<char>,
    pub label: Seq<char>,
    pub icon: Seq<char>,
    pub tone: Tone,
}

impl View for Row {
    type V = RowView;

    open spec fn view(&self) -> RowView {
        RowView { key: self.key@, label: self.label@, icon: self.icon@, tone: self.tone }
    }
}

/// The rows of a list, each by its view.
pub open spec fn rows_view(rows: Seq<Row>) -> Seq<RowView> {
    rows.map_values(|r: Row| r@)
}

/// One entry of a [`Node::Menu`].
#[derive(Clone, Debug, Default, PartialEq, Eq)]
pub struct MenuItem {
    /// What it says.
    pub label: String,
    /// The action it runs, without the plugin's own prefix.
    pub action: String,
    /// What that action is handed, or empty.
    pub argument: String,
}

/// Which HTTP verb a [`Request::Fetch`] is.
#[derive(Copy, Clone, Debug, PartialEq, Eq, Structural)]
pub enum Method {
    /// Ask for something.
    Get,
    /// Send something and be told what came back.
    Post,
}

/// Something a plugin asks the host to do on its behalf.
#[derive(Clone, Debug, PartialEq, Eq)]
pub enum Request {
    /// Reach the network.
    Fetch { method: Method, url: String, headers: Vec<(String, String)>, body: Option<Vec<u8>> },
    /// Read a file.
    ReadFile { path: String },
    /// Where the active pane is, and what git says about it.
    Where,
    /// The names in one directory.
    List { path: String },
    /// What the repository a directory is in has: its head, and its branches.
    Repository { path: String },
    /// Type a command into the active pane's shell: the granted template, and
    /// what goes in its hole.
    Type { template: String, argument: String },
    /// Run one of Crook's own commands.
    Run { name: String, argument: String },
    /// Everything Crook can be asked to do, and the chord that reaches each.
    Commands,
}

/// A request as contracts read it: each string as its characters.
pub enum RequestView {
    Fetch {
        method: Method,
        url: Seq<char>,
        headers: Seq<(Seq<char>, Seq<char>)>,
        body: Option<Seq<u8>>,
    },
    ReadFile { path: Seq<char> },
    Where,
    List { path: Seq<char> },
    Repository { path: Seq<char> },
    Type { template: Seq<char>, argument: Seq<char> },
    Run { name: Seq<char>, argument: Seq<char> },
    Commands,
}

impl View for Request {
    type V = RequestView;

    open spec fn view(&self) -> RequestView {
        match self {
            Request::Fetch { method, url, headers, body } => RequestView::Fetch {
                method: *method,
                url: url@,
                headers: headers@.map_values(|h: (String, String)| (h.0@, h.1@)),
                body: match body {
                    Some(b) => Some(b@),
                    None => None,
                },
            },
            Request::ReadFile { path } => RequestView::ReadFile { path: path@ },
            Request::Where => RequestView::Where,
            Request::List { path } => RequestView::List { path: path@ },
            Request::Repository { path } => RequestView::Repository { path: path@ },
            Request::Type { template, argument } => RequestView::Type {
                template: template@,
                argument: argument@,
            },
            Request::Run { name, argument } => RequestView::Run { name: name@, argument: argument@ },
            Request::Commands => RequestView::Commands,
        }
    }
}

/// Where a pane is: its working directory and the branch it is on.
#[derive(Clone, Debug, Default, PartialEq, Eq)]
pub struct Place {
    /// The working directory the shell last reported.
    pub directory: String,
    /// The branch it is on, or the short sha of a detached head, or `None`
    /// outside a repository.
    pub branch: Option<String>,
    /// Whether the directory is a linked worktree.
    pub worktree: bool,
}

/// A place as contracts read it: each string as its characters.
pub struct PlaceView {
    pub directory: Seq<char>,
    pub branch: Option<Seq<char>>,
    pub worktree: bool,
}

impl View for Place {
    type V = PlaceView;

    open spec fn view(&self) -> PlaceView {
        PlaceView { directory: self.directory@, branch: opt_text(self.branch), worktree: self.worktree }
    }
}

/// An optional place, by its view.
pub open spec fn opt_place(p: Option<Place>) -> Option<PlaceView> {
    match p {
        Some(p) => Some(p@),
        None => None,
    }
}

/// What became of a [`Request`].
#[derive(Clone, Debug, PartialEq, Eq)]
pub enum Answer {
    /// The request was made and the server answered.
    Fetched { status: u16, body: Vec<u8> },
    /// The file was read.
    Read { bytes: Vec<u8> },
    /// It was not granted; the sentence says what was asked for, in the words
    /// the permission dialog used.
    Refused(String),
    /// It was granted and attempted, and did not work.
    Failed(String),
    /// Where the active pane is, the person's home directory, and how many
    /// lines have been added and removed in its working tree.
    Where { place: Option<Place>, home: Option<String>, added: u32, removed: u32 },
    /// What is in a directory.
    Listed(Vec<Entry>),
    /// What a repository has.
    Repository { head: Option<String>, branches: Vec<String> },
    /// What Crook can be asked to do.
    Commands(Vec<Command>),
    /// It was granted, attempted and did what it said.
    Done,
}

/// An answer as contracts read it: each string as its characters.
pub enum AnswerView {
    Fetched { status: u16, body: Seq<u8> },
    Read { bytes: Seq<u8> },
    Refused(Seq<char>),
    Failed(Seq<char>),
    Where { place: Option<PlaceView>, home: Option<Seq<char>>, added: u32, removed: u32 },
    Listed(Seq<EntryView>),
    Repository { head: Option<Seq<char>>, branches: Seq<Seq<char>> },
    Commands(Seq<CommandView>),
    Done,
}

impl View for Answer {
    type V = AnswerView;

    open spec fn view(&self) -> AnswerView {
        match self {
            Answer::Fetched { status, body } => AnswerView::Fetched { status: *status, body: body@ },
            Answer::Read { bytes } => AnswerView::Read { bytes: bytes@ },
            Answer::Refused(s) => AnswerView::Refused(s@),
            Answer::Failed(s) => AnswerView::Failed(s@),
            Answer::Where { place, home, added, removed } => AnswerView::Where {
                place: opt_place(*place),
                home: opt_text(*home),
                added: *added,
                removed: *removed,
            },
            Answer::Listed(entries) => AnswerView::Listed(entries_view(entries@)),
            Answer::Repository { head, branches } => AnswerView::Repository {
                head: opt_text(*head),
                branches: texts(branches@),
            },
            Answer::Commands(commands) => AnswerView::Commands(commands_view(commands@)),
            Answer::Done => AnswerView::Done,
        }
    }
}

/// Where a pane is, and what git says about it.
#[derive(Clone, Debug, Default, PartialEq, Eq)]
pub struct Facts {
    /// The working directory the shell last reported, or `None`.
    pub directory: Option<String>,
    /// The branch it is on, or the short sha of a detached head.
    pub branch: Option<String>,
    /// The person's home directory.
    pub home: Option<String>,
    /// Lines added in the working tree against `HEAD`.
    pub added: u32,
    /// Lines removed.
    pub removed: u32,
}

/// One name in a directory.
#[derive(Clone, Debug, Default, PartialEq, Eq)]
pub struct Entry {
    /// The name alone, with no path in front of it.
    pub name: String,
    /// Whether it is a directory.
    pub directory: bool,
}

/// A directory entry as contracts read it: each string as its characters.
pub struct EntryView {
    pub name: Seq<char>,
    pub directory: bool,
}

impl View for Entry {
    type V = EntryView;

    open spec fn view(&self) -> EntryView {
        EntryView { name: self.name@, directory: self.directory }
    }
}

/// The entries of a list, each by its view.
pub open spec fn entries_view(v: Seq<Entry>) -> Seq<EntryView> {
    v.map_values(|e: Entry| e@)
}

/// One thing Crook can be asked to do.
#[derive(Clone, Debug, Default, PartialEq, Eq)]
pub struct Command {
    /// Its full name, which is what a keybindings file writes.
    pub name: String,
    /// What a person calls it.
    pub title: String,
    /// The chord that reaches it, or `None` for a command nothing is bound to.
    pub chord: Option<String>,
}

/// A command as contracts read it: each string as its characters.
pub struct CommandView {
    pub name: Seq<char>,
    pub title: Seq<char>,
    pub chord: Option<Seq<char>>,
}

impl View for Command {
    type V = CommandView;

    open spec fn view(&self) -> CommandView {
        CommandView { name: self.name@, title: self.title@, chord: opt_text(self.chord) }
    }
}

/// The commands of a list, each by its view.
pub open spec fn commands_view(v: Seq<Command>) -> Seq<CommandView> {
    v.map_values(|c: Command| c@)
}

/// Everything a plugin registered while it built.
#[derive(Clone, Debug, Default, PartialEq)]
pub struct Registered {
    /// The slots it contributed to, with the entry name and the order.
    pub contributions: Vec<Contribution>,
    /// The actions it offers, by name and title.
    pub actions: Vec<Action>,
}

/// One contribution to one slot.
#[derive(Clone, Debug, PartialEq, Eq)]
pub struct Contribution {
    /// The slot's name.
    pub slot: String,
    /// This contribution's own name, unique within the plugin.
    pub entry: String,
    /// Where it goes among the others; lower is earlier.
    pub order: i32,
}

/// One named action.
#[derive(Clone, Debug, PartialEq, Eq)]
pub struct Action {
    /// The action's name within the plugin.
    pub name: String,
    /// What a palette calls it, or `None` for an action that is reachable but
    /// not offered.
    pub title: Option<String>,
}

/// The items of a list joined by `", "`.
pub open spec fn comma_list(items: Seq<Seq<char>>) -> Seq<char>
    decreases items.len(),
{
    if items.len() == 0 {
        Seq::empty()
    } else if items.len() == 1 {
        items[0]
    } else {
        comma_list(items.drop_last()) + ", "@ + items.last()
    }
}

/// A template with every `{}` in it, read left to right, written as `…`.
pub open spec fn filled(t: Seq<char>) -> Seq<char>
    decreases t.len(),
{
    if t.len() == 0 {
        t
    } else if t.len() >= 2 && t[0] == '{' && t[1] == '}' {
        seq!['\u{2026}'] + filled(t.skip(2))
    } else {
        seq![t[0]] + filled(t.skip(1))
    }
}

/// The sentence a permission dialog says for a capability.
pub open spec fn sentence_of(c: CapabilityView) -> Seq<char> {
    match c {
        CapabilityView::ReadSettings => "Read your settings"@,
        CapabilityView::ReadTabs => "See what your tabs are called"@,
        CapabilityView::ReadWorkingDirectory => "See which project each tab is in"@,
        CapabilityView::Network(hosts) => "Reach "@ + comma_list(hosts),
        CapabilityView::Clipboard => "Read and change your clipboard"@,
        CapabilityView::Storage => "Keep notes of its own between sessions"@,
        CapabilityView::ReadFiles(paths) => "Read "@ + comma_list(paths),
        CapabilityView::ListDirectories(roots) => "See the names of the files in "@ + comma_list(
            roots,
        ),
        CapabilityView::TypeCommands(templates) => "Type into your shell, and run: "@ + comma_list(
            templates.map_values(|t: Seq<char>| filled(t)),
        ),
        CapabilityView::RunCommands(names) => "Use Crook's own "@ + comma_list(names),
        CapabilityView::ReadCommands => "See what Crook can be asked to do, and the keys for it"@,
    }
}

/// Each item of a list with the same prefix in front of it.
pub open spec fn prefixed(prefix: Seq<char>, items: Seq<Seq<char>>) -> Seq<Seq<char>> {
    items.map_values(|item: Seq<char>| prefix + item)
}

/// What granting a capability is written down as: one key per thing granted.
pub open spec fn keys_of(c: CapabilityView) -> Seq<Seq<char>> {
    match c {
        CapabilityView::ReadSettings => seq!["settings.read"@],
        CapabilityView::ReadTabs => seq!["tabs.read"@],
        CapabilityView::ReadWorkingDirectory => seq!["cwd.read"@],
        CapabilityView::Network(hosts) => prefixed("net:"@, hosts),
        CapabilityView::Clipboard => seq!["clipboard"@],
        CapabilityView::Storage => seq!["storage"@],
        CapabilityView::ReadFiles(paths) => prefixed("file:"@, paths),
        CapabilityView::ListDirectories(roots) => prefixed("list:"@, roots),
        CapabilityView::TypeCommands(templates) => prefixed("type:"@, templates),
        CapabilityView::RunCommands(names) => prefixed("run:"@, names),
        CapabilityView::ReadCommands => seq!["commands.read"@],
    }
}

/// Writes every `{}` of a template as `…`.
pub fn fill_holes(template: &str) -> (res: String)
    ensures
        res@ == filled(template@),
{
    let n = template.unicode_len();
    let mut res = String::new();
    let mut i: usize = 0;
    proof {
        assert(template@.skip(0) =~= template@);
    }
    while i < n
        invariant
            n == template@.len(),
            i <= n,
            res@ + filled(template@.skip(i as int)) == filled(template@),
        decreases n - i,
    {
        let ghost rest = template@.skip(i as int);
        let c = template.get_char(i);
        if c == '{' && i + 1 < n && template.get_char(i + 1) == '}' {
            proof {
                reveal_strlit("\u{2026}");
                assert(rest.skip(2) =~= template@.skip(i + 2));
                assert(res@ + "\u{2026}"@ + filled(template@.skip(i + 2)) =~= res@ + filled(rest));
            }
            res.append("\u{2026}");
            i = i + 2;
        } else {
            let piece = template.substring_char(i, i + 1);
            proof {
                assert(rest.skip(1) =~= template@.skip(i + 1));
                assert(piece@ =~= seq![rest[0]]);
                assert(res@ + piece@ + filled(template@.skip(i + 1)) =~= res@ + filled(rest));
            }
            res.append(piece);
            i = i + 1;
        }
    }
    proof {
        assert(template@.skip(n as int) =~= Seq::<char>::empty());
        assert(res@ + Seq::<char>::empty() =~= res@);
    }
    res
}

/// "Read a, b, c", built from a lead-in and the things granted.
fn list_sentence(lead: &str, items: &[String]) -> (sentence: String)
    ensures
        sentence@ == lead@ + comma_list(texts(items@)),
{
    let mut sentence = lead.to_owned();
    let mut index: usize = 0;
    proof {
        assert(texts(items@).take(0) =~= Seq::<Seq<char>>::empty());
        assert(sentence@ =~= lead@ + comma_list(texts(items@).take(0)));
    }
    while index < items.len()
        invariant
            index <= items@.len(),
            sentence@ == lead@ + comma_list(texts(items@).take(index as int)),
        decreases items@.len() - index,
    {
        let ghost all = texts(items@);
        proof {
            assert(all.take(index + 1).drop_last() =~= all.take(index as int));
        }
        if index > 0 {
            sentence.append(", ");
        }
        sentence.append(items[index].as_str());
        proof {
            if index == 0 {
                assert(all.take(1) =~= seq![items@[0]@]);
            }
            assert(sentence@ =~= lead@ + comma_list(all.take(index + 1)));
        }
        index = index + 1;
    }
    proof {
        assert(texts(items@).take(items@.len() as int) =~= texts(items@));
    }
    sentence
}

/// Each item with the same prefix in front of it.
fn keys_with(prefix: &str, items: &Vec<String>) -> (keys: Vec<String>)
    ensures
        texts(keys@) == prefixed(prefix@, texts(items@)),
{
    let mut keys: Vec<String> = Vec::new();
    let mut i: usize = 0;
    while i < items.len()
        invariant
            i <= items@.len(),
            texts(keys@) =~= prefixed(prefix@, texts(items@)).take(i as int),
        decreases items@.len() - i,
    {
        let key = prefix.to_owned().concat(items[i].as_str());
        let ghost before = keys@;
        keys.push(key);
        proof {
            assert(keys@ == before.push(key));
            assert(texts(keys@) =~= texts(before).push(key@));
            assert(texts(keys@) =~= prefixed(prefix@, texts(items@)).take(i + 1));
        }
        i = i + 1;
    }
    keys
}

/// One key, alone in its list.
fn single_key(key: &str) -> (keys: Vec<String>)
    ensures
        texts(keys@) == seq![key@],
{
    let mut keys: Vec<String> = Vec::new();
    keys.push(key.to_owned());
    proof {
        assert(texts(keys@) =~= seq![key@]);
    }
    keys
}

impl Capability {
    /// The sentence a permission dialog says.
    pub fn sentence(&self) -> (s: String)
        ensures
            s@ == sentence_of(self@),
    {
        match self {
            Capability::ReadSettings => "Read your settings".to_owned(),
            Capability::ReadTabs => "See what your tabs are called".to_owned(),
            Capability::ReadWorkingDirectory => "See which project each tab is in".to_owned(),
            Capability::Network(hosts) => list_sentence("Reach ", hosts.as_slice()),
            Capability::Clipboard => "Read and change your clipboard".to_owned(),
            Capability::Storage => "Keep notes of its own between sessions".to_owned(),
            Capability::ReadFiles(paths) => list_sentence("Read ", paths.as_slice()),
            Capability::ListDirectories(roots) => list_sentence(
                "See the names of the files in ",
                roots.as_slice(),
            ),
            Capability::TypeCommands(templates) => {
                let mut filled_in: Vec<String> = Vec::new();
                let mut i: usize = 0;
                while i < templates.len()
                    invariant
                        i <= templates@.len(),
                        texts(filled_in@) =~= texts(templates@).map_values(
                            |t: Seq<char>| filled(t),
                        ).take(i as int),
                    decreases templates@.len() - i,
                {
                    let one = fill_holes(templates[i].as_str());
                    let ghost before = filled_in@;
                    filled_in.push(one);
                    proof {
                        assert(texts(filled_in@) =~= texts(before).push(one@));
                        assert(texts(filled_in@) =~= texts(templates@).map_values(
                            |t: Seq<char>| filled(t),
                        ).take(i + 1));
                    }
                    i = i + 1;
                }
                proof {
                    assert(texts(filled_in@) =~= texts(templates@).map_values(
                        |t: Seq<char>| filled(t),
                    ));
                }
                list_sentence("Type into your shell, and run: ", filled_in.as_slice())
            },
            Capability::RunCommands(names) => list_sentence("Use Crook's own ", names.as_slice()),
            Capability::ReadCommands => "See what Crook can be asked to do, and the keys for it".to_owned(),
        }
    }

    /// What granting this is written down as, one string per thing granted.
    pub fn keys(&self) -> (keys: Vec<String>)
        ensures
            texts(keys@) == keys_of(self@),
    {
        match self {
            Capability::ReadSettings => single_key("settings.read"),
            Capability::ReadTabs => single_key("tabs.read"),
            Capability::ReadWorkingDirectory => single_key("cwd.read"),
            Capability::Network(hosts) => keys_with("net:", hosts),
            Capability::Clipboard => single_key("clipboard"),
            Capability::Storage => single_key("storage"),
            Capability::ReadFiles(paths) => keys_with("file:", paths),
            Capability::ListDirectories(roots) => keys_with("list:", roots),
            Capability::TypeCommands(templates) => keys_with("type:", templates),
            Capability::RunCommands(names) => keys_with("run:", names),
            Capability::ReadCommands => single_key("commands.read"),
        }
    }
}

} // verus!
