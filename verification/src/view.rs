//! What the chips look like, described rather than drawn.
//!
//! Four contributions to one slot, and each of them is a chip with something
//! hung under it: where the pane is, which branch it is on, how much has
//! changed, and what one chord would do. Nothing here names a colour, a pixel
//! or a font. A [`Node::Picker`] is driven by the host: this says what can be
//! chosen and is told which one was.
use vstd::prelude::*;
use vstd::string::*;

use crate::api::{Gap, MenuItem, Node, Row, RowView, Tone, rows_view};
use crate::state::{
    Chips, ChipsView, Panel, SHOWN_COMMAND, SLOT, command_index, place_branch, place_directory,
};
use crate::text::{same, starts_with};

verus! {

/// A path as a chip prints it: the home directory written `~`, and only
/// where what follows it is nothing or a separator.
pub open spec fn shortened(path: Seq<char>, home: Option<Seq<char>>) -> Seq<char> {
    match home {
        Some(h) => if h.len() > 0 && h.is_prefix_of(path) {
            let rest = path.skip(h.len() as int);
            if rest.len() == 0 {
                "~"@
            } else if rest[0] == '/' {
                "~"@ + rest
            } else {
                path
            }
        } else {
            path
        },
        None => path,
    }
}

/// A path without the separators at its end.
pub open spec fn trimmed(s: Seq<char>) -> Seq<char>
    decreases s.len(),
{
    if s.len() > 0 && s.last() == '/' {
        trimmed(s.drop_last())
    } else {
        s
    }
}

/// Where the last separator of a path is, if it has one.
pub open spec fn last_slash(s: Seq<char>) -> Option<int>
    decreases s.len(),
{
    if s.len() == 0 {
        None
    } else if s.last() == '/' {
        Some(s.len() - 1)
    } else {
        last_slash(s.drop_last())
    }
}

/// The directory above a path: everything before its last separator, once
/// separators at its end are set aside; the root is written `/`, and a path
/// with no separator has no parent.
pub open spec fn parent(path: Seq<char>) -> Option<Seq<char>> {
    let t = trimmed(path);
    match last_slash(t) {
        None => None,
        Some(at) => if at == 0 {
            Some("/"@)
        } else {
            Some(t.take(at))
        },
    }
}

/// A directory and a name in it, with exactly one separator between them.
pub open spec fn joined(directory: Seq<char>, name: Seq<char>) -> Seq<char> {
    if directory.len() > 0 && directory.last() == '/' {
        directory + name
    } else {
        directory + "/"@ + name
    }
}

/// The character of a decimal digit.
pub open spec fn digit(d: int) -> char {
    seq!['0', '1', '2', '3', '4', '5', '6', '7', '8', '9'][d]
}

/// A number written in decimal, with no leading zero.
pub open spec fn decimal(n: nat) -> Seq<char>
    decreases n,
{
    if n < 10 {
        seq![digit(n as int)]
    } else {
        decimal(n / 10).push(digit((n % 10) as int))
    }
}

/// What std's `str::to_lowercase` gives back for a string: the string's
/// Unicode lowercase, as std computes it (a capital sigma by where it stands
/// in a word), which takes Unicode's tables to state and so is named here
/// rather than written out.
pub uninterp spec fn lowercase(s: Seq<char>) -> Seq<char>;

/// Calls std's `str::to_lowercase`. Its contract claims no more than that
/// the result is [`lowercase`] of the argument, a function of the argument
/// alone; what that mapping is, character by character, is left unsaid.
#[verifier::external_body]
fn to_lowercase(s: &str) -> (res: String)
    ensures
        res@ == lowercase(s@),
{
    s.to_lowercase()
}

/// A number written in decimal.
fn decimal_text(n: u32) -> (s: String)
    ensures
        s@ == decimal(n as nat),
    decreases n,
{
    let d = (n % 10) as usize;
    proof {
        reveal_strlit("0123456789");
        assert("0123456789"@ =~= seq!['0', '1', '2', '3', '4', '5', '6', '7', '8', '9']);
    }
    let piece = "0123456789".substring_char(d, d + 1);
    proof {
        assert(piece@ =~= seq![digit(d as int)]);
    }
    if n < 10 {
        piece.to_owned()
    } else {
        let mut s = decimal_text(n / 10);
        s.append(piece);
        proof {
            assert(s@ =~= decimal(n as nat));
        }
        s
    }
}

/// A path as a chip prints it: the home directory written `~`.
///
/// The prefix only counts when the next character is a separator, so a sibling
/// directory named `/home/eugene` beside `/home/eugen` is not reprinted as `~e`.
pub fn shorten(path: &str, home: Option<&str>) -> (res: String)
    ensures
        res@ == shortened(
            path@,
            match home {
                Some(h) => Some(h@),
                None => None,
            },
        ),
{
    let h = match home {
        Some(h) => h,
        None => return path.to_owned(),
    };
    let hl = h.unicode_len();
    if hl == 0 || !starts_with(path, h) {
        return path.to_owned();
    }
    let pl = path.unicode_len();
    if pl == hl {
        proof {
            assert(path@.skip(hl as int).len() == 0);
        }
        "~".to_owned()
    } else if path.get_char(hl) == '/' {
        let rest = path.substring_char(hl, pl);
        proof {
            assert(rest@ =~= path@.skip(hl as int));
        }
        "~".to_owned().concat(rest)
    } else {
        proof {
            assert(path@.skip(hl as int)[0] == path@[hl as int]);
        }
        path.to_owned()
    }
}

/// The directory above this one, or `None` at the root.
pub fn parent_of(path: &str) -> (res: Option<String>)
    ensures
        match parent(path@) {
            Some(p) => res matches Some(r) && r@ == p,
            None => res is None,
        },
{
    let len = path.unicode_len();
    let mut n = len;
    proof {
        assert(path@.take(len as int) =~= path@);
    }
    while n > 0 && path.get_char(n - 1) == '/'
        invariant
            n <= len,
            len == path@.len(),
            trimmed(path@) == trimmed(path@.take(n as int)),
        decreases n,
    {
        proof {
            assert(path@.take(n as int).drop_last() =~= path@.take(n - 1));
        }
        n = n - 1;
    }
    let ghost t = path@.take(n as int);
    proof {
        assert(trimmed(t) == t);
        assert(t.take(n as int) =~= t);
    }
    let mut i = n;
    while i > 0
        invariant
            i <= n,
            n <= len,
            len == path@.len(),
            t == path@.take(n as int),
            trimmed(path@) == t,
            last_slash(t) == last_slash(t.take(i as int)),
        decreases i,
    {
        proof {
            assert(t.take(i as int).drop_last() =~= t.take(i - 1));
        }
        if path.get_char(i - 1) == '/' {
            let at = i - 1;
            if at == 0 {
                return Some("/".to_owned());
            } else {
                let before = path.substring_char(0, at);
                proof {
                    assert(before@ =~= t.take(at as int));
                }
                return Some(before.to_owned());
            }
        }
        i = i - 1;
    }
    None
}

/// A directory and a name in it, with exactly one separator between them.
pub fn join(directory: &str, name: &str) -> (res: String)
    ensures
        res@ == joined(directory@, name@),
{
    let dl = directory.unicode_len();
    if dl > 0 && directory.get_char(dl - 1) == '/' {
        directory.to_owned().concat(name)
    } else {
        directory.to_owned().concat("/").concat(name)
    }
}

/// The view of a string that may be there.
pub open spec fn opt_view(o: Option<&str>) -> Option<Seq<char>> {
    match o {
        Some(s) => Some(s@),
        None => None,
    }
}

/// A chip: a mark and a word in a quiet pill.
pub open spec fn is_chip(n: Node, icon: Seq<char>, text: Seq<char>, tone: Tone) -> bool {
    match n {
        Node::Chip { icon: i, text: t, tone: o } => i@ == icon && t@ == text && o == tone,
        _ => false,
    }
}

/// A chip that runs an action when it is pressed.
pub open spec fn is_pressable_chip(
    n: Node,
    action: Seq<char>,
    icon: Seq<char>,
    text: Seq<char>,
    tone: Tone,
) -> bool {
    match n {
        Node::Pressable { content, action: a } => a@ == action && is_chip(*content, icon, text, tone),
        _ => false,
    }
}

/// A picker offering these rows, under a field that says `placeholder`.
pub open spec fn is_picker(
    n: Node,
    placeholder: Seq<char>,
    rows: Seq<RowView>,
    choose: Seq<char>,
) -> bool {
    match n {
        Node::Picker { placeholder: p, rows: r, choose: c } => p@ == placeholder && rows_view(r@)
            == rows && c@ == choose,
        _ => false,
    }
}

/// A note: prose, which wraps.
pub open spec fn is_note(n: Node, text: Seq<char>, tone: Tone) -> bool {
    match n {
        Node::Note { text: t, tone: o } => t@ == text && o == tone,
        _ => false,
    }
}

/// A panel: what it holds, and, when something has gone wrong, under it a
/// small gap, a rule, a small gap and the trouble as a note in the danger tone.
pub open spec fn is_panel(n: Node, trouble: Option<Seq<char>>, holds: spec_fn(Node) -> bool) -> bool {
    match trouble {
        None => holds(n),
        Some(t) => match n {
            Node::Column(v) => {
                &&& v@.len() == 5
                &&& holds(v@[0])
                &&& v@[1] == Node::Gap(Gap::Small)
                &&& v@[2] == Node::Rule
                &&& v@[3] == Node::Gap(Gap::Small)
                &&& is_note(v@[4], t, Tone::Danger)
            },
            _ => false,
        },
    }
}

/// A chip that opens a picker, with the picker hung under it while `open`.
pub open spec fn is_anchored_picker(
    n: Node,
    open: bool,
    trouble: Option<Seq<char>>,
    action: Seq<char>,
    icon: Seq<char>,
    text: Seq<char>,
    tone: Tone,
    placeholder: Seq<char>,
    rows: Seq<RowView>,
    choose: Seq<char>,
) -> bool {
    match n {
        Node::Anchored { content, panel, dismiss } => {
            &&& dismiss@ == "dismiss"@
            &&& is_pressable_chip(*content, action, icon, text, tone)
            &&& match panel {
                None => !open,
                Some(p) => open && is_panel(
                    *p,
                    trouble,
                    |x: Node| is_picker(x, placeholder, rows, choose),
                ),
            }
        },
        _ => false,
    }
}

/// The rows of the directory picker: the way up, when there is one, then one
/// row per entry of the directory being shown.
pub open spec fn directory_rows(c: ChipsView) -> Seq<RowView> {
    let up = match parent(c.browsing) {
        Some(p) => seq![
            RowView {
                key: p,
                label: ".. (parent directory)"@,
                icon: "corner-left-up"@,
                tone: Tone::Muted,
            },
        ],
        None => Seq::empty(),
    };
    up + Seq::new(
        c.entries.len(),
        |i: int|
            RowView {
                key: joined(c.browsing, c.entries[i].name),
                label: c.entries[i].name,
                icon: "folder"@,
                tone: Tone::Primary,
            },
    )
}

/// The rows of the branch picker: every branch, the one checked out marked.
pub open spec fn branch_rows(c: ChipsView) -> Seq<RowView> {
    Seq::new(
        c.branches.len(),
        |i: int|
            {
                let b = c.branches[i];
                let current = c.head == Some(b);
                RowView {
                    key: b,
                    label: b,
                    icon: if current {
                        "check"@
                    } else {
                        "git-branch"@
                    },
                    tone: if current {
                        Tone::Accent
                    } else {
                        Tone::Primary
                    },
                }
            },
    )
}

/// The directory chip: nothing until the pane has said where it is.
pub open spec fn directory_chip(c: ChipsView, n: Node) -> bool {
    match place_directory(c.place) {
        None => n == Node::Empty,
        Some(d) => is_anchored_picker(
            n,
            c.panel == Panel::Directory,
            c.trouble,
            "open-directory"@,
            "folder"@,
            shortened(d, c.home),
            Tone::Primary,
            "Search directories\u{2026}"@,
            directory_rows(c),
            "choose-directory"@,
        ),
    }
}

/// The branch chip: nothing outside a repository.
pub open spec fn branch_chip(c: ChipsView, n: Node) -> bool {
    match place_branch(c.place) {
        None => n == Node::Empty,
        Some(b) => is_anchored_picker(
            n,
            c.panel == Panel::Branch,
            c.trouble,
            "open-branch"@,
            "git-branch"@,
            b,
            Tone::Success,
            "Search branches\u{2026}"@,
            branch_rows(c),
            "choose-branch"@,
        ),
    }
}

/// The diff chip: nothing outside a repository or while nothing has changed.
pub open spec fn diff_chip(c: ChipsView, n: Node) -> bool {
    if place_branch(c.place) is None || (c.added == 0 && c.removed == 0) {
        n == Node::Empty
    } else {
        is_chip(
            n,
            "diff"@,
            "+"@ + decimal(c.added as nat) + " \u{2212}"@ + decimal(c.removed as nat),
            Tone::Warning,
        )
    }
}

/// What the keys chip says: the chord and the command's title in lower case,
/// or the title and that no keys reach it.
pub open spec fn keys_text(chord: Option<Seq<char>>, title: Seq<char>) -> Seq<char> {
    match chord {
        Some(ch) => ch + "  "@ + lowercase(title),
        None => lowercase(title) + "  (no keys)"@,
    }
}

/// The keys chip: nothing until the host has said what the shown command is;
/// then a chip that runs it, with a menu that changes its binding.
pub open spec fn keys_chip(c: ChipsView, n: Node) -> bool {
    match command_index(c.commands, SHOWN_COMMAND@) {
        None => n == Node::Empty,
        Some(i) => match n {
            Node::Menu { content, items } => {
                &&& is_pressable_chip(
                    *content,
                    "run-command"@,
                    "keyboard"@,
                    keys_text(c.commands[i].chord, c.commands[i].title),
                    Tone::Muted,
                )
                &&& items@.len() == 1
                &&& items@[0].label@ == "Change keybinding"@
                &&& items@[0].action@ == "rebind"@
                &&& items@[0].argument@ == SHOWN_COMMAND@
            },
            _ => false,
        },
    }
}

/// What one contribution draws, by its entry name.
pub open spec fn drawn(c: ChipsView, entry: Seq<char>, n: Node) -> bool {
    if entry == "directory"@ {
        directory_chip(c, n)
    } else if entry == "branch"@ {
        branch_chip(c, n)
    } else if entry == "diff"@ {
        diff_chip(c, n)
    } else if entry == "keys"@ {
        keys_chip(c, n)
    } else {
        n == Node::Empty
    }
}

/// What one of this plugin's contributions draws.
pub fn chip(chips: &Chips, entry: &str) -> (n: Node)
    ensures
        drawn(chips@, entry@, n),
{
    if same(entry, "directory") {
        directory(chips)
    } else if same(entry, "branch") {
        branch(chips)
    } else if same(entry, "diff") {
        diff(chips)
    } else if same(entry, "keys") {
        keys(chips)
    } else {
        // A contribution this build does not know it made.
        Node::Empty
    }
}

/// What to draw for a contribution to a slot: the chip of that entry where
/// the slot is the chips' own, and nothing for a slot they do not contribute
/// to, which draws nothing rather than a guess.
pub fn render(chips: &Chips, slot: &str, entry: &str) -> (n: Node)
    ensures
        if slot@ == SLOT@ {
            drawn(chips@, entry@, n)
        } else {
            n == Node::Empty
        },
{
    if same(slot, SLOT) {
        chip(chips, entry)
    } else {
        Node::Empty
    }
}

/// A chip that opens a picker, with the picker under it when it is open.
fn anchored(
    action: &str,
    icon: &str,
    text: String,
    tone: Tone,
    panel: Option<Box<Node>>,
) -> (n: Node)
    ensures
        n matches Node::Anchored { content, panel: p, dismiss } && dismiss@ == "dismiss"@
            && is_pressable_chip(*content, action@, icon@, text@, tone) && p == panel,
{
    Node::Anchored {
        content: Box::new(
            Node::Pressable {
                content: Box::new(Node::Chip { icon: icon.to_owned(), text, tone }),
                action: action.to_owned(),
            },
        ),
        panel,
        dismiss: "dismiss".to_owned(),
    }
}

/// Where the pane is, and the directories it could be in instead.
fn directory(chips: &Chips) -> (n: Node)
    ensures
        directory_chip(chips@, n),
{
    let dir = match chips.directory() {
        Some(d) => d,
        // A pane whose shell has not said where it is: an empty contribution
        // takes no room in the row.
        None => return Node::Empty,
    };
    let panel = if chips.panel == Panel::Directory {
        let picker = Node::Picker {
            placeholder: "Search directories\u{2026}".to_owned(),
            rows: directories(chips),
            choose: "choose-directory".to_owned(),
        };
        Some(Box::new(panelled(chips, picker)))
    } else {
        None
    };
    let home = match &chips.home {
        Some(h) => Some(h.as_str()),
        None => None,
    };
    anchored("open-directory", "folder", shorten(dir, home), Tone::Primary, panel)
}

/// The rows of the directory picker: the way up, and everything under here.
fn directories(chips: &Chips) -> (rows: Vec<Row>)
    ensures
        rows_view(rows@) == directory_rows(chips@),
{
    let mut rows: Vec<Row> = Vec::new();
    match parent_of(chips.browsing.as_str()) {
        Some(parent) => {
            rows.push(
                Row {
                    key: parent,
                    label: ".. (parent directory)".to_owned(),
                    icon: "corner-left-up".to_owned(),
                    tone: Tone::Muted,
                },
            );
        },
        None => {},
    }
    let ghost up = rows_view(rows@);
    let mut i: usize = 0;
    while i < chips.entries.len()
        invariant
            i <= chips.entries@.len(),
            up.len() <= 1,
            rows_view(rows@) =~= up + directory_rows(chips@).skip(up.len() as int).take(i as int),
            directory_rows(chips@) =~= up + directory_rows(chips@).skip(up.len() as int),
            directory_rows(chips@).skip(up.len() as int).len() == chips.entries@.len(),
        decreases chips.entries@.len() - i,
    {
        let entry = &chips.entries[i];
        let row = Row {
            key: join(chips.browsing.as_str(), entry.name.as_str()),
            label: entry.name.clone(),
            icon: "folder".to_owned(),
            tone: Tone::Primary,
        };
        let ghost before = rows@;
        rows.push(row);
        proof {
            assert(rows_view(rows@) =~= rows_view(before).push(row@));
        }
        i = i + 1;
    }
    rows
}

/// Which branch the pane is on, and the ones it could be on instead.
fn branch(chips: &Chips) -> (n: Node)
    ensures
        branch_chip(chips@, n),
{
    let b = match chips.branch() {
        Some(b) => b,
        None => return Node::Empty,
    };
    let panel = if chips.panel == Panel::Branch {
        let picker = Node::Picker {
            placeholder: "Search branches\u{2026}".to_owned(),
            rows: branches(chips),
            choose: "choose-branch".to_owned(),
        };
        Some(Box::new(panelled(chips, picker)))
    } else {
        None
    };
    anchored("open-branch", "git-branch", b.to_owned(), Tone::Success, panel)
}

/// Every branch, with the one that is checked out marked.
fn branches(chips: &Chips) -> (rows: Vec<Row>)
    ensures
        rows_view(rows@) == branch_rows(chips@),
{
    let mut rows: Vec<Row> = Vec::new();
    let mut i: usize = 0;
    while i < chips.branches.len()
        invariant
            i <= chips.branches@.len(),
            rows_view(rows@) =~= branch_rows(chips@).take(i as int),
        decreases chips.branches@.len() - i,
    {
        let b = &chips.branches[i];
        let current = match &chips.head {
            Some(h) => *h == *b,
            None => false,
        };
        // The one you are on reads as the one you are on, rather than as a
        // row that would do nothing.
        let row = Row {
            key: b.clone(),
            label: b.clone(),
            icon: if current {
                "check".to_owned()
            } else {
                "git-branch".to_owned()
            },
            tone: if current {
                Tone::Accent
            } else {
                Tone::Primary
            },
        };
        let ghost before = rows@;
        rows.push(row);
        proof {
            assert(rows_view(rows@) =~= rows_view(before).push(row@));
        }
        i = i + 1;
    }
    rows
}

/// How much has changed in the working tree, when anything has.
fn diff(chips: &Chips) -> (n: Node)
    ensures
        diff_chip(chips@, n),
{
    let added = chips.added;
    let removed = chips.removed;
    if chips.branch().is_none() || (added == 0 && removed == 0) {
        // A chip that is always there saying nothing changed is a chip the
        // eye stops reading.
        return Node::Empty;
    }
    let text = "+".to_owned().concat(decimal_text(added).as_str()).concat(" \u{2212}").concat(
        decimal_text(removed).as_str(),
    );
    Node::Chip { icon: "diff".to_owned(), text, tone: Tone::Warning }
}

/// What one chord does, and a way to change it.
fn keys(chips: &Chips) -> (n: Node)
    ensures
        keys_chip(chips@, n),
{
    let command = match chips.shown_command() {
        Some(c) => c,
        None => return Node::Empty,
    };
    let title = to_lowercase(command.title.as_str());
    let text = match &command.chord {
        Some(chord) => chord.clone().concat("  ").concat(title.as_str()),
        // Worth saying even unbound: this is the chip a person presses to find
        // out there is no chord, and then rebinds from its own menu.
        None => title.concat("  (no keys)"),
    };
    let mut items: Vec<MenuItem> = Vec::new();
    items.push(
        MenuItem {
            label: "Change keybinding".to_owned(),
            action: "rebind".to_owned(),
            argument: SHOWN_COMMAND.to_owned(),
        },
    );
    Node::Menu {
        content: Box::new(
            Node::Pressable {
                content: Box::new(Node::Chip { icon: "keyboard".to_owned(), text, tone: Tone::Muted }),
                action: "run-command".to_owned(),
            },
        ),
        items,
    }
}

/// A panel: whatever it holds, with the last thing that went wrong under it.
fn panelled(chips: &Chips, content: Node) -> (n: Node)
    ensures
        match chips@.trouble {
            None => n == content,
            Some(t) => is_panel(n, Some(t), |x: Node| x == content),
        },
{
    let trouble = match &chips.trouble {
        Some(t) => t,
        None => return content,
    };
    let mut column: Vec<Node> = Vec::new();
    column.push(content);
    column.push(Node::Gap(Gap::Small));
    column.push(Node::Rule);
    column.push(Node::Gap(Gap::Small));
    column.push(Node::Note { text: trouble.clone(), tone: Tone::Danger });
    Node::Column(column)
}

} // verus!
