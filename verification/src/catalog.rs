//! The fixed catalog of reference entries: an immutable ordered sequence of
//! (category, command, description) records, constructed once at startup.
use vstd::prelude::*;
use vstd::assert_seqs_equal;
use crate::text::lower_seq;

verus! {

/// One immutable reference record: a category label, the command itself, and
/// a one-line description. All three are display strings.
pub struct Entry {
    pub category: String,
    pub command: String,
    pub description: String,
}

/// The mathematical model of an `Entry`: the three fields as character
/// sequences.
pub struct EntryView {
    pub category: Seq<char>,
    pub command: Seq<char>,
    pub description: Seq<char>,
}

impl View for Entry {
    type V = EntryView;

    open spec fn view(&self) -> EntryView {
        EntryView {
            category: self.category@,
            command: self.command@,
            description: self.description@,
        }
    }
}

impl Entry {
    /// A field-for-field copy of the entry.
    pub fn duplicate(&self) -> (r: Entry)
        ensures
            r == *self,
    {
        Entry {
            category: self.category.clone(),
            command: self.command.clone(),
            description: self.description.clone(),
        }
    }
}

/// The search haystack of an entry: its three fields folded to lowercase and
/// joined by single spaces, in catalog field order.
pub open spec fn entry_haystack(e: EntryView) -> Seq<char> {
    lower_seq(e.category) + seq![' '] + lower_seq(e.command) + seq![' '] + lower_seq(e.description)
}

/// Builds the lowercased search haystack of an entry: the three fields,
/// case-folded, joined by single spaces.
pub fn haystack_of(e: &Entry) -> (h: Vec<char>)
    ensures
        h@ == entry_haystack(e@),
{
    let mut h: Vec<char> = Vec::new();
    crate::text::push_lowered_str(&mut h, e.category.as_str());
    h.push(' ');
    crate::text::push_lowered_str(&mut h, e.command.as_str());
    h.push(' ');
    crate::text::push_lowered_str(&mut h, e.description.as_str());
    proof {
        assert(h@ =~= entry_haystack(e@));
    }
    h
}

/// The views of a sequence of entries.
pub open spec fn views_of(s: Seq<Entry>) -> Seq<EntryView> {
    s.map_values(|e: Entry| e@)
}

/// An `EntryView` built from three field views.
pub open spec fn ev(category: Seq<char>, command: Seq<char>, description: Seq<char>) -> EntryView {
    EntryView { category: category, command: command, description: description }
}

/// Builds one catalog entry from string literals.
fn entry(category: &str, command: &str, description: &str) -> (e: Entry)
    ensures
        e@.category == category@,
        e@.command == command@,
        e@.description == description@,
{
    Entry {
        category: category.to_owned(),
        command: command.to_owned(),
        description: description.to_owned(),
    }
}

pub open spec fn basics_catalog() -> Seq<EntryView> {
    seq![
        ev("Basics"@, ":q"@, "quit (fails if there are unsaved changes)"@),
        ev("Basics"@, ":q!"@, "quit discarding changes"@),
        ev("Basics"@, ":w"@, "write (save) current buffer"@),
        ev("Basics"@, ":wq / :x / ZZ"@, "save and quit"@),
        ev("Basics"@, ":e {file}"@, "edit / open file"@),
        ev("Basics"@, ":help {topic}"@, "open Vim help (e.g. :help motion)"@),
    ]
}

fn push_basics(v: &mut Vec<Entry>)
    ensures
        views_of(final(v)@) == views_of(old(v)@) + basics_catalog(),
{
    v.push(entry("Basics", ":q", "quit (fails if there are unsaved changes)"));
    v.push(entry("Basics", ":q!", "quit discarding changes"));
    v.push(entry("Basics", ":w", "write (save) current buffer"));
    v.push(entry("Basics", ":wq / :x / ZZ", "save and quit"));
    v.push(entry("Basics", ":e {file}", "edit / open file"));
    v.push(entry("Basics", ":help {topic}", "open Vim help (e.g. :help motion)"));
    proof {
        assert_seqs_equal!(views_of(v@), views_of(old(v)@) + basics_catalog());
    }
}

pub open spec fn modes_catalog() -> Seq<EntryView> {
    seq![
        ev("Modes"@, "i"@, "enter insert mode before cursor"@),
        ev("Modes"@, "a"@, "enter insert mode after cursor"@),
        ev("Modes"@, "v"@, "enter visual mode"@),
        ev("Modes"@, "V"@, "enter visual line mode"@),
        ev("Modes"@, "Ctrl + v"@, "enter visual block (blockwise) mode"@),
        ev("Modes"@, "Esc"@, "return to normal mode"@),
    ]
}

fn push_modes(v: &mut Vec<Entry>)
    ensures
        views_of(final(v)@) == views_of(old(v)@) + modes_catalog(),
{
    v.push(entry("Modes", "i", "enter insert mode before cursor"));
    v.push(entry("Modes", "a", "enter insert mode after cursor"));
    v.push(entry("Modes", "v", "enter visual mode"));
    v.push(entry("Modes", "V", "enter visual line mode"));
    v.push(entry("Modes", "Ctrl + v", "enter visual block (blockwise) mode"));
    v.push(entry("Modes", "Esc", "return to normal mode"));
    proof {
        assert_seqs_equal!(views_of(v@), views_of(old(v)@) + modes_catalog());
    }
}

pub open spec fn nav_motion_catalog() -> Seq<EntryView> {
    seq![
        ev("Navigation - line"@, "h j k l"@, "move cursor left / down / up / right"@),
        ev("Navigation - line"@, "0 / $"@, "move cursor to start / end of line"@),
        ev("Navigation - line"@, "^"@, "move cursor to first non-blank in line"@),
        ev("Navigation - scrolling"@, "Ctrl + u / Ctrl + d"@, "move view half-page up / down"@),
        ev("Navigation - scrolling"@, "Ctrl + b / Ctrl + f"@, "move view page up / down"@),
        ev("Navigation - file"@, "gg / G"@, "move cursor to first / last line of file"@),
        ev("Navigation - file"@, "{n}G"@, "move cursor to line {n}"@),
        ev("Navigation - screen"@, "H / M / L"@, "move cursor to top / middle / bottom of screen"@),
        ev("Navigation - screen"@, "zz / zt / zb"@, "move view to center / top / bottom current line"@),
    ]
}

fn push_nav_motion(v: &mut Vec<Entry>)
    ensures
        views_of(final(v)@) == views_of(old(v)@) + nav_motion_catalog(),
{
    v.push(entry("Navigation - line", "h j k l", "move cursor left / down / up / right"));
    v.push(entry("Navigation - line", "0 / $", "move cursor to start / end of line"));
    v.push(entry("Navigation - line", "^", "move cursor to first non-blank in line"));
    v.push(entry("Navigation - scrolling", "Ctrl + u / Ctrl + d", "move view half-page up / down"));
    v.push(entry("Navigation - scrolling", "Ctrl + b / Ctrl + f", "move view page up / down"));
    v.push(entry("Navigation - file", "gg / G", "move cursor to first / last line of file"));
    v.push(entry("Navigation - file", "{n}G", "move cursor to line {n}"));
    v.push(entry("Navigation - screen", "H / M / L", "move cursor to top / middle / bottom of screen"));
    v.push(entry("Navigation - screen", "zz / zt / zb", "move view to center / top / bottom current line"));
    proof {
        assert_seqs_equal!(views_of(v@), views_of(old(v)@) + nav_motion_catalog());
    }
}

pub open spec fn nav_find_catalog() -> Seq<EntryView> {
    seq![
        ev("Navigation - paragraphs"@, "{ / }"@, "move cursor to previous / next paragraph or block"@),
        ev("Navigation - sentences"@, "( / )"@, "move cursor to previous / next sentence"@),
        ev("Navigation - matching"@, "%"@, "move cursor to matching bracket/brace/paren"@),
        ev("Navigation - word"@, "w / b / e"@, "move cursor to next / previous / end of word"@),
        ev("Navigation - word"@, "W / B / E"@, "move cursor WORD-wise next / previous / end"@),
        ev("Navigation - find"@, "f{char} / F{char}"@, "move cursor to char right / left"@),
        ev("Navigation - find"@, "t{char} / T{char}"@, "move cursor till before char right / left"@),
        ev("Navigation - find"@, "; / ,"@, "move cursor by repeating / reversing last f/F/t/T"@),
    ]
}

fn push_nav_find(v: &mut Vec<Entry>)
    ensures
        views_of(final(v)@) == views_of(old(v)@) + nav_find_catalog(),
{
    v.push(entry("Navigation - paragraphs", "{ / }", "move cursor to previous / next paragraph or block"));
    v.push(entry("Navigation - sentences", "( / )", "move cursor to previous / next sentence"));
    v.push(entry("Navigation - matching", "%", "move cursor to matching bracket/brace/paren"));
    v.push(entry("Navigation - word", "w / b / e", "move cursor to next / previous / end of word"));
    v.push(entry("Navigation - word", "W / B / E", "move cursor WORD-wise next / previous / end"));
    v.push(entry("Navigation - find", "f{char} / F{char}", "move cursor to char right / left"));
    v.push(entry("Navigation - find", "t{char} / T{char}", "move cursor till before char right / left"));
    v.push(entry("Navigation - find", "; / ,", "move cursor by repeating / reversing last f/F/t/T"));
    proof {
        assert_seqs_equal!(views_of(v@), views_of(old(v)@) + nav_find_catalog());
    }
}

pub open spec fn editing_catalog() -> Seq<EntryView> {
    seq![
        ev("Editing"@, "x"@, "delete character under cursor"@),
        ev("Editing"@, "dd"@, "delete (cut) current line"@),
        ev("Editing"@, "D"@, "delete from cursor to end of line"@),
        ev("Editing"@, "cc"@, "change (replace) entire line"@),
        ev("Editing"@, "cw / c$"@, "change to end of word / line"@),
        ev("Editing"@, "r{char}"@, "replace a single character"@),
        ev("Editing"@, "J"@, "join current line with next"@),
    ]
}

fn push_editing(v: &mut Vec<Entry>)
    ensures
        views_of(final(v)@) == views_of(old(v)@) + editing_catalog(),
{
    v.push(entry("Editing", "x", "delete character under cursor"));
    v.push(entry("Editing", "dd", "delete (cut) current line"));
    v.push(entry("Editing", "D", "delete from cursor to end of line"));
    v.push(entry("Editing", "cc", "change (replace) entire line"));
    v.push(entry("Editing", "cw / c$", "change to end of word / line"));
    v.push(entry("Editing", "r{char}", "replace a single character"));
    v.push(entry("Editing", "J", "join current line with next"));
    proof {
        assert_seqs_equal!(views_of(v@), views_of(old(v)@) + editing_catalog());
    }
}

pub open spec fn yank_paste_catalog() -> Seq<EntryView> {
    seq![
        ev("Yank (copy)"@, "y{motion}"@, "yank text covered by a motion (e.g. yw, y$)"@),
        ev("Yank (copy)"@, "yy / Y"@, "yank (copy) current line"@),
        ev("Yank (copy)"@, "yiw / yaw"@, "yank inner word / a word incl. space"@),
        ev("Yank (copy)"@, "y0 / y$"@, "yank from cursor to start / end of line"@),
        ev("Paste"@, "p / P"@, "paste after / before cursor or line"@),
        ev("Paste"@, "gp / gP"@, "paste and move cursor to end of paste"@),
        ev("Indentation"@, ">> / <<"@, "indent / dedent current line"@),
        ev("Indentation"@, "="@, "auto-indent motion or selection"@),
    ]
}

fn push_yank_paste(v: &mut Vec<Entry>)
    ensures
        views_of(final(v)@) == views_of(old(v)@) + yank_paste_catalog(),
{
    v.push(entry("Yank (copy)", "y{motion}", "yank text covered by a motion (e.g. yw, y$)"));
    v.push(entry("Yank (copy)", "yy / Y", "yank (copy) current line"));
    v.push(entry("Yank (copy)", "yiw / yaw", "yank inner word / a word incl. space"));
    v.push(entry("Yank (copy)", "y0 / y$", "yank from cursor to start / end of line"));
    v.push(entry("Paste", "p / P", "paste after / before cursor or line"));
    v.push(entry("Paste", "gp / gP", "paste and move cursor to end of paste"));
    v.push(entry("Indentation", ">> / <<", "indent / dedent current line"));
    v.push(entry("Indentation", "=", "auto-indent motion or selection"));
    proof {
        assert_seqs_equal!(views_of(v@), views_of(old(v)@) + yank_paste_catalog());
    }
}

pub open spec fn visual_search_catalog() -> Seq<EntryView> {
    seq![
        ev("Visual mode"@, "v / V / Ctrl + v + motion"@, "select characters / lines / block"@),
        ev("Visual mode"@, "y / d / c"@, "yank / delete / change selection"@),
        ev("Visual mode"@, "> / <"@, "indent / dedent selection"@),
        ev("Search"@, "/pattern"@, "search forward for pattern"@),
        ev("Search"@, "n / N"@, "next / previous search match"@),
        ev("Search"@, "?pattern"@, "search backward for pattern"@),
        ev("Search & replace"@, ":%s/old/new/g"@, "replace all 'old' with 'new' in file"@),
        ev("Search & replace"@, ":%s/old/new/gc"@, "replace with confirmation"@),
    ]
}

fn push_visual_search(v: &mut Vec<Entry>)
    ensures
        views_of(final(v)@) == views_of(old(v)@) + visual_search_catalog(),
{
    v.push(entry("Visual mode", "v / V / Ctrl + v + motion", "select characters / lines / block"));
    v.push(entry("Visual mode", "y / d / c", "yank / delete / change selection"));
    v.push(entry("Visual mode", "> / <", "indent / dedent selection"));
    v.push(entry("Search", "/pattern", "search forward for pattern"));
    v.push(entry("Search", "n / N", "next / previous search match"));
    v.push(entry("Search", "?pattern", "search backward for pattern"));
    v.push(entry("Search & replace", ":%s/old/new/g", "replace all 'old' with 'new' in file"));
    v.push(entry("Search & replace", ":%s/old/new/gc", "replace with confirmation"));
    proof {
        assert_seqs_equal!(views_of(v@), views_of(old(v)@) + visual_search_catalog());
    }
}

pub open spec fn buffers_windows_catalog() -> Seq<EntryView> {
    seq![
        ev("Buffers"@, ":w / :q / :wq"@, "write, quit, write & quit"@),
        ev("Buffers"@, ":ls / :buffers"@, "list buffers"@),
        ev("Buffers"@, ":b {n}"@, "go to buffer {n}"@),
        ev("Buffers"@, ":bn / :bp"@, "next / previous buffer"@),
        ev("Windows"@, ":split / :vsplit"@, "horizontal / vertical split"@),
        ev("Windows"@, "Ctrl + w, then h/j/k/l"@, "move to window left/down/up/right"@),
        ev("Windows"@, "Ctrl + w, then c / o"@, "close current / keep only current"@),
        ev("Tabs"@, ":tabnew {file}"@, "open file in a new tab"@),
        ev("Tabs"@, "gt / gT"@, "next / previous tab"@),
        ev("Tabs"@, ":tabclose"@, "close current tab"@),
    ]
}

fn push_buffers_windows(v: &mut Vec<Entry>)
    ensures
        views_of(final(v)@) == views_of(old(v)@) + buffers_windows_catalog(),
{
    v.push(entry("Buffers", ":w / :q / :wq", "write, quit, write & quit"));
    v.push(entry("Buffers", ":ls / :buffers", "list buffers"));
    v.push(entry("Buffers", ":b {n}", "go to buffer {n}"));
    v.push(entry("Buffers", ":bn / :bp", "next / previous buffer"));
    v.push(entry("Windows", ":split / :vsplit", "horizontal / vertical split"));
    v.push(entry("Windows", "Ctrl + w, then h/j/k/l", "move to window left/down/up/right"));
    v.push(entry("Windows", "Ctrl + w, then c / o", "close current / keep only current"));
    v.push(entry("Tabs", ":tabnew {file}", "open file in a new tab"));
    v.push(entry("Tabs", "gt / gT", "next / previous tab"));
    v.push(entry("Tabs", ":tabclose", "close current tab"));
    proof {
        assert_seqs_equal!(views_of(v@), views_of(old(v)@) + buffers_windows_catalog());
    }
}

pub open spec fn registers_macros_catalog() -> Seq<EntryView> {
    seq![
        ev("Registers"@, "\"{reg}y / \"{reg}p"@, "yank / paste using register {reg}"@),
        ev("Registers"@, "\"+y / \"+p / \"*y"@, "use system clipboards (+ or * register)"@),
        ev("Marks"@, "m{a-z}"@, "set mark {a-z} on a line"@),
        ev("Marks"@, "'{a-z} / `{a-z}"@, "jump to mark line / exact position"@),
        ev("Macros"@, "q{reg} ... q"@, "record macro into register {reg}"@),
        ev("Macros"@, "@{reg} / @@"@, "play macro / repeat last macro"@),
        ev("Repeat"@, "."@, "repeat last change"@),
        ev("Undo/Redo"@, "u / Ctrl + r"@, "undo / redo last change"@),
    ]
}

fn push_registers_macros(v: &mut Vec<Entry>)
    ensures
        views_of(final(v)@) == views_of(old(v)@) + registers_macros_catalog(),
{
    v.push(entry("Registers", "\"{reg}y / \"{reg}p", "yank / paste using register {reg}"));
    v.push(entry("Registers", "\"+y / \"+p / \"*y", "use system clipboards (+ or * register)"));
    v.push(entry("Marks", "m{a-z}", "set mark {a-z} on a line"));
    v.push(entry("Marks", "'{a-z} / `{a-z}", "jump to mark line / exact position"));
    v.push(entry("Macros", "q{reg} ... q", "record macro into register {reg}"));
    v.push(entry("Macros", "@{reg} / @@", "play macro / repeat last macro"));
    v.push(entry("Repeat", ".", "repeat last change"));
    v.push(entry("Undo/Redo", "u / Ctrl + r", "undo / redo last change"));
    proof {
        assert_seqs_equal!(views_of(v@), views_of(old(v)@) + registers_macros_catalog());
    }
}

/// The whole fixed catalog, as a sequence of entry views, in display order.
pub open spec fn default_catalog() -> Seq<EntryView> {
    basics_catalog() + modes_catalog() + nav_motion_catalog() + nav_find_catalog()
        + editing_catalog() + yank_paste_catalog() + visual_search_catalog()
        + buffers_windows_catalog() + registers_macros_catalog()
}

/// Builds the fixed catalog. The result is exactly `default_catalog`,
/// entry for entry and field for field.
pub fn default_cheats() -> (v: Vec<Entry>)
    ensures
        views_of(v@) == default_catalog(),
        v@.len() == 70,
{
    let mut v: Vec<Entry> = Vec::new();
    proof {
        assert_seqs_equal!(views_of(v@), Seq::<EntryView>::empty());
    }
    push_basics(&mut v);
    proof {
        assert_seqs_equal!(Seq::<EntryView>::empty() + basics_catalog(), basics_catalog());
    }
    push_modes(&mut v);
    push_nav_motion(&mut v);
    push_nav_find(&mut v);
    push_editing(&mut v);
    push_yank_paste(&mut v);
    push_visual_search(&mut v);
    push_buffers_windows(&mut v);
    push_registers_macros(&mut v);
    proof {
        assert(views_of(v@).len() == v@.len());
        assert(default_catalog().len() == 70);
    }
    v
}

} // verus!
