//! The commands of the interactive shell. Each command computes what to
//! show or do; showing it, and driving the hardware, is up to the caller.
use crate::transition::{plan_spec, transition_from_el1_to_el0, TransitionPlan};
use crate::regs::Descent;
use crate::words::{is_white_space, split_whitespace, words};
use vstd::prelude::*;

verus! {

/// A file of the initial ramdisk.
#[derive(Debug)]
pub struct CpioFile {
    pub filename: String,
    pub content: Vec<u8>,
    /// Where the content lies in memory.
    pub address: u64,
}

/// The files of the initial ramdisk, in archive order.
#[derive(Debug)]
pub struct CpioArchive {
    pub files: Vec<CpioFile>,
}

/// The index of the first file named `name`, if any.
pub open spec fn find_spec(files: Seq<CpioFile>, name: Seq<char>) -> Option<int> {
    if exists|i: int| 0 <= i < files.len() && #[trigger] files[i].filename@ == name {
        Some(choose|i: int| 0 <= i < files.len() && files[i].filename@ == name
            && forall|j: int| 0 <= j < i ==> #[trigger] files[j].filename@ != name)
    } else {
        None
    }
}

/// The size in bytes of the stack given to a launched program.
pub const USER_STACK_SIZE: u64 = 0x1000;

impl CpioArchive {
    /// The index of the first file named `name`.
    pub fn find(&self, name: &str) -> (r: Option<usize>)
        ensures
            r matches Some(i) ==> i < self.files@.len() && self.files@[i as int].filename@ == name@
                && forall|j: int| 0 <= j < i ==> #[trigger] self.files@[j].filename@ != name@,
            r is None ==> forall|j: int| 0 <= j < self.files@.len() ==> #[trigger] self.files@[j].filename@ != name@,
            r matches Some(i) ==> find_spec(self.files@, name@) == Some(i as int),
            r is None ==> find_spec(self.files@, name@) is None,
    {
        let wanted = String::from_str(name);
        let mut i: usize = 0;
        while i < self.files.len()
            invariant
                i <= self.files@.len(),
                wanted@ == name@,
                forall|j: int| 0 <= j < i ==> #[trigger] self.files@[j].filename@ != name@,
            decreases self.files.len() - i,
        {
            if self.files[i].filename == wanted {
                proof {
                    let k = choose|k: int| 0 <= k < self.files@.len() && self.files@[k].filename@ == name@
                        && forall|j: int| 0 <= j < k ==> #[trigger] self.files@[j].filename@ != name@;
                    assert(self.files@[i as int].filename@ == name@);
                    if k < i {
                    } else if k > i {
                        assert(self.files@[i as int].filename@ != name@);
                    }
                }
                return Some(i);
            }
            i = i + 1;
        }
        None
    }
}

/// The listing of `files`: one name per line.
pub open spec fn listing(files: Seq<CpioFile>) -> Seq<char>
    decreases files.len(),
{
    if files.len() == 0 {
        Seq::empty()
    } else {
        listing(files.drop_last()) + files.last().filename@ + "\n"@
    }
}

/// The message for a file that the archive lacks.
pub open spec fn not_found_text(cmd: Seq<char>, file: Seq<char>) -> Seq<char> {
    cmd + ": "@ + file + ": No such file or directory"@
}

fn not_found_message(cmd: &str, file: &str) -> (r: String)
    ensures
        r@ == not_found_text(cmd@, file@),
{
    let mut m = String::from_str(cmd);
    m.append(": ");
    m.append(file);
    m.append(": No such file or directory");
    m
}

/// Prints a greeting.
pub struct Hello;

impl Hello {
    pub fn name(&self) -> (r: &'static str)
        ensures
            r@ == "hello"@,
    {
        "hello"
    }

    pub fn help(&self) -> (r: &'static str)
        ensures
            r@ == "print Hello World!"@,
    {
        "print Hello World!"
    }

    /// The greeting.
    pub fn execute(&self) -> (r: &'static str)
        ensures
            r@ == "Hello World!"@,
    {
        "Hello World!"
    }
}

/// Resets the board through the watchdog.
pub struct Reboot;

/// Watchdog ticks before a reboot takes effect.
pub const REBOOT_TICKS: u32 = 100;

impl Reboot {
    pub fn name(&self) -> (r: &'static str)
        ensures
            r@ == "reboot"@,
    {
        "reboot"
    }

    pub fn help(&self) -> (r: &'static str)
        ensures
            r@ == "reboot the device"@,
    {
        "reboot the device"
    }
}

/// Prints the board revision and memory layout.
pub struct Info;

impl Info {
    pub fn name(&self) -> (r: &'static str)
        ensures
            r@ == "info"@,
    {
        "info"
    }

    pub fn help(&self) -> (r: &'static str)
        ensures
            r@ == "print hardware information"@,
    {
        "print hardware information"
    }
}

/// Lists the files of the initial ramdisk.
pub struct Ls<'a> {
    pub cpio: &'a CpioArchive,
}

impl<'a> Ls<'a> {
    pub fn new(cpio: &'a CpioArchive) -> (r: Ls<'a>)
        ensures
            r.cpio == cpio,
    {
        Ls { cpio }
    }

    pub fn name(&self) -> (r: &'static str)
        ensures
            r@ == "ls"@,
    {
        "ls"
    }

    pub fn help(&self) -> (r: &'static str)
        ensures
            r@ == "list files in the initramfs"@,
    {
        "list files in the initramfs"
    }

    /// The file names, one per line.
    pub fn execute(&self) -> (r: String)
        ensures
            r@ == listing(self.cpio.files@),
    {
        let files = &self.cpio.files;
        let mut out = String::new();
        let mut i: usize = 0;
        while i < files.len()
            invariant
                i <= files@.len(),
                out@ == listing(files@.subrange(0, i as int)),
            decreases files.len() - i,
        {
            out.append(files[i].filename.as_str());
            out.append("\n");
            assert(files@.subrange(0, i as int + 1).drop_last() =~= files@.subrange(0, i as int));
            i = i + 1;
        }
        assert(files@.subrange(0, files@.len() as int) =~= files@);
        out
    }
}

/// What `cat` shows for one named file.
#[derive(Debug, PartialEq, Eq)]
pub enum CatItem {
    /// The content of the archive file with this index.
    Content(usize),
    /// The message for a missing file.
    Missing(String),
}

/// The items `cat` shows for the file names `names`.
pub open spec fn cat_items_ok(files: Seq<CpioFile>, names: Seq<Seq<char>>, items: Seq<CatItem>) -> bool {
    &&& items.len() == names.len()
    &&& forall|k: int| 0 <= k < names.len() ==> match #[trigger] items[k] {
        CatItem::Content(i) => find_spec(files, names[k]) == Some(i as int),
        CatItem::Missing(m) => find_spec(files, names[k]) is None && m@ == not_found_text("cat"@, names[k]),
    }
}

/// Prints files of the initial ramdisk.
pub struct Cat<'a> {
    pub cpio: &'a CpioArchive,
}

impl<'a> Cat<'a> {
    pub fn new(cpio: &'a CpioArchive) -> (r: Cat<'a>)
        ensures
            r.cpio == cpio,
    {
        Cat { cpio }
    }

    pub fn name(&self) -> (r: &'static str)
        ensures
            r@ == "cat"@,
    {
        "cat"
    }

    pub fn help(&self) -> (r: &'static str)
        ensures
            r@ == "cat <file>...\t\tprint content of a file in the initramfs"@,
    {
        "cat <file>...\t\tprint content of a file in the initramfs"
    }

    /// For each file named in `args`, its content or a message; the usage
    /// line when `args` names none.
    pub fn execute(&self, args: &str) -> (r: Result<Vec<CatItem>, String>)
        ensures
            r is Err <==> words(args@).len() == 0,
            r matches Err(u) ==> u@ == "Usage: cat <file>..."@,
            r matches Ok(items) ==> cat_items_ok(self.cpio.files@, words(args@), items@),
    {
        let names = split_whitespace(args);
        proof {
            assert(names@.map_values(|w: &str| w@).len() == names@.len());
        }
        if names.len() == 0 {
            return Err(String::from_str("Usage: cat <file>..."));
        }
        let ghost ws = words(args@);
        let mut items: Vec<CatItem> = Vec::new();
        let mut k: usize = 0;
        while k < names.len()
            invariant
                k <= names@.len(),
                names@.map_values(|w: &str| w@) == ws,
                items@.len() == k,
                forall|q: int| 0 <= q < k ==> match #[trigger] items@[q] {
                    CatItem::Content(i) => find_spec(self.cpio.files@, ws[q]) == Some(i as int),
                    CatItem::Missing(m) => find_spec(self.cpio.files@, ws[q]) is None
                        && m@ == not_found_text("cat"@, ws[q]),
                },
            decreases names.len() - k,
        {
            let name = names[k];
            assert(ws[k as int] == name@);
            let item = match self.cpio.find(name) {
                Some(i) => CatItem::Content(i),
                None => CatItem::Missing(not_found_message("cat", name)),
            };
            items.push(item);
            k = k + 1;
        }
        Ok(items)
    }
}

/// What `exec` decided.
#[derive(Debug)]
pub enum ExecOutcome {
    /// No program was named: the usage line.
    Usage(String),
    /// The named program is not in the archive: the message.
    NotFound(String),
    /// Launch the program with this descent to EL0.
    Launch(TransitionPlan),
}

/// Runs a program of the initial ramdisk in EL0.
pub struct Exec<'a> {
    pub cpio: &'a CpioArchive,
}

impl<'a> Exec<'a> {
    pub fn new(cpio: &'a CpioArchive) -> (r: Exec<'a>)
        ensures
            r.cpio == cpio,
    {
        Exec { cpio }
    }

    pub fn name(&self) -> (r: &'static str)
        ensures
            r@ == "exec"@,
    {
        "exec"
    }

    pub fn help(&self) -> (r: &'static str)
        ensures
            r@ == "exec <program>\t\texecute the program in the initramfs"@,
    {
        "exec <program>\t\texecute the program in the initramfs"
    }

    /// Decides what to run for `args`: the first word names the program,
    /// which starts at its load address on a fresh stack whose lowest byte
    /// is at `stack_base`.
    pub fn execute(&self, args: &str, stack_base: u64) -> (r: ExecOutcome)
        requires
            stack_base <= u64::MAX - USER_STACK_SIZE,
        ensures
            words(args@).len() == 0 <==> r is Usage,
            r matches ExecOutcome::Usage(u) ==> u@ == "Usage: exec <program>"@,
            r matches ExecOutcome::NotFound(m) ==> words(args@).len() > 0
                && find_spec(self.cpio.files@, words(args@)[0]) is None
                && m@ == not_found_text("exec"@, words(args@)[0]),
            r matches ExecOutcome::Launch(p) ==> (words(args@).len() > 0
                && (find_spec(self.cpio.files@, words(args@)[0]) matches Some(i)
                && p == plan_spec(Descent::KernelToUser, (stack_base + USER_STACK_SIZE) as u64,
                    self.cpio.files@[i].address))),
            words(args@).len() > 0 ==> (r is NotFound <==> find_spec(self.cpio.files@, words(args@)[0]) is None),
    {
        let names = split_whitespace(args);
        proof {
            assert(names@.map_values(|w: &str| w@).len() == names@.len());
        }
        if names.len() == 0 {
            return ExecOutcome::Usage(String::from_str("Usage: exec <program>"));
        }
        let filename = names[0];
        assert(words(args@)[0] == filename@);
        match self.cpio.find(filename) {
            None => ExecOutcome::NotFound(not_found_message("exec", filename)),
            Some(i) => {
                let stack_end = stack_base + USER_STACK_SIZE;
                ExecOutcome::Launch(transition_from_el1_to_el0(stack_end, self.cpio.files[i].address))
            },
        }
    }
}

/// Number of white-space characters that open `s`.
pub open spec fn leading_ws(s: Seq<char>) -> nat
    decreases s.len(),
{
    if s.len() > 0 && is_white_space(s[0]) { 1 + leading_ws(s.drop_first()) } else { 0 }
}

/// Number of white-space characters that close `s`.
pub open spec fn trailing_ws(s: Seq<char>) -> nat
    decreases s.len(),
{
    if s.len() > 0 && is_white_space(s.last()) { 1 + trailing_ws(s.drop_last()) } else { 0 }
}

/// `s` without its leading and trailing white space.
pub open spec fn trimmed(s: Seq<char>) -> Seq<char> {
    if leading_ws(s) == s.len() {
        Seq::empty()
    } else {
        s.subrange(leading_ws(s) as int, s.len() - trailing_ws(s))
    }
}

/// Relies on `str::trim`: the slice without leading and trailing
/// characters that have the Unicode White_Space property.
#[verifier::external_body]
fn trim(s: &str) -> (r: &str)
    ensures
        r@ == trimmed(s@),
{
    s.trim()
}

/// Relies on `String::push`: appends `c`.
#[verifier::external_body]
fn push_char(s: &mut String, c: char)
    ensures
        final(s)@ == old(s)@.push(c),
{
    s.push(c)
}

/// Relies on `String::pop`: removes and returns the last character, if any.
#[verifier::external_body]
fn pop_char(s: &mut String) -> (r: Option<char>)
    ensures
        old(s)@.len() == 0 ==> r is None && final(s)@ == old(s)@,
        old(s)@.len() > 0 ==> r == Some(old(s)@.last()) && final(s)@ == old(s)@.drop_last(),
{
    s.pop()
}

/// The part of `s` before its first space (all of `s` when it has none).
pub open spec fn first_segment(s: Seq<char>) -> Seq<char> {
    if exists|i: int| 0 <= i < s.len() && s[i] == ' ' {
        s.subrange(0, choose|i: int| 0 <= i < s.len() && s[i] == ' '
            && forall|j: int| 0 <= j < i ==> s[j] != ' ')
    } else {
        s
    }
}

fn before_first_space<'a>(s: &'a str) -> (r: &'a str)
    ensures
        r@ == first_segment(s@),
{
    let n = s.unicode_len();
    let mut i: usize = 0;
    while i < n
        invariant
            i <= n,
            n == s@.len(),
            forall|j: int| 0 <= j < i ==> s@[j] != ' ',
        decreases n - i,
    {
        if s.get_char(i) == ' ' {
            proof {
                let k = choose|k: int| 0 <= k < s@.len() && s@[k] == ' '
                    && forall|j: int| 0 <= j < k ==> s@[j] != ' ';
                if k < i {
                } else if k > i {
                    assert(s@[i as int] != ' ');
                }
            }
            return s.substring_char(0, i);
        }
        i = i + 1;
    }
    assert(s@.subrange(0, n as int) =~= s@);
    s.substring_char(0, n)
}

/// What a key does to the line being edited.
#[derive(Clone, Copy, Debug, PartialEq, Eq, Structural)]
pub enum KeyAction {
    /// The line is complete: start a new line and handle it.
    Submit,
    /// A character was removed: erase it on the terminal.
    Erase,
    /// The character was appended: echo it.
    Echo(char),
    /// Nothing changes.
    Ignore,
}

/// A shell command line, as dispatched.
#[derive(Debug, PartialEq, Eq)]
pub enum ShellCommand {
    Help,
    Hello,
    Reboot,
    Info,
    /// The line was blank.
    Empty,
    /// The message for an unknown command.
    NotFound(String),
}

/// The command a line names: its first space-separated word after trimming.
pub open spec fn command_of(line: Seq<char>) -> Seq<char> {
    first_segment(trimmed(line))
}

/// The line editor and dispatcher of the interactive shell.
#[derive(Debug)]
pub struct Shell {
    pub buf: String,
}

/// Whether `c` is a printable ASCII character.
pub open spec fn is_printable(c: char) -> bool {
    ' ' <= c && c <= '~'
}

impl Shell {
    pub fn new() -> (r: Shell)
        ensures
            r.buf@ == Seq::<char>::empty(),
    {
        Shell { buf: String::new() }
    }

    /// Handles one key of the line being read.
    pub fn read_input(&mut self, c: char) -> (r: KeyAction)
        ensures
            (c == '\r' || c == '\n') ==> r == KeyAction::Submit && final(self).buf@ == old(self).buf@,
            (c == '\x08' || c == '\x7f') ==> (old(self).buf@.len() == 0 ==> r == KeyAction::Ignore
                && final(self).buf@ == old(self).buf@) && (old(self).buf@.len() > 0 ==> r == KeyAction::Erase
                && final(self).buf@ == old(self).buf@.drop_last()),
            is_printable(c) ==> r == KeyAction::Echo(c) && final(self).buf@ == old(self).buf@.push(c),
            !(c == '\r' || c == '\n' || c == '\x08' || c == '\x7f' || is_printable(c)) ==> r == KeyAction::Ignore
                && final(self).buf@ == old(self).buf@,
    {
        if c == '\r' || c == '\n' {
            KeyAction::Submit
        } else if c == '\x08' || c == '\x7f' {
            self.on_backspace()
        } else if ' ' <= c && c <= '~' {
            self.on_input(c)
        } else {
            KeyAction::Ignore
        }
    }

    /// Removes the last character, if any.
    pub fn on_backspace(&mut self) -> (r: KeyAction)
        ensures
            old(self).buf@.len() == 0 ==> r == KeyAction::Ignore && final(self).buf@ == old(self).buf@,
            old(self).buf@.len() > 0 ==> r == KeyAction::Erase && final(self).buf@ == old(self).buf@.drop_last(),
    {
        match pop_char(&mut self.buf) {
            Some(_) => KeyAction::Erase,
            None => KeyAction::Ignore,
        }
    }

    /// Appends `c`.
    pub fn on_input(&mut self, c: char) -> (r: KeyAction)
        ensures
            r == KeyAction::Echo(c),
            final(self).buf@ == old(self).buf@.push(c),
    {
        push_char(&mut self.buf, c);
        KeyAction::Echo(c)
    }

    /// Dispatches the completed line and clears it.
    pub fn handle_input(&mut self) -> (r: ShellCommand)
        ensures
            final(self).buf@ == Seq::<char>::empty(),
            command_of(old(self).buf@) == "help"@ <==> r == ShellCommand::Help,
            command_of(old(self).buf@) == "hello"@ <==> r == ShellCommand::Hello,
            command_of(old(self).buf@) == "reboot"@ <==> r == ShellCommand::Reboot,
            command_of(old(self).buf@) == "info"@ <==> r == ShellCommand::Info,
            command_of(old(self).buf@) == Seq::<char>::empty() <==> r == ShellCommand::Empty,
            r matches ShellCommand::NotFound(m) ==> m@ == command_of(old(self).buf@) + ": command not found"@,
    {
        let cmd = String::from_str(before_first_space(trim(self.buf.as_str())));
        proof {
            reveal_strlit("help");
            reveal_strlit("hello");
            reveal_strlit("reboot");
            reveal_strlit("info");
            assert("help"@.len() == 4 && "hello"@.len() == 5 && "reboot"@.len() == 6 && "info"@.len() == 4);
            assert("help"@[0] != "info"@[0]);
            assert("help"@ != "info"@);
        }
        let r = if cmd == String::from_str("help") {
            ShellCommand::Help
        } else if cmd == String::from_str("hello") {
            ShellCommand::Hello
        } else if cmd == String::from_str("reboot") {
            ShellCommand::Reboot
        } else if cmd == String::from_str("info") {
            ShellCommand::Info
        } else if cmd == String::new() {
            ShellCommand::Empty
        } else {
            let mut m = cmd;
            m.append(": command not found");
            ShellCommand::NotFound(m)
        };
        self.buf = String::new();
        r
    }

    /// The help menu, one line per command.
    pub fn help(&self) -> (r: Vec<&'static str>)
        ensures
            r@.len() == 4,
            r@[0]@ == "help\t: print this help menu"@,
            r@[1]@ == "hello\t: print Hello World!"@,
            r@[2]@ == "reboot\t: reboot the device"@,
            r@[3]@ == "info\t: get hardware informations"@,
    {
        let mut v: Vec<&'static str> = Vec::new();
        v.push("help\t: print this help menu");
        v.push("hello\t: print Hello World!");
        v.push("reboot\t: reboot the device");
        v.push("info\t: get hardware informations");
        v
    }
}

} // verus!
