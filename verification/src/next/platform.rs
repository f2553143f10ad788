use vstd::prelude::*;

use crate::next::promise::Poll;
use crate::platform::{alt_pressed_mask, ascii_graphic, ctrl_pressed_mask, decode_utf16_unit, utf16_unit_char, vk_back,
    vk_delete, vk_down, vk_end, vk_escape, vk_f1, vk_f24, vk_home, vk_left, vk_next, vk_prior, vk_return,
    vk_right, vk_space, vk_tab, vk_up, ConsoleRecord};

verus! {

/// A key the user pressed: named keys, function keys, and characters alone or with control
/// or alt.
#[derive(PartialEq, Eq, Structural, Clone, Copy, Debug)]
pub enum Key {
    NoKey,
    Backspace,
    Enter,
    Left,
    Right,
    Up,
    Down,
    Home,
    End,
    PageUp,
    PageDown,
    Tab,
    Delete,
    F(u8),
    Char(char),
    Ctrl(char),
    Alt(char),
    Esc,
}

/// Which process an event is about.
#[derive(PartialEq, Eq, Structural, Clone, Copy, Debug)]
pub struct ProcessHandle(pub u32);

/// What the platform reports: a new size, a key, output of a process, or its end.
pub enum PlatformEvent {
    Resize(u16, u16),
    Key(Key),
    ProcessStdout { handle: ProcessHandle, buf: Vec<u8> },
    ProcessStderr { handle: ProcessHandle, buf: Vec<u8> },
    ProcessExit { handle: ProcessHandle, success: bool },
}

/// The key a key-down console event stands for, if any: named keys by their codes, function
/// keys by their number, letters with alt or control as such keys, and otherwise the typed
/// character (for keys other than space and letters, only printable ASCII).
pub open spec fn console_key(control_key_state: u32, keycode: u16, unicode_char: u16) -> Option<Key> {
    let k = keycode as int;
    if k == vk_back() {
        Some(Key::Backspace)
    } else if k == vk_return() {
        Some(Key::Enter)
    } else if k == vk_left() {
        Some(Key::Left)
    } else if k == vk_right() {
        Some(Key::Right)
    } else if k == vk_up() {
        Some(Key::Up)
    } else if k == vk_down() {
        Some(Key::Down)
    } else if k == vk_home() {
        Some(Key::Home)
    } else if k == vk_end() {
        Some(Key::End)
    } else if k == vk_prior() {
        Some(Key::PageUp)
    } else if k == vk_next() {
        Some(Key::PageDown)
    } else if k == vk_tab() {
        Some(Key::Tab)
    } else if k == vk_delete() {
        Some(Key::Delete)
    } else if vk_f1() <= k <= vk_f24() {
        Some(Key::F((k - vk_f1() + 1) as u8))
    } else if k == vk_escape() {
        Some(Key::Esc)
    } else if k == vk_space() {
        match utf16_unit_char(unicode_char) {
            Some(c) => Some(Key::Char(c)),
            None => None,
        }
    } else if 'A' as int <= k <= 'Z' as int {
        if control_key_state & alt_pressed_mask() != 0 {
            Some(Key::Alt((k - 'A' as int + 'a' as int) as char))
        } else if control_key_state & ctrl_pressed_mask() != 0 {
            Some(Key::Ctrl((k - 'A' as int + 'a' as int) as char))
        } else {
            match utf16_unit_char(unicode_char) {
                Some(c) => Some(Key::Char(c)),
                None => None,
            }
        }
    } else {
        match utf16_unit_char(unicode_char) {
            Some(c) => if ascii_graphic(c) {
                Some(Key::Char(c))
            } else {
                None
            },
            None => None,
        }
    }
}

/// The events a run of console events stands for: each key-down event gives its key once per
/// repeat, each buffer-size event a resize.
pub open spec fn console_events(records: Seq<ConsoleRecord>) -> Seq<PlatformEvent>
    decreases records.len(),
{
    if records.len() == 0 {
        seq![]
    } else {
        let rest = console_events(records.drop_last());
        match records.last() {
            ConsoleRecord::Key { key_down, control_key_state, virtual_key_code, unicode_char, repeat_count } =>
                if key_down {
                match console_key(control_key_state, virtual_key_code, unicode_char) {
                    Some(key) => rest + Seq::new(repeat_count as nat, |i: int| PlatformEvent::Key(key)),
                    None => rest,
                }
            } else {
                rest
            },
            ConsoleRecord::BufferSize { x, y } => rest.push(PlatformEvent::Resize(x as u16, y as u16)),
            ConsoleRecord::Other => rest,
        }
    }
}

/// The key a key-down console event stands for, if any.
pub fn key_of_console_event(control_key_state: u32, keycode: u16, unicode_char: u16) -> (res: Option<Key>)
    ensures
        res == console_key(control_key_state, keycode, unicode_char),
{
    if keycode == 0x08 {
        Some(Key::Backspace)
    } else if keycode == 0x0d {
        Some(Key::Enter)
    } else if keycode == 0x25 {
        Some(Key::Left)
    } else if keycode == 0x27 {
        Some(Key::Right)
    } else if keycode == 0x26 {
        Some(Key::Up)
    } else if keycode == 0x28 {
        Some(Key::Down)
    } else if keycode == 0x24 {
        Some(Key::Home)
    } else if keycode == 0x23 {
        Some(Key::End)
    } else if keycode == 0x21 {
        Some(Key::PageUp)
    } else if keycode == 0x22 {
        Some(Key::PageDown)
    } else if keycode == 0x09 {
        Some(Key::Tab)
    } else if keycode == 0x2e {
        Some(Key::Delete)
    } else if 0x70 <= keycode && keycode <= 0x87 {
        Some(Key::F((keycode - 0x70 + 1) as u8))
    } else if keycode == 0x1b {
        Some(Key::Esc)
    } else if keycode == 0x20 {
        match decode_utf16_unit(unicode_char) {
            Some(c) => Some(Key::Char(c)),
            None => None,
        }
    } else if 0x41 <= keycode && keycode <= 0x5a {
        let b = (keycode - 0x41) as u8 + 0x61;
        if control_key_state & 0x0003 != 0 {
            Some(Key::Alt(b as char))
        } else if control_key_state & 0x000c != 0 {
            Some(Key::Ctrl(b as char))
        } else {
            match decode_utf16_unit(unicode_char) {
                Some(c) => Some(Key::Char(c)),
                None => None,
            }
        }
    } else {
        match decode_utf16_unit(unicode_char) {
            Some(c) => if '!' <= c && c <= '~' {
                Some(Key::Char(c))
            } else {
                None
            },
            None => None,
        }
    }
}

/// Appends the events a run of console events stands for.
pub fn parse_console_events(console_events: &Vec<ConsoleRecord>, events: &mut Vec<PlatformEvent>)
    ensures
        final(events)@ == old(events)@ + crate::next::platform::console_events(console_events@),
{
    let mut i: usize = 0;
    let ghost e0 = events@;
    assert(console_events@.take(0) == Seq::<ConsoleRecord>::empty());
    while i < console_events.len()
        invariant
            i <= console_events.len(),
            events@ == e0 + crate::next::platform::console_events(console_events@.take(i as int)),
        decreases console_events.len() - i,
    {
        assert(console_events@.take(i as int + 1).drop_last() == console_events@.take(i as int));
        assert(console_events@.take(i as int + 1).last() == console_events@[i as int]);
        match console_events[i] {
            ConsoleRecord::Key { key_down, control_key_state, virtual_key_code, unicode_char, repeat_count } => {
                if key_down {
                    match key_of_console_event(control_key_state, virtual_key_code, unicode_char) {
                        Some(key) => {
                            let ghost before = events@;
                            let mut n: u16 = 0;
                            while n < repeat_count
                                invariant
                                    n <= repeat_count,
                                    events@ == before + Seq::new(n as nat, |j: int| PlatformEvent::Key(key)),
                                decreases repeat_count - n,
                            {
                                events.push(PlatformEvent::Key(key));
                                n = n + 1;
                                assert(events@ == before + Seq::new(n as nat, |j: int| PlatformEvent::Key(key)));
                            }
                            assert(events@ == e0 + (crate::next::platform::console_events(console_events@.take(i as int))
                                + Seq::new(repeat_count as nat, |j: int| PlatformEvent::Key(key))));
                        },
                        None => {},
                    }
                }
            },
            ConsoleRecord::BufferSize { x, y } => {
                events.push(PlatformEvent::Resize(x as u16, y as u16));
            },
            ConsoleRecord::Other => {},
        }
        i = i + 1;
    }
    assert(console_events@.take(console_events.len() as int) == console_events@);
}

/// The keys read so far, handed out one at a time.
pub struct Keys<'a> {
    pub keys: &'a [Key],
    pub index: usize,
}

impl<'a> Keys<'a> {
    /// The next key, if any is left.
    pub fn next(&mut self) -> (res: Option<Key>)
        ensures
            old(self).index < old(self).keys@.len() ==> res == Some(old(self).keys@[old(self).index as int])
                && final(self).index == old(self).index + 1,
            old(self).index >= old(self).keys@.len() ==> res is None && final(self).index == old(self).index,
            final(self).keys == old(self).keys,
    {
        if self.index < self.keys.len() {
            let key = self.keys[self.index];
            self.index = self.index + 1;
            Some(key)
        } else {
            None
        }
    }
}

/// Whether a process still runs, or finished (successfully or not).
#[derive(PartialEq, Eq, Structural, Clone, Copy, Debug)]
pub enum ProcessStatus {
    Running,
    Finished(bool),
}

/// What a process wrote and whether it finished.
pub struct ProcessTask {
    pub stdout: Vec<u8>,
    pub stderr: Vec<u8>,
    pub status: ProcessStatus,
}

impl ProcessTask {
    /// A running process that wrote nothing yet.
    pub fn new() -> (res: ProcessTask)
        ensures
            res.stdout@.len() == 0,
            res.stderr@.len() == 0,
            res.status == ProcessStatus::Running,
    {
        ProcessTask { stdout: Vec::new(), stderr: Vec::new(), status: ProcessStatus::Running }
    }

    /// Makes the task ready for another process.
    pub fn reset(&mut self)
        ensures
            final(self).stdout@.len() == 0,
            final(self).stderr@.len() == 0,
            final(self).status == ProcessStatus::Running,
    {
        self.stdout.clear();
        self.stderr.clear();
        self.status = ProcessStatus::Running;
    }
}

/// The text `String::from_utf8_lossy` makes of some bytes: the bytes read as UTF-8, each
/// invalid sequence replaced.
pub uninterp spec fn lossy_text(bytes: Seq<u8>) -> Seq<char>;

/// The bytes read as UTF-8 with invalid sequences replaced (`String::from_utf8_lossy`).
#[verifier::external_body]
fn utf8_lossy(bytes: &[u8]) -> (res: String)
    ensures
        res@ == lossy_text(bytes@),
{
    String::from_utf8_lossy(bytes).into_owned()
}

/// What a process gives when polled: nothing yet while it runs; its output when it
/// succeeded; its output, a line feed and its errors when it failed.
pub open spec fn process_poll(status: ProcessStatus, stdout: Seq<u8>, stderr: Seq<u8>) -> Option<(bool, Seq<char>)> {
    match status {
        ProcessStatus::Running => None,
        ProcessStatus::Finished(true) => Some((true, lossy_text(stdout))),
        ProcessStatus::Finished(false) => Some((false, lossy_text(stdout).push('\n') + lossy_text(stderr))),
    }
}

/// Polls the output of a process.
pub fn poll_process_output(task: &ProcessTask) -> (res: Poll<String>)
    ensures
        match process_poll(task.status, task.stdout@, task.stderr@) {
            None => res is Pending,
            Some((true, text)) => res matches Poll::Done(s) && s@ == text,
            Some((false, text)) => res matches Poll::Failed(s) && s@ == text,
        },
{
    match task.status {
        ProcessStatus::Running => Poll::Pending,
        ProcessStatus::Finished(true) => Poll::Done(utf8_lossy(task.stdout.as_slice())),
        ProcessStatus::Finished(false) => {
            let mut output = utf8_lossy(task.stdout.as_slice());
            crate::text::string_push(&mut output, '\n');
            let err = utf8_lossy(task.stderr.as_slice());
            output.append(err.as_str());
            Poll::Failed(output)
        },
    }
}

} // verus!
