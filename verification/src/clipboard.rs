//! Clipboard change detection.
//!
//! The monitor remembers the last text that was either written by this
//! program or reported as a change; a read of the clipboard is reported only
//! when it differs from that text.

use vstd::prelude::*;

verus! {

/// One clipboard entry as handed to the user interface.
#[derive(Debug, PartialEq, Eq)]
pub struct ClipboardStruct {
    pub id: i32,
    pub content: String,
    pub created: i64,
}

/// Mathematical value of a clipboard entry: identifier, text and creation
/// time in milliseconds since the Unix epoch.
pub struct ClipEntry {
    pub id: i32,
    pub content: Seq<char>,
    pub created: i64,
}

impl View for ClipboardStruct {
    type V = ClipEntry;

    open spec fn view(&self) -> ClipEntry {
        ClipEntry { id: self.id, content: self.content@, created: self.created }
    }
}

/// The identifier that every reported entry carries.
pub open spec fn entry_id() -> i32 {
    1i32
}

/// The status code that a successful clipboard write reports.
pub open spec fn write_status() -> i32 {
    200i32
}

pub open spec fn entry_view(change: Option<ClipboardStruct>) -> Option<ClipEntry> {
    match change {
        Some(c) => Some(c@),
        None => None,
    }
}

/// Observing the clipboard text `data` at time `created`, with `last` the
/// remembered text: the new remembered text and the reported entry, if any.
pub open spec fn observe_spec(last: Option<Seq<char>>, data: Seq<char>, created: i64) -> (
    Option<Seq<char>>,
    Option<ClipEntry>,
) {
    if last == Some(data) {
        (last, None)
    } else {
        (Some(data), Some(ClipEntry { id: entry_id(), content: data, created }))
    }
}

/// The remembered text after this program writes `content` to the clipboard.
pub open spec fn write_spec(last: Option<Seq<char>>, content: Seq<char>) -> Option<Seq<char>> {
    Some(content)
}

/// State of the clipboard watcher.
pub struct ClipboardMonitor {
    last_seen: Option<String>,
}

impl View for ClipboardMonitor {
    type V = Option<Seq<char>>;

    closed spec fn view(&self) -> Option<Seq<char>> {
        match self.last_seen {
            Some(s) => Some(s@),
            None => None,
        }
    }
}

impl ClipboardMonitor {
    /// A watcher that has seen nothing yet: the first read is always reported.
    pub fn new() -> (monitor: Self)
        ensures
            monitor@ == None::<Seq<char>>,
    {
        ClipboardMonitor { last_seen: None }
    }

    /// Records the text `data` read from the clipboard at time `created`
    /// (milliseconds since the Unix epoch) and reports it if it differs from
    /// the remembered text.
    pub fn observe(&mut self, data: String, created: i64) -> (change: Option<ClipboardStruct>)
        ensures
            (final(self)@, entry_view(change)) == observe_spec(old(self)@, data@, created),
    {
        let unchanged = match &self.last_seen {
            Some(prev) => *prev == data,
            None => false,
        };
        if unchanged {
            None
        } else {
            let remembered = data.clone();
            self.last_seen = Some(remembered);
            Some(ClipboardStruct { id: 1, content: data, created })
        }
    }
}

/// Remembers `content` as written by this program, so that reading it back
/// is not reported as a change; returns the success status of the write.
pub fn write_clipboard(monitor: &mut ClipboardMonitor, content: &str) -> (status: Option<i32>)
    ensures
        final(monitor)@ == write_spec(old(monitor)@, content@),
        status == Some(write_status()),
{
    let text = content.to_owned();
    monitor.last_seen = Some(text);
    Some(200)
}

/// Handles one read of the clipboard, taken at time `created` (milliseconds
/// since the Unix epoch): a failed read is passed on unchanged; a successful
/// one is reported, stamped with `created`, when it differs from the
/// remembered text.
pub fn monitor_clipboard_changes(
    monitor: &mut ClipboardMonitor,
    clipboard_result: Result<String, String>,
    created: i64,
) -> (result: Result<Option<ClipboardStruct>, String>)
    ensures
        match clipboard_result {
            Err(e) => result == Err::<Option<ClipboardStruct>, String>(e) && final(monitor)@ == old(
                monitor,
            )@,
            Ok(data) => result matches Ok(change) && (final(monitor)@, entry_view(change))
                == observe_spec(old(monitor)@, data@, created),
        },
{
    match clipboard_result {
        Ok(data) => {
            let change = monitor.observe(data, created);
            Ok(change)
        },
        Err(e) => Err(e),
    }
}

/// A text that was just reported is not reported again when read a second
/// time.
pub proof fn lemma_change_reported_once(
    last: Option<Seq<char>>,
    data: Seq<char>,
    first: i64,
    second: i64,
)
    ensures
        observe_spec(observe_spec(last, data, first).0, data, second).1 is None,
{
}

/// Text that this program wrote to the clipboard is not reported when it is
/// read back.
pub proof fn lemma_own_write_not_reported(last: Option<Seq<char>>, content: Seq<char>, created: i64)
    ensures
        observe_spec(write_spec(last, content), content, created).1 is None,
{
}

/// Text that differs from the remembered text is reported, with the fixed
/// identifier, the text itself and the time of the read, and becomes the
/// remembered text.
pub proof fn lemma_new_text_reported(last: Option<Seq<char>>, data: Seq<char>, created: i64)
    requires
        last != Some(data),
    ensures
        observe_spec(last, data, created) == (
            Some(data),
            Some(ClipEntry { id: entry_id(), content: data, created }),
        ),
{
}

} // verus!
