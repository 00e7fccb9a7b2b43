//! Shell sessions: which shell is started, when gathered output is flushed,
//! how a read batches what has arrived, and what is known of each session.

use vstd::prelude::*;
use vstd::string::*;
use crate::ordering::{is_stable_order, key_views, stable_order, KeyView, SortKey};
use crate::state_collections::{
    key_position, lemma_key_position, lemma_key_position_after_push, Entries,
};
use crate::text::{
    byte_len, concat2, concat3, decimal, decimal_string, string_texts, to_chars,
};
use crate::types::generate_id;

verus! {

/// Columns of a terminal where the caller names none.
pub const DEFAULT_COLUMNS: u16 = 100;

/// Rows of a terminal where the caller names none.
pub const DEFAULT_ROWS: u16 = 30;

/// Size of the buffer a read of the shell's output fills, in bytes.
pub const READ_BUFFER_SIZE: usize = 4096;

/// Number of chunks of output that may wait to be read.
pub const OUTPUT_CHANNEL_CAPACITY: usize = 1000;

/// Gathered output of this many bytes is flushed.
pub const MIN_FLUSH_SIZE: usize = 32;

/// Gathered output is never allowed to grow beyond this many bytes.
pub const MAX_FLUSH_SIZE: usize = 1024;

/// Gathered output is flushed after this many milliseconds.
pub const FLUSH_INTERVAL_MS: u64 = 50;

/// After a failed read, gathered output is flushed after this many
/// milliseconds.
pub const ERROR_FLUSH_INTERVAL_MS: u64 = 30;

/// Pause after a failed read, in milliseconds.
pub const READ_RETRY_PAUSE_MS: u64 = 5;

/// Pause that lets a new shell print its first prompt, in milliseconds.
pub const STARTUP_PAUSE_MS: u64 = 100;

/// Longest time a read of output waits for more, in milliseconds.
pub const MAX_READ_WAIT_MS: u64 = 200;

/// Most chunks one read of output gathers.
pub const MAX_CHUNKS_PER_READ: usize = 20;

/// Timeout of a read of output where the caller names none, in
/// milliseconds.
pub const DEFAULT_READ_TIMEOUT_MS: u64 = 1000;

/// Pause between sending a command and reading its output, in
/// milliseconds.
pub const COMMAND_SETTLE_MS: u64 = 500;

/// Timeout of the read that follows a command, in milliseconds.
pub const COMMAND_READ_TIMEOUT_MS: u64 = 2000;

/// The output of a command and its exit code.
#[derive(Debug)]
pub struct CommandResult {
    pub output: String,
    pub exit_code: i32,
}

/// What is known of the terminal of the process.
#[derive(Debug)]
pub struct TerminalInfo {
    pub shell: String,
    pub working_directory: String,
    pub environment_variables: Vec<(String, String)>,
    pub os: String,
    pub arch: String,
    pub family: String,
    pub username: String,
    pub hostname: String,
}

/// What is known of one session.
#[derive(Debug)]
pub struct TerminalSessionInfo {
    pub id: String,
    pub shell: String,
    pub working_directory: String,
    pub created_at: u64,
    pub last_activity: u64,
    pub is_active: bool,
}

/// The size of a terminal.
#[derive(Debug, Clone, Copy, PartialEq, Eq, Structural)]
pub struct TerminalSize {
    pub cols: u16,
    pub rows: u16,
}

/// The size of a new terminal: what the caller names, else 100 columns and
/// 30 rows.
pub fn terminal_size(cols: Option<u16>, rows: Option<u16>) -> (s: TerminalSize)
    ensures
        s.cols == (match cols {
            Some(c) => c,
            None => DEFAULT_COLUMNS,
        }),
        s.rows == (match rows {
            Some(r) => r,
            None => DEFAULT_ROWS,
        }),
{
    TerminalSize {
        cols: match cols {
            Some(c) => c,
            None => DEFAULT_COLUMNS,
        },
        rows: match rows {
            Some(r) => r,
            None => DEFAULT_ROWS,
        },
    }
}

/// The shell of a session: what the environment names (`COMSPEC` on
/// Windows, `SHELL` elsewhere), else `cmd.exe` on Windows and `fallback`
/// elsewhere.
pub open spec fn shell_text(windows: bool, named: Option<Seq<char>>, fallback: Seq<char>) -> Seq<
    char,
> {
    match named {
        Some(s) => s,
        None => if windows {
            "cmd.exe"@
        } else {
            fallback
        },
    }
}

fn choose_shell(windows: bool, named: Option<&str>, fallback: &str) -> (r: String)
    ensures
        r@ == shell_text(
            windows,
            match named {
                Some(s) => Some(s@),
                None => None,
            },
            fallback@,
        ),
{
    match named {
        Some(s) => String::from_str(s),
        None => if windows {
            String::from_str("cmd.exe")
        } else {
            String::from_str(fallback)
        },
    }
}

/// The shell a new session starts; where the environment names none it is
/// `/bin/bash`, or `cmd.exe` on Windows.
pub fn session_shell(windows: bool, named: Option<&str>) -> (r: String)
    ensures
        r@ == shell_text(
            windows,
            match named {
                Some(s) => Some(s@),
                None => None,
            },
            "/bin/bash"@,
        ),
{
    choose_shell(windows, named, "/bin/bash")
}

/// The shell that the terminal of the process is said to have; where the
/// environment names none it is `/bin/sh`, or `cmd.exe` on Windows.
pub fn reported_shell(windows: bool, named: Option<&str>) -> (r: String)
    ensures
        r@ == shell_text(
            windows,
            match named {
                Some(s) => Some(s@),
                None => None,
            },
            "/bin/sh"@,
        ),
{
    choose_shell(windows, named, "/bin/sh")
}

// ---------------------------------------------------------------------------
// Gathering the output of a shell
// ---------------------------------------------------------------------------
/// The chunk looks like the end of a line or like a prompt: it holds a line
/// feed, `$`, `#` or `>`, or it is shorter than 10 bytes and holds a colon.
pub open spec fn looks_like_prompt(chunk: Seq<char>, chunk_bytes: nat) -> bool {
    ||| chunk.contains('\n')
    ||| chunk.contains('$')
    ||| chunk.contains('#')
    ||| chunk.contains('>')
    ||| (chunk.contains(':') && chunk_bytes < 10)
}

/// Gathered output is flushed once the chunk that came last is added: it is
/// not empty, and it has reached the flush size, or the flush interval has
/// passed since the last flush, or the chunk looks like a prompt.
pub open spec fn flush_due(
    gathered_bytes: nat,
    since_flush_ms: u64,
    chunk: Seq<char>,
    chunk_bytes: nat,
) -> bool {
    gathered_bytes > 0 && (gathered_bytes >= MIN_FLUSH_SIZE || gathered_bytes >= MAX_FLUSH_SIZE
        || since_flush_ms >= FLUSH_INTERVAL_MS || looks_like_prompt(chunk, chunk_bytes))
}

/// Decides whether gathered output of `gathered_bytes` bytes is flushed,
/// `since_flush_ms` milliseconds after the last flush, when `chunk` came
/// last.
pub fn should_flush(gathered_bytes: usize, since_flush_ms: u64, chunk: &str) -> (r: bool)
    ensures
        r == flush_due(gathered_bytes as nat, since_flush_ms, chunk@, chunk.spec_bytes().len()),
{
    if gathered_bytes == 0 {
        return false;
    }
    let chars = to_chars(chunk);
    gathered_bytes >= MIN_FLUSH_SIZE || gathered_bytes >= MAX_FLUSH_SIZE || since_flush_ms
        >= FLUSH_INTERVAL_MS || crate::text::chars_contain(&chars, '\n') || crate::text::chars_contain(
        &chars,
        '$',
    ) || crate::text::chars_contain(&chars, '#') || crate::text::chars_contain(&chars, '>') || (
    crate::text::chars_contain(&chars, ':') && byte_len(chunk) < 10)
}

/// The output of a shell that was read and not flushed yet.
#[derive(Debug)]
pub struct OutputBuffer {
    gathered: String,
}

impl OutputBuffer {
    /// The output gathered so far.
    pub closed spec fn gathered(&self) -> Seq<char> {
        self.gathered@
    }

    /// The number of bytes gathered so far.
    pub closed spec fn gathered_bytes(&self) -> nat {
        vstd::utf8::encode_utf8(self.gathered@).len()
    }

    /// A buffer that has gathered nothing.
    pub fn new() -> (b: Self)
        ensures
            b.gathered() == Seq::<char>::empty(),
    {
        OutputBuffer { gathered: String::new() }
    }

    /// Takes a chunk that was read, `since_flush_ms` milliseconds after the
    /// last flush. Where a flush is due, everything gathered is handed out
    /// and the buffer is empty again; the caller sends it on and, if that
    /// cannot be done, drops it.
    pub fn on_chunk(&mut self, chunk: &str, since_flush_ms: u64) -> (flushed: Option<String>)
        ensures
            match flushed {
                Some(text) => text@ == old(self).gathered() + chunk@ && final(self).gathered()
                    == Seq::<char>::empty(),
                None => final(self).gathered() == old(self).gathered() + chunk@,
            },
            flushed is Some <==> flush_due(
                vstd::utf8::encode_utf8(old(self).gathered() + chunk@).len(),
                since_flush_ms,
                chunk@,
                chunk.spec_bytes().len(),
            ),
    {
        self.gathered.append(chunk);
        let n = byte_len(self.gathered.as_str());
        if should_flush(n, since_flush_ms, chunk) {
            let mut text = String::new();
            std::mem::swap(&mut self.gathered, &mut text);
            Some(text)
        } else {
            None
        }
    }

    /// Takes the failure of a read, `since_flush_ms` milliseconds after
    /// the last flush: what was gathered is handed out if the error flush
    /// interval has passed. The caller pauses before it reads again.
    pub fn on_read_error(&mut self, since_flush_ms: u64) -> (flushed: Option<String>)
        ensures
            match flushed {
                Some(text) => text@ == old(self).gathered() && text@.len() > 0 && since_flush_ms
                    >= ERROR_FLUSH_INTERVAL_MS && final(self).gathered() == Seq::<char>::empty(),
                None => final(self).gathered() == old(self).gathered() && (old(self).gathered().len() == 0 || since_flush_ms < ERROR_FLUSH_INTERVAL_MS),
            },
    {
        if !self.gathered.as_str().is_empty() && since_flush_ms >= ERROR_FLUSH_INTERVAL_MS {
            let mut text = String::new();
            std::mem::swap(&mut self.gathered, &mut text);
            Some(text)
        } else {
            None
        }
    }

    /// Takes the end of the output: what was gathered is handed out, if
    /// there is any.
    pub fn on_eof(&mut self) -> (flushed: Option<String>)
        ensures
            final(self).gathered() == Seq::<char>::empty(),
            match flushed {
                Some(text) => text@ == old(self).gathered() && text@.len() > 0,
                None => old(self).gathered().len() == 0,
            },
    {
        let mut text = String::new();
        std::mem::swap(&mut self.gathered, &mut text);
        if text.as_str().is_empty() {
            None
        } else {
            Some(text)
        }
    }
}

// ---------------------------------------------------------------------------
// Reading what has arrived
// ---------------------------------------------------------------------------
/// What a look at the channel of a session gave.
#[derive(Debug)]
pub enum ChannelEvent {
    /// A chunk of output.
    Chunk(String),
    /// Nothing has arrived.
    Empty,
    /// The reader of the session is gone.
    Disconnected,
}

/// What a read of output does next.
#[derive(Debug, Clone, Copy, PartialEq, Eq, Structural)]
pub enum ReadStep {
    /// Look at the channel again, at once.
    Again,
    /// Look at the channel again after a pause of so many milliseconds.
    Pause(u64),
    /// Answer what was gathered.
    Done,
    /// Fail: the session is disconnected.
    Disconnected,
}

/// How long a read of output waits for a first chunk.
pub open spec fn read_wait(timeout_ms: u64) -> u64 {
    if timeout_ms < MAX_READ_WAIT_MS {
        timeout_ms
    } else {
        MAX_READ_WAIT_MS
    }
}

/// What a read does after `event`, once the event is taken: it goes on
/// gathering while chunks arrive, up to the cap; it answers what it has as
/// soon as nothing more has arrived; and with nothing gathered it waits, in
/// pauses of 10 ms, until the wait is over.
pub open spec fn read_step(chunks: nat, gathered_empty: bool, event: ChannelEvent, waited_ms: u64, timeout_ms: u64) -> ReadStep {
    match event {
        ChannelEvent::Chunk(_) => if chunks + 1 >= MAX_CHUNKS_PER_READ {
            ReadStep::Done
        } else {
            ReadStep::Again
        },
        ChannelEvent::Empty => if !gathered_empty || waited_ms >= read_wait(timeout_ms) {
            ReadStep::Done
        } else {
            ReadStep::Pause(10)
        },
        ChannelEvent::Disconnected => ReadStep::Disconnected,
    }
}

/// One read of the output of a session.
#[derive(Debug)]
pub struct OutputRead {
    gathered: String,
    chunks: usize,
}

impl OutputRead {
    /// The output gathered so far.
    pub closed spec fn gathered(&self) -> Seq<char> {
        self.gathered@
    }

    /// The number of chunks gathered so far.
    pub closed spec fn chunks(&self) -> nat {
        self.chunks as nat
    }

    /// A read that has gathered nothing.
    pub fn new() -> (r: Self)
        ensures
            r.gathered() == Seq::<char>::empty(),
            r.chunks() == 0,
    {
        OutputRead { gathered: String::new(), chunks: 0 }
    }

    /// Takes what a look at the channel gave, `waited_ms` milliseconds after
    /// the read began, and says what is done next.
    pub fn take(&mut self, event: ChannelEvent, waited_ms: u64, timeout_ms: u64) -> (step: ReadStep)
        ensures
            step == read_step(
                old(self).chunks(),
                old(self).gathered().len() == 0,
                event,
                waited_ms,
                timeout_ms,
            ),
            match event {
                ChannelEvent::Chunk(text) => final(self).gathered() == old(self).gathered() + text@
                    && final(self).chunks() == (if old(self).chunks() < MAX_CHUNKS_PER_READ {
                    old(self).chunks() + 1
                } else {
                    old(self).chunks()
                }),
                _ => final(self).gathered() == old(self).gathered() && final(self).chunks() == old(self).chunks(),
            },
    {
        match event {
            ChannelEvent::Chunk(text) => {
                self.gathered.append(text.as_str());
                if self.chunks < MAX_CHUNKS_PER_READ {
                    self.chunks = self.chunks + 1;
                }
                if self.chunks >= MAX_CHUNKS_PER_READ {
                    ReadStep::Done
                } else {
                    ReadStep::Again
                }
            },
            ChannelEvent::Empty => {
                let wait = if timeout_ms < MAX_READ_WAIT_MS {
                    timeout_ms
                } else {
                    MAX_READ_WAIT_MS
                };
                if !self.gathered.as_str().is_empty() || waited_ms >= wait {
                    ReadStep::Done
                } else {
                    ReadStep::Pause(10)
                }
            },
            ChannelEvent::Disconnected => ReadStep::Disconnected,
        }
    }

    /// The output that was gathered.
    pub fn finish(self) -> (text: String)
        ensures
            text@ == self.gathered(),
    {
        self.gathered
    }
}

// ---------------------------------------------------------------------------
// The table of sessions
// ---------------------------------------------------------------------------
/// What is said where there is no session under an identifier.
pub open spec fn session_not_found(session_id: Seq<char>) -> Seq<char> {
    "Session "@ + session_id + " not found"@
}

/// The sessions that are open, each under its identifier.
#[derive(Debug)]
pub struct TerminalManager {
    sessions: Entries<TerminalSessionInfo>,
}

impl TerminalManager {
    /// The identifiers of the open sessions, in the order they were opened.
    pub closed spec fn ids(&self) -> Seq<Seq<char>> {
        self.sessions.keys()
    }

    /// What is known of the open sessions, each at the position of its
    /// identifier.
    pub closed spec fn infos(&self) -> Seq<TerminalSessionInfo> {
        self.sessions.items()
    }

    /// No identifier occurs twice, and there is something known of every
    /// session.
    pub open spec fn well_formed(&self) -> bool {
        &&& self.ids().len() == self.infos().len()
        &&& self.ids().no_duplicates()
    }

    /// What is known of the session under `id`, where there is such a
    /// session.
    pub open spec fn info(&self, id: Seq<char>) -> Option<TerminalSessionInfo> {
        if key_position(self.ids(), id) < self.ids().len() {
            Some(self.infos()[key_position(self.ids(), id)])
        } else {
            None
        }
    }

    /// Something is known of a session exactly where its identifier is among
    /// the open sessions.
    pub proof fn lemma_known_iff_open(&self, id: Seq<char>)
        ensures
            self.info(id) is Some <==> self.ids().contains(id),
    {
        lemma_key_position(self.ids(), id);
    }

    /// A table without sessions.
    pub fn new() -> (m: Self)
        ensures
            m.well_formed(),
            m.ids() == Seq::<Seq<char>>::empty(),
    {
        TerminalManager { sessions: Entries::new() }
    }

    /// Enters a session that was started with `shell` in `working_dir` at
    /// the time `now`, under a fresh identifier, which is answered.
    pub fn create_session(&mut self, working_dir: &str, shell: &str, now: u64) -> (id: String)
        requires
            old(self).well_formed(),
        ensures
            final(self).well_formed(),
            id@.len() == 36,
            final(self).info(id@) matches Some(s) && {
                &&& s.id@ == id@
                &&& s.shell@ == shell@
                &&& s.working_directory@ == working_dir@
                &&& s.created_at == now
                &&& s.last_activity == now
                &&& s.is_active
            },
            final(self).ids().contains(id@),
            forall|other: Seq<char>|
                other != id@ ==> final(self).ids().contains(other) == old(self).ids().contains(
                    other,
                ),
            forall|other: Seq<char>|
                other != id@ ==> final(self).info(other) == old(self).info(other),
    {
        let id = generate_id();
        let info = TerminalSessionInfo {
            id: id.clone(),
            shell: String::from_str(shell),
            working_directory: String::from_str(working_dir),
            created_at: now,
            last_activity: now,
            is_active: true,
        };
        let ghost keys = self.sessions.keys();
        proof {
            lemma_key_position(keys, id@);
        }
        self.sessions.insert(id.as_str(), info);
        proof {
            let now_keys = self.sessions.keys();
            lemma_key_position(now_keys, id@);
            assert forall|other: Seq<char>| other != id@ implies self.info(other) == old(self).info(other) by {
                lemma_key_position(keys, other);
                lemma_key_position(now_keys, other);
                if !keys.contains(id@) {
                    lemma_key_position_after_push(keys, id@, other);
                }
            }
            assert forall|other: Seq<char>| other != id@ implies now_keys.contains(other)
                == keys.contains(other) by {
                if keys.contains(other) {
                    let i = choose|i: int| 0 <= i < keys.len() && keys[i] == other;
                    assert(now_keys[i] == other);
                }
                if now_keys.contains(other) {
                    let i = choose|i: int| 0 <= i < now_keys.len() && now_keys[i] == other;
                    if i < keys.len() {
                        assert(keys[i] == other);
                    }
                }
            }
        }
        id
    }

    fn touch(&mut self, session_id: &str, now: u64) -> (found: bool)
        requires
            old(self).well_formed(),
        ensures
            final(self).well_formed(),
            final(self).ids() == old(self).ids(),
            found == old(self).ids().contains(session_id@),
            !found ==> final(self).infos() == old(self).infos(),
            found ==> (old(self).info(session_id@) matches Some(before) && final(self).infos()
                == old(self).infos().update(
                key_position(old(self).ids(), session_id@),
                TerminalSessionInfo { last_activity: now, ..before },
            )),
    {
        proof {
            lemma_key_position(self.sessions.keys(), session_id@);
        }
        let i = match self.sessions.index_of(session_id) {
            Some(i) => i,
            None => {
                return false;
            },
        };
        let ghost keys = self.sessions.keys();
        let ghost items = self.sessions.items();
        match self.sessions.remove(session_id) {
            Some(info) => {
                let changed = TerminalSessionInfo { last_activity: now, ..info };
                self.sessions.insert_at(i, session_id, changed);
                proof {
                    assert(self.sessions.keys() =~= keys);
                    assert(self.sessions.items() =~= items.update(i as int, changed));
                }
                true
            },
            None => true,
        }
    }

    /// Notes that input is sent to the session under `session_id` at the
    /// time `now`. It fails where there is no such session; the input is
    /// then not sent.
    pub fn send_input(&mut self, session_id: &str, now: u64) -> (r: Result<(), String>)
        requires
            old(self).well_formed(),
        ensures
            final(self).well_formed(),
            final(self).ids() == old(self).ids(),
            r is Ok <==> old(self).ids().contains(session_id@),
            match r {
                Ok(_) => old(self).info(session_id@) matches Some(before) && final(self).infos()
                    == old(self).infos().update(
                    key_position(old(self).ids(), session_id@),
                    TerminalSessionInfo { last_activity: now, ..before },
                ),
                Err(e) => !old(self).ids().contains(session_id@) && e@ == session_not_found(
                    session_id@,
                ) && final(self).infos() == old(self).infos(),
            },
    {
        if self.touch(session_id, now) {
            Ok(())
        } else {
            Err(concat3("Session ", session_id, " not found"))
        }
    }

    /// Notes that `output` was read from the session under `session_id` at
    /// the time `now`, and answers it. Output that is not empty counts as
    /// activity. It fails where there is no such session.
    pub fn read_output(&mut self, session_id: &str, output: String, now: u64) -> (r: Result<
        String,
        String,
    >)
        requires
            old(self).well_formed(),
        ensures
            final(self).well_formed(),
            final(self).ids() == old(self).ids(),
            r is Ok <==> old(self).ids().contains(session_id@),
            match r {
                Ok(text) => text == output && (old(self).info(session_id@) matches Some(before)
                    && final(self).infos() == (if output@.len() > 0 {
                    old(self).infos().update(
                        key_position(old(self).ids(), session_id@),
                        TerminalSessionInfo { last_activity: now, ..before },
                    )
                } else {
                    old(self).infos()
                })),
                Err(e) => !old(self).ids().contains(session_id@) && e@ == session_not_found(
                    session_id@,
                ) && final(self).infos() == old(self).infos(),
            },
    {
        proof {
            lemma_key_position(self.sessions.keys(), session_id@);
        }
        if !self.sessions.contains_key(session_id) {
            return Err(concat3("Session ", session_id, " not found"));
        }
        if !output.as_str().is_empty() {
            let _ = self.touch(session_id, now);
        }
        Ok(output)
    }

    /// The size the session under `session_id` is to get. It fails where
    /// there is no such session.
    pub fn resize_session(&self, session_id: &str, cols: u16, rows: u16) -> (r: Result<
        TerminalSize,
        String,
    >)
        ensures
            match r {
                Ok(size) => self.ids().contains(session_id@) && size == (TerminalSize { cols, rows }),
                Err(e) => !self.ids().contains(session_id@) && e@ == session_not_found(session_id@),
            },
    {
        if self.sessions.contains_key(session_id) {
            Ok(TerminalSize { cols, rows })
        } else {
            Err(concat3("Session ", session_id, " not found"))
        }
    }

    /// Closes the session under `session_id`. It succeeds whether or not
    /// there was such a session; afterwards there is none.
    pub fn close_session(&mut self, session_id: &str) -> (r: Result<(), String>)
        requires
            old(self).well_formed(),
        ensures
            r is Ok,
            final(self).well_formed(),
            !final(self).ids().contains(session_id@),
            (final(self).ids(), final(self).infos()) == crate::state_collections::taken(
                old(self).ids(),
                old(self).infos(),
                session_id@,
            ),
    {
        let _ = self.sessions.remove(session_id);
        proof {
            lemma_key_position(self.sessions.keys(), session_id@);
        }
        Ok(())
    }

    /// What is known of the session under `session_id`.
    pub fn get_session_info(&self, session_id: &str) -> (r: Result<&TerminalSessionInfo, String>)
        requires
            self.well_formed(),
        ensures
            r is Ok <==> self.ids().contains(session_id@),
            match r {
                Ok(info) => self.info(session_id@) == Some(*info),
                Err(e) => self.info(session_id@) is None && e@ == session_not_found(session_id@),
            },
    {
        proof {
            lemma_key_position(self.ids(), session_id@);
        }
        match self.sessions.get(session_id) {
            Some(info) => Ok(info),
            None => Err(concat3("Session ", session_id, " not found")),
        }
    }

    /// What is known of every open session, in the order they were opened.
    pub fn list_sessions(&self) -> (r: Result<Vec<&TerminalSessionInfo>, String>)
        ensures
            r matches Ok(v) && v@.len() == self.infos().len() && forall|i: int|
                0 <= i < v@.len() ==> *v@[i] == self.infos()[i],
    {
        Ok(self.sessions.values())
    }
}

/// Once a session is closed, its identifier is among the sessions no more,
/// so every later operation on it finds no session.
pub proof fn lemma_closed_session_is_gone(ids: Seq<Seq<char>>, infos: Seq<TerminalSessionInfo>, id: Seq<char>)
    requires
        ids.no_duplicates(),
        ids.len() == infos.len(),
    ensures
        !crate::state_collections::taken(ids, infos, id).0.contains(id),
{
    lemma_key_position(ids, id);
    let i = key_position(ids, id);
    let after = crate::state_collections::taken(ids, infos, id).0;
    if i < ids.len() {
        assert forall|k: int| 0 <= k < after.len() implies after[k] != id by {
            if k < i {
                assert(ids[k] != ids[i]);
            } else {
                assert(ids[k + 1] != ids[i]);
            }
        }
    }
}

/// The result of a command run in a session: its output, and the exit code
/// 0, since the exit code of the command is not tracked.
pub fn command_result(output: String) -> (r: CommandResult)
    ensures
        r.output == output,
        r.exit_code == 0,
{
    CommandResult { output, exit_code: 0 }
}

/// What the export of a session holds.
pub open spec fn export_text(info: TerminalSessionInfo) -> Seq<char> {
    "Terminal Session Export\n======================\nSession ID: "@ + info.id@ + "\nShell: "@
        + info.shell@ + "\nWorking Directory: "@ + info.working_directory@ + "\nCreated: "@
        + decimal(info.created_at as nat) + "\nLast Activity: "@ + decimal(
        info.last_activity as nat,
    )
        + "\n\nNote: This is a session metadata export.\nFor full terminal history, use the screenshot feature.\n"@
}

/// Writes the export of a session.
pub fn export_terminal_session(info: &TerminalSessionInfo) -> (r: String)
    ensures
        r@ == export_text(*info),
{
    let a = concat3(
        "Terminal Session Export\n======================\nSession ID: ",
        info.id.as_str(),
        "\nShell: ",
    );
    let b = concat3(a.as_str(), info.shell.as_str(), "\nWorking Directory: ");
    let c = concat3(b.as_str(), info.working_directory.as_str(), "\nCreated: ");
    let d = concat3(c.as_str(), decimal_string(info.created_at).as_str(), "\nLast Activity: ");
    concat3(
        d.as_str(),
        decimal_string(info.last_activity).as_str(),
        "\n\nNote: This is a session metadata export.\nFor full terminal history, use the screenshot feature.\n",
    )
}

/// The directories below the documents of the user in which a file of the
/// terminal is kept: screenshots in one, exports in another.
pub fn terminal_directory(exports: bool) -> (parts: Vec<String>)
    ensures
        string_texts(parts@) == (if exports {
            seq!["Syntari"@, "terminal-exports"@]
        } else {
            seq!["Syntari"@, "terminal-screenshots"@]
        }),
{
    let mut parts: Vec<String> = Vec::new();
    parts.push(String::from_str("Syntari"));
    if exports {
        parts.push(String::from_str("terminal-exports"));
    } else {
        parts.push(String::from_str("terminal-screenshots"));
    }
    proof {
        assert(string_texts(parts@) =~= (if exports {
            seq!["Syntari"@, "terminal-exports"@]
        } else {
            seq!["Syntari"@, "terminal-screenshots"@]
        }));
    }
    parts
}

/// What the assistant of the terminal answers for a context of
/// `context_bytes` bytes.
pub open spec fn assist_text(context_bytes: nat) -> Seq<char> {
    "AI Assistant Response:\nBased on your terminal context, here are some suggestions:\n\n1. Use 'ls -la' to see detailed file listings\n2. Use 'cd' to change directories\n3. Use 'history' to see command history\n\nContext received: "@
        + decimal(context_bytes) + " characters"@
}

/// Answers a request for help in the terminal.
pub fn request_terminal_ai_assist(context: &str) -> (r: Result<String, String>)
    ensures
        r matches Ok(text) && text@ == assist_text(context.spec_bytes().len()),
{
    let n = byte_len(context);
    Ok(
        concat3(
            "AI Assistant Response:\nBased on your terminal context, here are some suggestions:\n\n1. Use 'ls -la' to see detailed file listings\n2. Use 'cd' to change directories\n3. Use 'history' to see command history\n\nContext received: ",
            decimal_string(n as u64).as_str(),
            " characters",
        ),
    )
}

/// The keys by which names are ordered: the names themselves.
pub open spec fn name_keys(names: Seq<Seq<char>>) -> Seq<KeyView> {
    names.map_values(|n: Seq<char>| KeyView { rank: 0, text: n })
}

/// `out` holds the names `names` in ascending order.
pub open spec fn sorted_names(names: Seq<Seq<char>>, out: Seq<Seq<char>>) -> bool {
    exists|order: Seq<usize>|
        {
            &&& #[trigger] is_stable_order(name_keys(names), order)
            &&& out.len() == order.len()
            &&& forall|i: int| 0 <= i < order.len() ==> out[i] == names[order[i] as int]
        }
}

/// The names of the entries of a directory in ascending order.
pub fn sort_names(names: &Vec<String>) -> (out: Vec<String>)
    ensures
        sorted_names(string_texts(names@), string_texts(out@)),
{
    let mut keys: Vec<SortKey> = Vec::new();
    let mut i: usize = 0;
    let ghost wanted = name_keys(string_texts(names@));
    while i < names.len()
        invariant
            i <= names.len(),
            keys.len() == i,
            wanted == name_keys(string_texts(names@)),
            forall|k: int| 0 <= k < i ==> (#[trigger] key_views(keys@)[k]) == wanted[k],
        decreases names.len() - i,
    {
        let key = SortKey { rank: 0, text: to_chars(names[i].as_str()) };
        let ghost old_keys = keys@;
        keys.push(key);
        proof {
            assert(key_views(keys@) =~= key_views(old_keys).push(key@));
        }
        i += 1;
    }
    proof {
        assert(key_views(keys@) =~= wanted);
    }
    let order = stable_order(&keys);
    let mut out: Vec<String> = Vec::new();
    let mut j: usize = 0;
    while j < order.len()
        invariant
            j <= order.len(),
            keys.len() == names.len(),
            is_stable_order(key_views(keys@), order@),
            out.len() == j,
            forall|k: int|
                0 <= k < j ==> (#[trigger] string_texts(out@)[k]) == string_texts(
                    names@,
                )[order@[k] as int],
        decreases order.len() - j,
    {
        assert(0 <= order@[j as int] < keys.len());
        let ghost old_out = out@;
        let name = names[order[j]].clone();
        out.push(name);
        proof {
            assert(string_texts(out@) =~= string_texts(old_out).push(name@));
        }
        j += 1;
    }
    out
}

/// What is known of a path that is to be listed or to be made the working
/// directory.
#[derive(Debug, Clone, Copy, PartialEq, Eq, Structural)]
pub struct DirectoryFacts {
    pub exists: bool,
    pub is_dir: bool,
}

/// Why `path` cannot be used as a directory, where it cannot.
pub open spec fn directory_refusal(path: Seq<char>, facts: DirectoryFacts) -> Option<Seq<char>> {
    if !facts.exists {
        Some("Directory does not exist: "@ + path)
    } else if !facts.is_dir {
        Some("Path is not a directory: "@ + path)
    } else {
        None
    }
}

fn check_directory(path: &str, facts: DirectoryFacts) -> (r: Result<(), String>)
    ensures
        match directory_refusal(path@, facts) {
            Some(why) => r matches Err(e) && e@ == why,
            None => r is Ok,
        },
{
    if !facts.exists {
        Err(concat2("Directory does not exist: ", path))
    } else if !facts.is_dir {
        Err(concat2("Path is not a directory: ", path))
    } else {
        Ok(())
    }
}

/// What changing the working directory to `path` answers, given what the
/// change gave where it was tried: the path, or why it could not be done.
pub fn change_directory(path: &str, facts: DirectoryFacts, changed: &Result<(), String>) -> (r:
    Result<String, String>)
    ensures
        match directory_refusal(path@, facts) {
            Some(why) => r matches Err(e) && e@ == why,
            None => match changed {
                Ok(_) => r matches Ok(p) && p@ == path@,
                Err(why) => r matches Err(e) && e@ == "Failed to change directory: "@ + why@,
            },
        },
{
    match check_directory(path, facts) {
        Err(e) => Err(e),
        Ok(_) => match changed {
            Ok(_) => Ok(String::from_str(path)),
            Err(why) => Err(concat2("Failed to change directory: ", why.as_str())),
        },
    }
}

/// What listing the directory `path` answers, given what reading it gave:
/// the names of its entries in ascending order, or why it could not be
/// done.
pub fn list_directory(path: &str, facts: DirectoryFacts, names: &Result<Vec<String>, String>) -> (r:
    Result<Vec<String>, String>)
    ensures
        match directory_refusal(path@, facts) {
            Some(why) => r matches Err(e) && e@ == why,
            None => match names {
                Ok(found) => r matches Ok(out) && sorted_names(
                    string_texts(found@),
                    string_texts(out@),
                ),
                Err(why) => r matches Err(e) && e@ == why@,
            },
        },
{
    match check_directory(path, facts) {
        Err(e) => Err(e),
        Ok(_) => match names {
            Ok(found) => Ok(sort_names(found)),
            Err(why) => Err(why.clone()),
        },
    }
}

/// The name a user is said to have where the environment names none.
pub fn username_or_default(named: Option<&str>) -> (r: String)
    ensures
        r@ == (match named {
            Some(n) => n@,
            None => "user"@,
        }),
{
    match named {
        Some(n) => String::from_str(n),
        None => String::from_str("user"),
    }
}

/// The name the host is said to have where nothing names it.
pub fn hostname_or_default(named: Option<&str>) -> (r: String)
    ensures
        r@ == (match named {
            Some(n) => n@,
            None => "localhost"@,
        }),
{
    match named {
        Some(n) => String::from_str(n),
        None => String::from_str("localhost"),
    }
}

} // verus!
