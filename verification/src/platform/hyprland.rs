//! Cursor position on Hyprland (Wayland) via the Hyprland IPC socket.
//!
//! Hyprland exposes the global pointer through its control socket. The
//! protocol is one request per connection: write the command, read the reply
//! until EOF. The command is `cursorpos`, which answers `"<x>, <y>"`.

use vstd::prelude::*;

use crate::error::Error;
use crate::Point;
use crate::text::{
    all_white_space, chars_of, debug_quoted, decimal, find_first, from_utf8_lossy,
    is_blank, is_first_index, is_white_space, lemma_decimal_shape, lemma_parse_decimal,
    lemma_trim_padding, lemma_trim_plain, parse_i32, parse_i32_chars, path_join,
    path_join_bytes, split_once, split_once_chars, str_debug, trim, trim_chars, utf8_lossy,
};
use vstd::utf8::encode_utf8;

verus! {

/// The value of a `cursorpos` reply: the trimmed reply split at its first
/// comma, each side trimmed and read as an `i32`.
pub open spec fn cursor_pos(reply: Seq<char>) -> Option<(i32, i32)> {
    match split_once(trim(reply), ',') {
        Some((x, y)) => match (parse_i32(trim(x)), parse_i32(trim(y))) {
            (Some(a), Some(b)) => Some((a, b)),
            _ => None,
        },
        None => None,
    }
}

/// Parses the `cursorpos` reply, e.g. `"1920, 540"`.
pub fn parse_cursor_pos(reply: &str) -> (res: Option<(i32, i32)>)
    ensures
        res == cursor_pos(reply@),
{
    let chars = chars_of(reply);
    let t = trim_chars(&chars);
    match split_once_chars(&t, ',') {
        Some((x, y)) => {
            let tx = trim_chars(&x);
            let ty = trim_chars(&y);
            match (parse_i32_chars(&tx), parse_i32_chars(&ty)) {
                (Some(a), Some(b)) => Some((a, b)),
                _ => None,
            }
        },
        None => None,
    }
}


/// The reply `"<x>, <y>"` that Hyprland writes for a pointer at `(x, y)`
/// reads back as exactly that pointer.
pub proof fn law_cursor_pos_round_trip(x: i32, y: i32)
    ensures
        cursor_pos(decimal(x as int) + seq![',', ' '] + decimal(y as int)) == Some((x, y)),
{
    let dx = decimal(x as int);
    let dy = decimal(y as int);
    let r = dx + seq![',', ' '] + dy;
    lemma_decimal_shape(x as int);
    lemma_decimal_shape(y as int);
    assert(!is_white_space(r[0])) by {
        assert(r[0] == dx[0]);
    }
    assert(!is_white_space(r.last())) by {
        assert(r.last() == dy.last());
    }
    lemma_trim_plain(r);
    let k = dx.len() as int;
    assert(is_first_index(r, ',', k)) by {
        assert forall|j: int| 0 <= j < k implies r[j] != ',' by {
            assert(r[j] == dx[j]);
        }
    }
    assert(find_first(r, ',') == Some(k));
    assert(r.take(k) == dx);
    assert(r.skip(k + 1) == seq![' '] + dy);
    lemma_trim_plain(dx);
    lemma_trim_plain(dy);
    lemma_trim_padding(seq![' '], dy, Seq::empty());
    assert(seq![' '] + dy + Seq::<char>::empty() == seq![' '] + dy);
    lemma_parse_decimal(x);
    lemma_parse_decimal(y);
}

/// White space around a reply does not change what it reads as.
pub proof fn law_cursor_pos_padding(w1: Seq<char>, reply: Seq<char>, w2: Seq<char>)
    requires
        all_white_space(w1),
        all_white_space(w2),
    ensures
        cursor_pos(w1 + reply + w2) == cursor_pos(reply),
{
    lemma_trim_padding(w1, reply, w2);
}


// ---------------------------------------------------------------------------
// Locating the IPC socket
// ---------------------------------------------------------------------------

/// The instance signature that names the socket directory: the value of
/// `HYPRLAND_INSTANCE_SIGNATURE` unless it is unset or blank.
pub open spec fn signature_of(raw: Option<Seq<char>>) -> Option<Seq<char>> {
    match raw {
        Some(s) => if is_blank(s) {
            None
        } else {
            Some(s)
        },
        None => None,
    }
}

/// The base directories (as path bytes) that may hold
/// `<signature>/.socket.sock`: `$XDG_RUNTIME_DIR/hypr` when that variable is
/// set and not blank, then `/tmp/hypr`.
pub open spec fn socket_bases_of(runtime_dir: Option<Seq<char>>) -> Seq<Seq<u8>> {
    match runtime_dir {
        Some(r) => if is_blank(r) {
            seq![encode_utf8("/tmp/hypr"@)]
        } else {
            seq![path_join(encode_utf8(r), encode_utf8("hypr"@)), encode_utf8("/tmp/hypr"@)]
        },
        None => seq![encode_utf8("/tmp/hypr"@)],
    }
}

/// The socket of the instance named `signature` under `base`.
pub open spec fn named_socket(base: Seq<u8>, signature: Seq<char>) -> Seq<u8> {
    path_join(path_join(base, encode_utf8(signature)), encode_utf8(".socket.sock"@))
}

/// The socket inside the directory entry `name` of `base`.
pub open spec fn entry_socket(base: Seq<u8>, name: Seq<u8>) -> Seq<u8> {
    path_join(path_join(base, name), encode_utf8(".socket.sock"@))
}

/// The message when no socket is found.
pub open spec fn socket_not_found_text(signature: Option<Seq<char>>) -> Seq<char> {
    let detail = match signature {
        Some(sig) => "HYPRLAND_INSTANCE_SIGNATURE="@ + str_debug(sig),
        None => "HYPRLAND_INSTANCE_SIGNATURE is not set"@,
    };
    "Hyprland IPC socket not found ("@ + detail
        + "); is Hyprland running and is $XDG_RUNTIME_DIR available?"@
}

pub open spec fn opt_str_view(o: Option<String>) -> Option<Seq<char>> {
    match o {
        Some(s) => Some(s@),
        None => None,
    }
}

/// The instance signature (`HYPRLAND_INSTANCE_SIGNATURE` unless blank).
pub fn instance_signature(raw: Option<String>) -> (res: Option<String>)
    ensures
        opt_str_view(res) == signature_of(opt_str_view(raw)),
{
    match raw {
        Some(s) => {
            if trim_chars(&chars_of(s.as_str())).len() == 0 {
                None
            } else {
                Some(s)
            }
        },
        None => None,
    }
}

/// Base directories that may contain `hypr/<signature>/.socket.sock`.
pub fn socket_bases(runtime_dir: Option<String>) -> (res: Vec<Vec<u8>>)
    ensures
        res@.map_values(|b: Vec<u8>| b@) == socket_bases_of(opt_str_view(runtime_dir)),
{
    let mut bases: Vec<Vec<u8>> = Vec::new();
    if let Some(runtime) = &runtime_dir {
        if trim_chars(&chars_of(runtime.as_str())).len() != 0 {
            let joined = path_join_bytes(&runtime.as_str().as_bytes_vec(), &"hypr".as_bytes_vec());
            bases.push(joined);
        }
    }
    bases.push("/tmp/hypr".as_bytes_vec());
    assert(bases@.map_values(|b: Vec<u8>| b@) == socket_bases_of(opt_str_view(runtime_dir)));
    bases
}

/// `base/<name>/.socket.sock`, over path bytes.
pub fn socket_in(base: &Vec<u8>, name: &Vec<u8>) -> (res: Vec<u8>)
    ensures
        res@ == path_join(path_join(base@, name@), encode_utf8(".socket.sock"@)),
{
    let dir = path_join_bytes(base, name);
    path_join_bytes(&dir, &".socket.sock".as_bytes_vec())
}

/// The error when no socket is found.
pub fn socket_not_found(signature: &Option<String>) -> (res: Error)
    ensures
        res matches Error::Connection(m) && m@ == socket_not_found_text(opt_str_view(*signature)),
{
    let detail = match signature {
        Some(sig) => String::from_str("HYPRLAND_INSTANCE_SIGNATURE=").concat(
            debug_quoted(sig.as_str()).as_str(),
        ),
        None => String::from_str("HYPRLAND_INSTANCE_SIGNATURE is not set"),
    };
    Error::Connection(
        String::from_str("Hyprland IPC socket not found (").concat(detail.as_str()).concat(
            "); is Hyprland running and is $XDG_RUNTIME_DIR available?",
        ),
    )
}

/// Where the socket search stands.
pub enum SearchStage {
    /// Checking `bases[i]/<signature>/.socket.sock`.
    Named(usize),
    /// Waiting for the entries of `bases[i]`.
    Listing(usize),
    /// Checking `bases[b]/<names[k]>/.socket.sock`.
    Entries(usize, Vec<Vec<u8>>, usize),
    /// This socket exists.
    Found(Vec<u8>),
    /// Nothing was found.
    NotFound,
}

/// The socket search: first the named instance under each base, in order;
/// then, under each base in order, every entry of the directory. Paths are
/// handled as their bytes, so entry names need not be valid Unicode.
pub struct SocketSearch {
    pub signature: Option<String>,
    pub bases: Vec<Vec<u8>>,
    pub stage: SearchStage,
}

/// What the search asks of the file system, or its answer.
pub enum SearchAction {
    /// Does this path exist?
    CheckExists(Vec<u8>),
    /// What are the entry names of this directory (`None`: it cannot be read)?
    ListDir(Vec<u8>),
    /// The socket.
    Found(Vec<u8>),
    /// No socket; the error to report.
    NotFound(Error),
}

impl SocketSearch {
    pub open spec fn wf(self) -> bool {
        &&& self.bases.len() > 0
        &&& match self.stage {
            SearchStage::Named(i) => self.signature is Some && i < self.bases.len(),
            SearchStage::Listing(i) => i < self.bases.len(),
            SearchStage::Entries(b, names, k) => b < self.bases.len() && k < names.len(),
            _ => true,
        }
    }

    /// The stage after `bases[b]` is done with: the next base's listing, or
    /// the end.
    pub open spec fn after_base(self, b: int) -> SearchStage {
        if b + 1 < self.bases.len() {
            SearchStage::Listing((b + 1) as usize)
        } else {
            SearchStage::NotFound
        }
    }

    /// The action that the search asks for in its current stage.
    pub open spec fn asks(self, a: SearchAction) -> bool {
        match self.stage {
            SearchStage::Named(i) => a matches SearchAction::CheckExists(p) && p@ == named_socket(
                self.bases@[i as int]@,
                self.signature->0@,
            ),
            SearchStage::Listing(i) => a matches SearchAction::ListDir(d) && d@
                == self.bases@[i as int]@,
            SearchStage::Entries(b, names, k) => a matches SearchAction::CheckExists(p) && p@
                == entry_socket(self.bases@[b as int]@, names@[k as int]@),
            SearchStage::Found(f) => a matches SearchAction::Found(p) && p@ == f@,
            SearchStage::NotFound => a matches SearchAction::NotFound(Error::Connection(m)) && m@
                == socket_not_found_text(opt_str_view(self.signature)),
        }
    }

    /// The stage after a failed existence check.
    pub open spec fn after_missing(self) -> SearchStage {
        match self.stage {
            SearchStage::Named(i) => if i + 1 < self.bases.len() {
                SearchStage::Named((i + 1) as usize)
            } else {
                SearchStage::Listing(0)
            },
            SearchStage::Entries(b, names, k) => if k + 1 < names.len() {
                SearchStage::Entries(b, names, (k + 1) as usize)
            } else {
                self.after_base(b as int)
            },
            _ => self.stage,
        }
    }

    /// The stage after a directory listing.
    pub open spec fn after_listing(self, names: Option<Vec<Vec<u8>>>) -> SearchStage {
        match (self.stage, names) {
            (SearchStage::Listing(b), Some(v)) => if v.len() > 0 {
                SearchStage::Entries(b, v, 0)
            } else {
                self.after_base(b as int)
            },
            (SearchStage::Listing(b), None) => self.after_base(b as int),
            _ => self.stage,
        }
    }

    /// The action of the current stage.
    pub fn action(&self) -> (a: SearchAction)
        requires
            self.wf(),
        ensures
            self.asks(a),
    {
        match &self.stage {
            SearchStage::Named(i) => {
                let sig = match &self.signature {
                    Some(sig) => sig,
                    None => {
                        assert(false);
                        return SearchAction::NotFound(socket_not_found(&self.signature));
                    },
                };
                SearchAction::CheckExists(socket_in(&self.bases[*i], &sig.as_str().as_bytes_vec()))
            },
            SearchStage::Listing(i) => SearchAction::ListDir(self.bases[*i].clone()),
            SearchStage::Entries(b, names, k) => SearchAction::CheckExists(
                socket_in(&self.bases[*b], &names[*k]),
            ),
            SearchStage::Found(f) => SearchAction::Found(f.clone()),
            SearchStage::NotFound => SearchAction::NotFound(socket_not_found(&self.signature)),
        }
    }

    /// Starts the search from the raw `HYPRLAND_INSTANCE_SIGNATURE` and
    /// `XDG_RUNTIME_DIR` values: the named instance first when there is a
    /// signature, the directory scan otherwise.
    pub fn start(signature_raw: Option<String>, runtime_dir: Option<String>) -> (res: (
        SocketSearch,
        SearchAction,
    ))
        ensures
            res.0.wf(),
            res.0.asks(res.1),
            opt_str_view(res.0.signature) == signature_of(opt_str_view(signature_raw)),
            res.0.bases@.map_values(|b: Vec<u8>| b@) == socket_bases_of(opt_str_view(runtime_dir)),
            res.0.stage == (if res.0.signature is Some {
                SearchStage::Named(0)
            } else {
                SearchStage::Listing(0)
            }),
    {
        let signature = instance_signature(signature_raw);
        let bases = socket_bases(runtime_dir);
        assert(bases@.map_values(|b: Vec<u8>| b@).len() > 0);
        let stage = if signature.is_some() {
            SearchStage::Named(0)
        } else {
            SearchStage::Listing(0)
        };
        let search = SocketSearch { signature, bases, stage };
        let a = search.action();
        (search, a)
    }

    /// Takes the answer to a `CheckExists`: an existing socket ends the
    /// search; otherwise the next candidate in order is asked for.
    pub fn on_exists(&mut self, exists: bool) -> (a: SearchAction)
        requires
            old(self).wf(),
            old(self).stage matches SearchStage::Named(_) || old(self).stage matches SearchStage::Entries(..),
        ensures
            final(self).wf(),
            final(self).asks(a),
            final(self).signature == old(self).signature,
            final(self).bases == old(self).bases,
            exists ==> (final(self).stage matches SearchStage::Found(f) && old(self).asks(
                SearchAction::CheckExists(f),
            )),
            !exists ==> final(self).stage == old(self).after_missing(),
    {
        if exists {
            let a = self.action();
            match a {
                SearchAction::CheckExists(p) => {
                    self.stage = SearchStage::Found(p);
                },
                _ => {
                    assert(false);
                },
            }
        } else {
            let n = self.bases.len();
            let mut current = SearchStage::NotFound;
            std::mem::swap(&mut current, &mut self.stage);
            let next = match current {
                SearchStage::Named(i) => if i + 1 < n {
                    SearchStage::Named(i + 1)
                } else {
                    SearchStage::Listing(0)
                },
                SearchStage::Entries(b, names, k) => if k + 1 < names.len() {
                    SearchStage::Entries(b, names, k + 1)
                } else if b + 1 < n {
                    SearchStage::Listing(b + 1)
                } else {
                    SearchStage::NotFound
                },
                _ => {
                    assert(false);
                    SearchStage::NotFound
                },
            };
            self.stage = next;
        }
        self.action()
    }

    /// Takes the answer to a `ListDir`: the entries of the directory are
    /// checked in the order given; an unreadable or empty directory passes
    /// on to the next base, and after the last base nothing was found.
    pub fn on_listing(&mut self, names: Option<Vec<Vec<u8>>>) -> (a: SearchAction)
        requires
            old(self).wf(),
            old(self).stage matches SearchStage::Listing(_),
        ensures
            final(self).wf(),
            final(self).asks(a),
            final(self).signature == old(self).signature,
            final(self).bases == old(self).bases,
            final(self).stage == old(self).after_listing(names),
    {
        let n = self.bases.len();
        let b = match &self.stage {
            SearchStage::Listing(b) => *b,
            _ => {
                assert(false);
                0
            },
        };
        let next = match names {
            Some(v) => if v.len() > 0 {
                SearchStage::Entries(b, v, 0)
            } else if b + 1 < n {
                SearchStage::Listing(b + 1)
            } else {
                SearchStage::NotFound
            },
            None => if b + 1 < n {
                SearchStage::Listing(b + 1)
            } else {
                SearchStage::NotFound
            },
        };
        self.stage = next;
        self.action()
    }
}

// ---------------------------------------------------------------------------
// The query over the socket
// ---------------------------------------------------------------------------

/// The most bytes that one read asks for.
pub const READ_CHUNK: usize = 128;

/// Read and write timeout on the socket, in seconds.
pub const SOCKET_TIMEOUT_SECS: u64 = 2;

/// The reply `bytes` as a position: decoded (invalid UTF-8 replaced) and
/// parsed as `"<x>, <y>"`, or the error that quotes the reply.
pub open spec fn reply_result_ok(bytes: Seq<u8>, res: Result<Point, Error>) -> bool {
    let r = utf8_lossy(bytes);
    match cursor_pos(r) {
        Some((x, y)) => res == Ok::<Point, Error>(Point { x, y }),
        None => res matches Err(Error::Query(m)) && m@
            == "Hyprland cursorpos returned an unparseable reply: "@ + str_debug(r),
    }
}

/// Interprets the bytes of a `cursorpos` reply.
pub fn interpret_reply(bytes: &Vec<u8>) -> (res: Result<Point, Error>)
    ensures
        reply_result_ok(bytes@, res),
{
    let reply = from_utf8_lossy(bytes.as_slice());
    match parse_cursor_pos(reply.as_str()) {
        Some((x, y)) => Ok(Point { x, y }),
        None => Err(
            Error::Query(
                String::from_str("Hyprland cursorpos returned an unparseable reply: ").concat(
                    debug_quoted(reply.as_str()).as_str(),
                ),
            ),
        ),
    }
}

/// What one read from the socket gave.
pub enum ReadEvent {
    /// These bytes (none: end of file).
    Bytes(Vec<u8>),
    /// The read was interrupted before anything arrived.
    Interrupted,
    /// The read failed (a timeout among others); the text describes it.
    Failed(String),
}

/// What follows a read.
pub enum ReadOutcome {
    /// Read again.
    More,
    /// The reply is complete.
    Complete,
    /// The query failed.
    Failed(Error),
}

/// Adds what one read gave to the reply. The reply ends at end of file; an
/// interrupted read is retried; a failed read (a timeout among others) still
/// leaves a usable reply when something has arrived before it.
pub fn read_step(reply: &mut Vec<u8>, event: ReadEvent) -> (out: ReadOutcome)
    ensures
        match event {
            ReadEvent::Bytes(b) => final(reply)@ == old(reply)@ + b@ && (if b.len() == 0 {
                out is Complete
            } else {
                out is More
            }),
            ReadEvent::Interrupted => final(reply)@ == old(reply)@ && out is More,
            ReadEvent::Failed(d) => final(reply)@ == old(reply)@ && if old(reply).len() > 0 {
                out is Complete
            } else {
                out matches ReadOutcome::Failed(Error::Query(m)) && m@ == "Hyprland IPC read: "@
                    + d@
            },
        },
{
    match event {
        ReadEvent::Bytes(b) => {
            if b.len() == 0 {
                assert(old(reply)@ + b@ == old(reply)@);
                return ReadOutcome::Complete;
            }
            let mut i: usize = 0;
            while i < b.len()
                invariant
                    i <= b.len(),
                    reply@ == old(reply)@ + b@.take(i as int),
                decreases b.len() - i,
            {
                reply.push(b[i]);
                i = i + 1;
            }
            assert(b@.take(i as int) == b@);
            ReadOutcome::More
        },
        ReadEvent::Interrupted => ReadOutcome::More,
        ReadEvent::Failed(d) => {
            if reply.len() > 0 {
                ReadOutcome::Complete
            } else {
                ReadOutcome::Failed(
                    Error::Query(String::from_str("Hyprland IPC read: ").concat(d.as_str())),
                )
            }
        },
    }
}

/// Where the query stands.
pub enum HyprPhase {
    /// Looking for the socket.
    Search(SocketSearch),
    /// Connecting to this socket.
    Connect(Vec<u8>),
    /// Sending the request over the connection to this socket.
    Send(Vec<u8>),
    /// Reading the reply.
    Read,
    /// The answer has been given.
    Done,
}

/// The `cursorpos` query: locate the socket, connect, send, read, parse.
pub struct HyprlandQuery {
    pub phase: HyprPhase,
    pub reply: Vec<u8>,
}

/// Why sending the request failed.
pub enum SendFailure {
    /// Setting the read timeout failed.
    ReadTimeout(String),
    /// Setting the write timeout failed.
    WriteTimeout(String),
    /// Writing the request failed.
    Write(String),
}

/// What the outside world did.
pub enum HyprEvent {
    /// Whether the path of a `CheckExists` exists.
    Exists(bool),
    /// The entry names of the directory of a `ListDir` (`None`: unreadable).
    Listing(Option<Vec<Vec<u8>>>),
    /// The connection was made (`None`), or failed for the reason given.
    Connected(Option<String>),
    /// The request was sent (`None`), or failed.
    Sent(Option<SendFailure>),
    /// A read returned.
    Read(ReadEvent),
}

/// What to do next.
pub enum HyprAction {
    /// Report whether the path with these bytes exists.
    CheckExists(Vec<u8>),
    /// Report the entry names of the directory with these path bytes.
    ListDir(Vec<u8>),
    /// Connect a Unix stream to the socket with these path bytes.
    Connect(Vec<u8>),
    /// Set the read and write timeouts, write the request, then shut the
    /// writing half down (that last step may fail unnoticed).
    Send { request: Vec<u8>, timeout_secs: u64 },
    /// Read at most `room` bytes.
    Read { room: usize },
    /// The answer.
    Finished(Result<Point, Error>),
}

/// The bytes of the `cursorpos` request.
pub open spec fn request_bytes() -> Seq<u8> {
    encode_utf8("cursorpos"@)
}

/// The search action, as the query passes it on.
pub open spec fn search_to_query(a: SearchAction, h: HyprAction) -> bool {
    match a {
        SearchAction::CheckExists(p) => h matches HyprAction::CheckExists(q) && q@ == p@,
        SearchAction::ListDir(d) => h matches HyprAction::ListDir(q) && q@ == d@,
        SearchAction::Found(p) => h matches HyprAction::Connect(q) && q@ == p@,
        SearchAction::NotFound(e) => h == HyprAction::Finished(Err(e)),
    }
}

/// The query's phase after a search step that produced `a`: still searching
/// with `s2`, connecting to the found socket, or done.
pub open spec fn phase_after_search(s2: SocketSearch, a: SearchAction, phase: HyprPhase) -> bool {
    match a {
        SearchAction::Found(p) => phase matches HyprPhase::Connect(c) && c@ == p@,
        SearchAction::NotFound(_) => phase is Done,
        _ => phase == HyprPhase::Search(s2),
    }
}

/// The error for a failed send.
pub open spec fn send_failure_ok(f: SendFailure, e: Error) -> bool {
    match f {
        SendFailure::ReadTimeout(d) => e matches Error::Query(m) && m@ == "set_read_timeout: "@
            + d@,
        SendFailure::WriteTimeout(d) => e matches Error::Query(m) && m@
            == "set_write_timeout: "@ + d@,
        SendFailure::Write(d) => e matches Error::Query(m) && m@ == "Hyprland IPC write: "@ + d@,
    }
}

impl HyprlandQuery {
    pub open spec fn wf(self) -> bool {
        match self.phase {
            HyprPhase::Search(s) => s.wf() && (s.stage matches SearchStage::Named(_)
                || s.stage matches SearchStage::Listing(_) || s.stage matches SearchStage::Entries(
                ..,
            )),
            _ => true,
        }
    }

    /// The query's phase is the one that waits for the answer to `a`.
    pub open spec fn awaits(self, a: HyprAction) -> bool {
        match a {
            HyprAction::CheckExists(_) => self.phase matches HyprPhase::Search(s) && (
            s.stage matches SearchStage::Named(_) || s.stage matches SearchStage::Entries(..)),
            HyprAction::ListDir(_) => self.phase matches HyprPhase::Search(s)
                && s.stage matches SearchStage::Listing(_),
            HyprAction::Connect(p) => self.phase matches HyprPhase::Connect(c) && c@ == p@,
            HyprAction::Send { .. } => self.phase is Send,
            HyprAction::Read { room } => self.phase is Read && room == READ_CHUNK,
            HyprAction::Finished(_) => self.phase is Done,
        }
    }

    /// `event` answers the action that the query asked for last.
    pub open spec fn expects(self, event: HyprEvent) -> bool {
        match self.phase {
            HyprPhase::Search(s) => match s.stage {
                SearchStage::Listing(_) => event is Listing,
                _ => event is Exists,
            },
            HyprPhase::Connect(_) => event is Connected,
            HyprPhase::Send(_) => event is Sent,
            HyprPhase::Read => event matches HyprEvent::Read(r) && (r matches ReadEvent::Bytes(b)
                ==> b.len() <= READ_CHUNK),
            HyprPhase::Done => false,
        }
    }

    /// Starts the query from the raw `HYPRLAND_INSTANCE_SIGNATURE` and
    /// `XDG_RUNTIME_DIR` values.
    pub fn start(signature_raw: Option<String>, runtime_dir: Option<String>) -> (res: (
        HyprlandQuery,
        HyprAction,
    ))
        ensures
            res.0.wf(),
            res.0.awaits(res.1),
            res.0.reply@.len() == 0,
            res.0.phase matches HyprPhase::Search(s) && s.stage == (if s.signature is Some {
                SearchStage::Named(0)
            } else {
                SearchStage::Listing(0)
            }) && opt_str_view(s.signature) == signature_of(opt_str_view(signature_raw))
                && s.bases@.map_values(|b: Vec<u8>| b@) == socket_bases_of(
                opt_str_view(runtime_dir),
            ) && exists|a: SearchAction| s.asks(a) && search_to_query(a, res.1),
            res.1 is CheckExists || res.1 is ListDir,
    {
        let (search, a) = SocketSearch::start(signature_raw, runtime_dir);
        let action = match a {
            SearchAction::CheckExists(p) => HyprAction::CheckExists(p),
            SearchAction::ListDir(d) => HyprAction::ListDir(d),
            _ => {
                assert(false);
                HyprAction::Finished(Err(Error::Query(String::from_str("Hyprland IPC: no step"))))
            },
        };
        (HyprlandQuery { phase: HyprPhase::Search(search), reply: Vec::new() }, action)
    }
}

/// The answer for an event that does not fit the phase (never given to a
/// caller that keeps the protocol).
fn out_of_step() -> (res: HyprAction)
    ensures
        res is Finished,
{
    HyprAction::Finished(Err(Error::Query(String::from_str("Hyprland IPC: event out of step"))))
}

/// One step of the query: `new` and `action` after `event` in `old`.
pub open spec fn hypr_step_ok(
    old: HyprlandQuery,
    event: HyprEvent,
    new: HyprlandQuery,
    action: HyprAction,
) -> bool {
    match (old.phase, event) {
        (HyprPhase::Search(s), HyprEvent::Exists(e)) => exists|s2: SocketSearch, a: SearchAction|
            {
                &&& s2.wf()
                &&& s2.signature == s.signature
                &&& s2.bases == s.bases
                &&& s2.asks(a)
                &&& search_to_query(a, action)
                &&& phase_after_search(s2, a, new.phase)
                &&& new.reply == old.reply
                &&& (e ==> (s2.stage matches SearchStage::Found(f) && s.asks(
                    SearchAction::CheckExists(f),
                )))
                &&& (!e ==> s2.stage == s.after_missing())
            },
        (HyprPhase::Search(s), HyprEvent::Listing(names)) => exists|
            s2: SocketSearch,
            a: SearchAction,
        |
            {
                &&& s2.wf()
                &&& s2.signature == s.signature
                &&& s2.bases == s.bases
                &&& s2.asks(a)
                &&& search_to_query(a, action)
                &&& phase_after_search(s2, a, new.phase)
                &&& new.reply == old.reply
                &&& s2.stage == s.after_listing(names)
            },
        (HyprPhase::Connect(p), HyprEvent::Connected(None)) => {
            &&& action == HyprAction::Send {
                request: action->request,
                timeout_secs: SOCKET_TIMEOUT_SECS,
            }
            &&& action->request@ == request_bytes()
            &&& new.phase == HyprPhase::Send(p)
            &&& new.reply@.len() == 0
        },
        (HyprPhase::Connect(p), HyprEvent::Connected(Some(d))) => {
            &&& new.phase is Done
            &&& action matches HyprAction::Finished(Err(Error::Connection(m))) && m@
                == "Hyprland IPC connect "@ + utf8_lossy(p@) + ": "@ + d@
        },
        (HyprPhase::Send(_), HyprEvent::Sent(None)) => {
            &&& action == HyprAction::Read { room: READ_CHUNK }
            &&& new.phase is Read
            &&& new.reply@.len() == 0
        },
        (HyprPhase::Send(_), HyprEvent::Sent(Some(f))) => {
            &&& new.phase is Done
            &&& action matches HyprAction::Finished(Err(e)) && send_failure_ok(f, e)
        },
        (HyprPhase::Read, HyprEvent::Read(r)) => match r {
            ReadEvent::Bytes(b) => {
                &&& new.reply@ == old.reply@ + b@
                &&& if b.len() == 0 {
                    &&& new.phase is Done
                    &&& action matches HyprAction::Finished(res) && reply_result_ok(
                        new.reply@,
                        res,
                    )
                } else {
                    &&& new.phase is Read
                    &&& action == HyprAction::Read { room: READ_CHUNK }
                }
            },
            ReadEvent::Interrupted => {
                &&& new.reply@ == old.reply@
                &&& new.phase is Read
                &&& action == HyprAction::Read { room: READ_CHUNK }
            },
            ReadEvent::Failed(d) => {
                &&& new.reply@ == old.reply@
                &&& new.phase is Done
                &&& if old.reply.len() > 0 {
                    action matches HyprAction::Finished(res) && reply_result_ok(
                        old.reply@,
                        res,
                    )
                } else {
                    action matches HyprAction::Finished(Err(Error::Query(m))) && m@
                        == "Hyprland IPC read: "@ + d@
                }
            },
        },
        _ => false,
    }
}

/// The decisions of the Hyprland backend: given what the outside world did,
/// the next thing to do. The socket is searched for in the documented order;
/// the first existing one is connected to, sent `cursorpos` (with
/// `SOCKET_TIMEOUT_SECS` timeouts) and read, `READ_CHUNK` bytes at a time,
/// until end of file; the reply is parsed as `"<x>, <y>"`.
pub fn get_position_blocking(q: &mut HyprlandQuery, event: HyprEvent) -> (action: HyprAction)
    requires
        old(q).wf(),
        old(q).expects(event),
    ensures
        final(q).wf(),
        final(q).awaits(action),
        hypr_step_ok(*old(q), event, *final(q), action),
{
    let mut phase = HyprPhase::Done;
    std::mem::swap(&mut phase, &mut q.phase);
    match phase {
        HyprPhase::Search(mut s) => {
            let a = match event {
                HyprEvent::Exists(e) => s.on_exists(e),
                HyprEvent::Listing(names) => s.on_listing(names),
                _ => {
                    assert(false);
                    return out_of_step();
                },
            };
            match a {
                SearchAction::CheckExists(p) => {
                    q.phase = HyprPhase::Search(s);
                    HyprAction::CheckExists(p)
                },
                SearchAction::ListDir(d) => {
                    q.phase = HyprPhase::Search(s);
                    HyprAction::ListDir(d)
                },
                SearchAction::Found(p) => {
                    q.phase = HyprPhase::Connect(p.clone());
                    HyprAction::Connect(p)
                },
                SearchAction::NotFound(e) => HyprAction::Finished(Err(e)),
            }
        },
        HyprPhase::Connect(p) => match event {
            HyprEvent::Connected(None) => {
                q.reply = Vec::new();
                q.phase = HyprPhase::Send(p);
                HyprAction::Send {
                    request: "cursorpos".as_bytes_vec(),
                    timeout_secs: SOCKET_TIMEOUT_SECS,
                }
            },
            HyprEvent::Connected(Some(d)) => {
                let shown = from_utf8_lossy(p.as_slice());
                HyprAction::Finished(
                    Err(
                        Error::Connection(
                            String::from_str("Hyprland IPC connect ").concat(
                                shown.as_str(),
                            ).concat(": ").concat(d.as_str()),
                        ),
                    ),
                )
            },
            _ => {
                assert(false);
                out_of_step()
            },
        },
        HyprPhase::Send(_) => match event {
            HyprEvent::Sent(None) => {
                q.reply = Vec::new();
                q.phase = HyprPhase::Read;
                HyprAction::Read { room: READ_CHUNK }
            },
            HyprEvent::Sent(Some(f)) => {
                let e = match f {
                    SendFailure::ReadTimeout(d) => Error::Query(
                        String::from_str("set_read_timeout: ").concat(d.as_str()),
                    ),
                    SendFailure::WriteTimeout(d) => Error::Query(
                        String::from_str("set_write_timeout: ").concat(d.as_str()),
                    ),
                    SendFailure::Write(d) => Error::Query(
                        String::from_str("Hyprland IPC write: ").concat(d.as_str()),
                    ),
                };
                HyprAction::Finished(Err(e))
            },
            _ => {
                assert(false);
                out_of_step()
            },
        },
        HyprPhase::Read => match event {
            HyprEvent::Read(r) => {
                let out = read_step(&mut q.reply, r);
                match out {
                    ReadOutcome::More => {
                        q.phase = HyprPhase::Read;
                        HyprAction::Read { room: READ_CHUNK }
                    },
                    ReadOutcome::Complete => HyprAction::Finished(interpret_reply(&q.reply)),
                    ReadOutcome::Failed(e) => HyprAction::Finished(Err(e)),
                }
            },
            _ => {
                assert(false);
                out_of_step()
            },
        },
        HyprPhase::Done => {
            assert(false);
            out_of_step()
        },
    }
}


/// A reply whose text reads as `(x, y)` is answered with exactly that point:
/// the coordinates are passed through unchanged, whatever their size or sign
/// (a cursor on a second monitor lies beyond the first one's width).
pub proof fn law_reply_passes_coordinates_through(bytes: Seq<u8>, x: i32, y: i32, res: Result<Point, Error>)
    requires
        cursor_pos(utf8_lossy(bytes)) == Some((x, y)),
        reply_result_ok(bytes, res),
    ensures
        res matches Ok(p) && p.x == x && p.y == y,
{
}

/// The reply that Hyprland writes for a cursor at `(x, y)`, `"<x>, <y>"`, is
/// answered with the point `(x, y)`, for every pair of `i32`.
pub proof fn law_rendered_reply_answers_point(bytes: Seq<u8>, x: i32, y: i32, res: Result<Point, Error>)
    requires
        utf8_lossy(bytes) == decimal(x as int) + seq![',', ' '] + decimal(y as int),
        reply_result_ok(bytes, res),
    ensures
        res == Ok::<Point, Error>(Point { x, y }),
{
    law_cursor_pos_round_trip(x, y);
}

/// The last read of a query ends it with the point that the whole reply
/// reads as.
pub proof fn law_query_answers_reply_point(
    reply: Seq<u8>,
    x: i32,
    y: i32,
    action: HyprAction,
)
    requires
        cursor_pos(utf8_lossy(reply)) == Some((x, y)),
        action matches HyprAction::Finished(res) && reply_result_ok(reply, res),
    ensures
        action == HyprAction::Finished(Ok(Point { x, y })),
{
}


/// End of file after a reply that reads as `(x, y)` answers that point.
pub proof fn law_end_of_file_answers_point(
    old: HyprlandQuery,
    eof: Vec<u8>,
    new: HyprlandQuery,
    a: HyprAction,
    x: i32,
    y: i32,
)
    requires
        old.phase is Read,
        eof@.len() == 0,
        cursor_pos(utf8_lossy(old.reply@)) == Some((x, y)),
        hypr_step_ok(old, HyprEvent::Read(ReadEvent::Bytes(eof)), new, a),
    ensures
        a == HyprAction::Finished(Ok(Point { x, y })),
        new.phase is Done,
{
    assert(new.reply@ == old.reply@);
}

/// A read that fails (a timeout among others) after some of the reply has
/// arrived answers what that part reads as.
pub proof fn law_failed_read_keeps_reply(
    old: HyprlandQuery,
    d: String,
    new: HyprlandQuery,
    a: HyprAction,
    x: i32,
    y: i32,
)
    requires
        old.phase is Read,
        old.reply@.len() > 0,
        cursor_pos(utf8_lossy(old.reply@)) == Some((x, y)),
        hypr_step_ok(old, HyprEvent::Read(ReadEvent::Failed(d)), new, a),
    ensures
        a == HyprAction::Finished(Ok(Point { x, y })),
{
}

/// The reply is read to its end: bytes that arrive are kept, whatever the
/// length so far, and the query asks for more.
pub proof fn law_bytes_keep_reading(old: HyprlandQuery, b: Vec<u8>, new: HyprlandQuery, a: HyprAction)
    requires
        old.phase is Read,
        b@.len() > 0,
        hypr_step_ok(old, HyprEvent::Read(ReadEvent::Bytes(b)), new, a),
    ensures
        new.phase is Read,
        new.reply@ == old.reply@ + b@,
        new.reply@.len() > old.reply@.len(),
        a is Read,
{
}

/// The runtime directory's `hypr` comes first, and `/tmp/hypr` is always the
/// last base.
pub proof fn law_bases_order(runtime_dir: Option<Seq<char>>)
    ensures
        socket_bases_of(runtime_dir).last() == encode_utf8("/tmp/hypr"@),
        (runtime_dir matches Some(r) && !is_blank(r)) ==> (socket_bases_of(runtime_dir).len() == 2
            && socket_bases_of(runtime_dir)[0] == path_join(
            encode_utf8(runtime_dir->0),
            encode_utf8("hypr"@),
        )),
        !(runtime_dir matches Some(r) && !is_blank(r)) ==> socket_bases_of(runtime_dir).len() == 1,
{
}

/// The search checks the named instance under every base before it lists
/// any directory, and gives up only once the last base is done with.
pub proof fn law_search_order(s: SocketSearch, names: Option<Vec<Vec<u8>>>)
    requires
        s.wf(),
    ensures
        s.stage matches SearchStage::Named(i) ==> ((i + 1 < s.bases.len()
            && s.after_missing() == SearchStage::Named((i + 1) as usize)) || (i + 1
            == s.bases.len() && s.after_missing() == SearchStage::Listing(0))),
        (s.stage is Listing || s.stage is Entries) ==> (s.after_missing() is NotFound
            || s.after_listing(names) is NotFound ==> match s.stage {
            SearchStage::Listing(b) => b + 1 == s.bases.len(),
            SearchStage::Entries(b, _, _) => b + 1 == s.bases.len(),
            _ => false,
        }),
{
}

} // verus!
