//! The native protocol: what frames carry, which requests wait, and how errors are told.

use vstd::prelude::*;

use crate::json::{bool_text, show_bool};
use crate::text::{
    begins, cat, chars_of, dec, number, read_u64, read_usize, show, split, split_on, starts_with,
    trim, trimmed, views,
};

verus! {

/// How a character is written in a payload.
pub open spec fn payload_char(c: char) -> Seq<char> {
    if c == '\\' {
        seq!['\\', '\\']
    } else if c == '\t' {
        seq!['\\', 't']
    } else if c == '\n' {
        seq!['\\', 'n']
    } else if c == '\r' {
        seq!['\\', 'r']
    } else if c == '\u{1e}' {
        seq!['\\', 'x', '1', 'e']
    } else {
        seq![c]
    }
}

/// A text as a payload holds it.
pub open spec fn payload_text(s: Seq<char>) -> Seq<char>
    decreases s.len(),
{
    if s.len() == 0 {
        s
    } else {
        payload_char(s[0]) + payload_text(s.skip(1))
    }
}

fn push_payload_char(out: &mut Vec<char>, c: char)
    ensures
        final(out)@ == old(out)@ + payload_char(c),
{
    let ghost before = out@;
    if c == '\\' {
        out.push('\\');
        out.push('\\');
    } else if c == '\t' {
        out.push('\\');
        out.push('t');
    } else if c == '\n' {
        out.push('\\');
        out.push('n');
    } else if c == '\r' {
        out.push('\\');
        out.push('r');
    } else if c == '\u{1e}' {
        out.push('\\');
        out.push('x');
        out.push('1');
        out.push('e');
    } else {
        out.push(c);
    }
    assert(out@ =~= before + payload_char(c));
}

/// Writes a text so that it fits into a field of a payload.
pub fn escape_payload(value: &str) -> (r: String)
    ensures
        r@ == payload_text(value@),
{
    let chars = chars_of(value);
    let mut out: Vec<char> = Vec::new();
    let mut i: usize = 0;
    assert(chars@.skip(0) =~= chars@);
    assert(out@ + payload_text(chars@) =~= payload_text(chars@));
    while i < chars.len()
        invariant
            0 <= i <= chars@.len(),
            out@ + payload_text(chars@.skip(i as int)) == payload_text(chars@),
        decreases chars@.len() - i,
    {
        let ghost rest = chars@.skip(i as int);
        let ghost was = out@;
        assert(rest[0] == chars@[i as int]);
        assert(rest.skip(1) =~= chars@.skip(i + 1));
        push_payload_char(&mut out, chars[i]);
        assert(out@ + payload_text(rest.skip(1)) =~= was + (payload_char(rest[0]) + payload_text(
            rest.skip(1),
        )));
        i = i + 1;
    }
    assert(chars@.skip(i as int) =~= Seq::<char>::empty());
    assert(out@ =~= payload_text(chars@));
    crate::text::string_of(out.as_slice(), 0, out.len())
}

/// What a field of a payload may not hold.
pub open spec fn separates(c: char) -> bool {
    c == '\t' || c == '\n' || c == '\r' || c == '\u{1e}'
}

/// An escaped text holds none of the characters that separate fields, rows and lines.
pub proof fn escaped_payloads_separate_nothing(s: Seq<char>)
    ensures
        forall|i: int| 0 <= i < payload_text(s).len() ==> !separates(#[trigger] payload_text(s)[i]),
    decreases s.len(),
{
    if s.len() > 0 {
        let rest = s.skip(1);
        escaped_payloads_separate_nothing(rest);
        let head = payload_char(s[0]);
        let all = payload_text(s);
        assert forall|i: int| 0 <= i < all.len() implies !separates(#[trigger] all[i]) by {
            if i < head.len() {
                assert(all[i] == head[i]);
            } else {
                assert(all[i] == payload_text(rest)[i - head.len()]);
            }
        }
    }
}

/// Texts that are escaped alike are alike.
pub proof fn escaped_payloads_tell_texts_apart(a: Seq<char>, b: Seq<char>)
    requires
        payload_text(a) == payload_text(b),
    ensures
        a == b,
    decreases a.len(),
{
    if a.len() == 0 {
        if b.len() > 0 {
            assert(payload_text(b).len() >= payload_char(b[0]).len());
        }
        assert(a =~= b);
    } else {
        if b.len() == 0 {
            assert(payload_text(a).len() >= payload_char(a[0]).len());
        }
        let x = payload_char(a[0]);
        let y = payload_char(b[0]);
        let pa = payload_text(a.skip(1));
        let pb = payload_text(b.skip(1));
        let all = payload_text(a);
        assert(all == x + pa);
        assert(all == y + pb);
        assert(all[0] == x[0] && all[0] == y[0]);
        if x.len() > 1 && y.len() > 1 {
            assert(all[1] == x[1] && all[1] == y[1]);
        }
        assert(a[0] == b[0]);
        assert(pa =~= all.skip(x.len() as int));
        assert(pb =~= all.skip(x.len() as int));
        escaped_payloads_tell_texts_apart(a.skip(1), b.skip(1));
        assert(a =~= seq![a[0]] + a.skip(1));
        assert(b =~= seq![b[0]] + b.skip(1));
    }
}

/// The number that a payload names.
pub open spec fn cursor_number(payload: Seq<char>) -> Result<nat, Seq<char>> {
    match number(trim(payload), u64::MAX as nat) {
        Some(n) => Ok(n),
        None => Err("cursor id must be an unsigned integer"@),
    }
}

/// Reads the number that a payload names.
pub fn parse_cursor_id(payload: &str) -> (r: Result<u64, String>)
    ensures
        match r {
            Ok(n) => cursor_number(payload@) == Ok::<nat, Seq<char>>(n as nat),
            Err(e) => cursor_number(payload@) == Err::<nat, Seq<char>>(e@),
        },
{
    match read_u64(trimmed(payload).as_str()) {
        Some(n) => Ok(n),
        None => Err("cursor id must be an unsigned integer".to_owned()),
    }
}

/// A request for the next rows of a cursor.
pub struct FetchRequest {
    pub cursor_id: u64,
    pub page_size: usize,
}

/// What a request for rows asks for: the cursor, and how many rows.
pub open spec fn fetch_of(payload: Seq<char>) -> Result<(nat, nat), Seq<char>> {
    let parts = split(payload, '\t');
    match cursor_number(parts[0]) {
        Err(e) => Err(e),
        Ok(cursor_id) => if parts.len() < 2 {
            Ok((cursor_id, 128))
        } else {
            match number(parts[1], usize::MAX as nat) {
                None => Err("FETCH page size must be a positive integer"@),
                Some(page_size) => if page_size == 0 {
                    Err("FETCH page size must be greater than zero"@)
                } else if parts.len() > 2 {
                    Err("FETCH got extra fields"@)
                } else {
                    Ok((cursor_id, page_size))
                },
            }
        },
    }
}

/// Reads a request for rows.
pub fn parse_fetch_payload(payload: &str) -> (r: Result<FetchRequest, String>)
    ensures
        match r {
            Ok(f) => fetch_of(payload@) == Ok::<(nat, nat), Seq<char>>(
                (f.cursor_id as nat, f.page_size as nat),
            ) && f.page_size > 0,
            Err(e) => fetch_of(payload@) == Err::<(nat, nat), Seq<char>>(e@),
        },
{
    let parts = split_on(payload, '\t');
    proof {
        crate::text::lemma_split_is_not_empty(payload@, '\t');
    }
    assert(views(parts@)[0] == parts@[0]@);
    let cursor_id: u64 = match parse_cursor_id(parts[0].as_str()) {
        Err(e) => return Err(e),
        Ok(n) => n,
    };
    if parts.len() < 2 {
        return Ok(FetchRequest { cursor_id, page_size: 128 });
    }
    assert(views(parts@)[1] == parts@[1]@);
    let page_size: usize = match read_usize(parts[1].as_str()) {
        None => return Err("FETCH page size must be a positive integer".to_owned()),
        Some(n) => n,
    };
    if page_size == 0 {
        return Err("FETCH page size must be greater than zero".to_owned());
    }
    if parts.len() > 2 {
        return Err("FETCH got extra fields".to_owned());
    }
    Ok(FetchRequest { cursor_id, page_size })
}

/// The request that a cancellation names.
pub open spec fn cancel_of(payload: Seq<char>) -> Result<nat, Seq<char>> {
    let parts = split(trim(payload), '\t');
    if parts[0].len() == 0 {
        Err("CANCEL requires target request id"@)
    } else {
        match number(parts[0], u64::MAX as nat) {
            None => Err("CANCEL target request id must be an unsigned integer"@),
            Some(n) => if parts.len() > 1 {
                Err("CANCEL got extra fields"@)
            } else {
                Ok(n)
            },
        }
    }
}

/// Reads which request is to be cancelled.
pub fn parse_cancel_payload(payload: &str) -> (r: Result<u64, String>)
    ensures
        match r {
            Ok(n) => cancel_of(payload@) == Ok::<nat, Seq<char>>(n as nat),
            Err(e) => cancel_of(payload@) == Err::<nat, Seq<char>>(e@),
        },
{
    let parts = split_on(trimmed(payload).as_str(), '\t');
    proof {
        crate::text::lemma_split_is_not_empty(trim(payload@), '\t');
    }
    assert(views(parts@)[0] == parts@[0]@);
    if parts[0].as_str().is_empty() {
        return Err("CANCEL requires target request id".to_owned());
    }
    let request_id: u64 = match read_u64(parts[0].as_str()) {
        None => return Err("CANCEL target request id must be an unsigned integer".to_owned()),
        Some(n) => n,
    };
    if parts.len() > 1 {
        return Err("CANCEL got extra fields".to_owned());
    }
    Ok(request_id)
}

/// Whether a frame answers a request or tells an error.
#[derive(Clone, Copy, PartialEq, Eq, Structural, Debug)]
pub enum ReplyKind {
    Response,
    Error,
}

/// What a frame carries back.
pub struct NativeReply {
    pub kind: ReplyKind,
    pub text: String,
}

/// The contents of what a frame carries back.
pub struct Reply {
    pub kind: ReplyKind,
    pub text: Seq<char>,
}

impl NativeReply {
    pub open spec fn view(&self) -> Reply {
        Reply { kind: self.kind, text: self.text@ }
    }
}

/// How an outcome is told: an error that is already in its form stays as it is.
pub open spec fn reply_of(outcome: Result<Seq<char>, Seq<char>>) -> Reply {
    match outcome {
        Ok(text) => Reply { kind: ReplyKind::Response, text },
        Err(e) => Reply {
            kind: ReplyKind::Error,
            text: if begins(e, "ERR\t"@) {
                e
            } else {
                "ERR\t"@ + payload_text(e)
            },
        },
    }
}

/// The contents of an outcome.
pub open spec fn outcome_text(outcome: Result<String, String>) -> Result<Seq<char>, Seq<char>> {
    match outcome {
        Ok(t) => Ok(t@),
        Err(e) => Err(e@),
    }
}

/// Tells the outcome of a frame.
pub fn frame_reply(outcome: Result<String, String>) -> (r: NativeReply)
    ensures
        r@ == reply_of(outcome_text(outcome)),
{
    match outcome {
        Ok(text) => NativeReply { kind: ReplyKind::Response, text },
        Err(e) => NativeReply {
            kind: ReplyKind::Error,
            text: if starts_with(e.as_str(), "ERR\t") {
                e
            } else {
                cat("ERR\t", escape_payload(e.as_str()).as_str())
            },
        },
    }
}

/// The outcome of a cancellation that found its request, or missed it.
pub open spec fn cancelled_text(request_id: nat, found: bool) -> Seq<char> {
    if found {
        "OK\tCANCELLED\t"@ + dec(request_id)
    } else {
        "OK\tCANCEL_MISSED\t"@ + dec(request_id)
    }
}

fn show_cancelled(request_id: u64, found: bool) -> (r: String)
    ensures
        r@ == cancelled_text(request_id as nat, found),
{
    if found {
        cat("OK\tCANCELLED\t", show(request_id as u128).as_str())
    } else {
        cat("OK\tCANCEL_MISSED\t", show(request_id as u128).as_str())
    }
}

/// Pairs of a session and a request.
pub struct RequestSet {
    pairs: Vec<(u64, u64)>,
}

impl RequestSet {
    pub closed spec fn view(&self) -> Set<(u64, u64)> {
        self.pairs@.to_set()
    }

    /// No pair stands twice.
    pub closed spec fn well_formed(&self) -> bool {
        self.pairs@.no_duplicates()
    }

    pub fn new() -> (r: Self)
        ensures
            r.well_formed(),
            r@ == Set::<(u64, u64)>::empty(),
    {
        let r = RequestSet { pairs: Vec::new() };
        assert(r@ =~= Set::<(u64, u64)>::empty());
        r
    }

    fn place(&self, session_id: u64, request_id: u64) -> (r: Option<usize>)
        ensures
            match r {
                Some(i) => i < self.pairs@.len() && self.pairs@[i as int] == (
                    session_id,
                    request_id,
                ),
                None => !self.pairs@.contains((session_id, request_id)),
            },
    {
        let mut i: usize = 0;
        while i < self.pairs.len()
            invariant
                0 <= i <= self.pairs@.len(),
                forall|j: int| 0 <= j < i ==> self.pairs@[j] != (session_id, request_id),
            decreases self.pairs@.len() - i,
        {
            if self.pairs[i].0 == session_id && self.pairs[i].1 == request_id {
                return Some(i);
            }
            i = i + 1;
        }
        None
    }

    pub fn has(&self, session_id: u64, request_id: u64) -> (r: bool)
        ensures
            r == self@.contains((session_id, request_id)),
    {
        match self.place(session_id, request_id) {
            Some(i) => {
                assert(self.pairs@.contains(self.pairs@[i as int]));
                true
            },
            None => false,
        }
    }

    pub fn insert(&mut self, session_id: u64, request_id: u64)
        requires
            old(self).well_formed(),
        ensures
            final(self).well_formed(),
            final(self)@ == old(self)@.insert((session_id, request_id)),
    {
        let ghost before = self.pairs@;
        if let Some(i) = self.place(session_id, request_id) {
            assert(before.contains(before[i as int]));
            assert(self@ =~= old(self)@.insert((session_id, request_id)));
            return;
        }
        self.pairs.push((session_id, request_id));
        assert forall|p: (u64, u64)| #[trigger] self.pairs@.contains(p) <==> before.contains(p) || p
            == (session_id, request_id) by {
            if before.contains(p) {
                let i = choose|i: int| 0 <= i < before.len() && before[i] == p;
                assert(self.pairs@[i] == p);
            }
            if p == (session_id, request_id) {
                assert(self.pairs@[before.len() as int] == p);
            }
        }
        assert(self@ =~= old(self)@.insert((session_id, request_id)));
    }

    pub fn remove(&mut self, session_id: u64, request_id: u64) -> (r: bool)
        requires
            old(self).well_formed(),
        ensures
            final(self).well_formed(),
            final(self)@ == old(self)@.remove((session_id, request_id)),
            r == old(self)@.contains((session_id, request_id)),
    {
        let ghost before = self.pairs@;
        if let Some(i) = self.place(session_id, request_id) {
            let _ = self.pairs.remove(i);
            let ghost at = i as int;
            assert(before.contains(before[at]));
            assert forall|p: (u64, u64)| #[trigger] self.pairs@.contains(p) <==> before.contains(p)
                && p != (session_id, request_id) by {
                if self.pairs@.contains(p) {
                    let k = choose|k: int| 0 <= k < self.pairs@.len() && self.pairs@[k] == p;
                    assert(before[if k < at {
                        k
                    } else {
                        k + 1
                    }] == p);
                }
                if before.contains(p) && p != (session_id, request_id) {
                    let k = choose|k: int| 0 <= k < before.len() && before[k] == p;
                    assert(self.pairs@[if k < at {
                        k
                    } else {
                        k - 1
                    }] == p);
                }
            }
            assert(self@ =~= old(self)@.remove((session_id, request_id)));
            true
        } else {
            assert(self@ =~= old(self)@.remove((session_id, request_id)));
            false
        }
    }

    /// Takes out the pairs of a session.
    pub fn remove_session(&mut self, session_id: u64)
        requires
            old(self).well_formed(),
        ensures
            final(self).well_formed(),
            final(self)@ == other_sessions(old(self)@, session_id),
    {
        let ghost before = self.pairs@;
        let mut kept: Vec<(u64, u64)> = Vec::new();
        let mut i: usize = 0;
        while i < self.pairs.len()
            invariant
                0 <= i <= self.pairs@.len(),
                self.pairs@ == before,
                before.no_duplicates(),
                kept@.no_duplicates(),
                forall|p: (u64, u64)| #[trigger]
                    kept@.contains(p) <==> before.take(i as int).contains(p) && p.0 != session_id,
            decreases self.pairs@.len() - i,
        {
            let ghost was = kept@;
            let ghost e = before[i as int];
            assert(before.take(i + 1) =~= before.take(i as int).push(e));
            assert(!before.take(i as int).contains(e)) by {
                if before.take(i as int).contains(e) {
                    let k = choose|k: int| 0 <= k < i && before.take(i as int)[k] == e;
                    assert(before[k] == before[i as int]);
                }
            }
            assert(forall|p: (u64, u64)| #[trigger]
                before.take(i as int).push(e).contains(p) <==> before.take(i as int).contains(p) || p
                    == e) by {
                assert forall|p: (u64, u64)| #[trigger]
                    before.take(i as int).push(e).contains(p) <==> before.take(i as int).contains(p)
                        || p == e by {
                    let t = before.take(i as int);
                    if t.contains(p) {
                        let k = choose|k: int| 0 <= k < t.len() && t[k] == p;
                        assert(t.push(e)[k] == p);
                    }
                    assert(t.push(e)[t.len() as int] == e);
                }
            }
            if self.pairs[i].0 != session_id {
                assert(!was.contains(e));
                kept.push(self.pairs[i]);
                assert forall|a: int, b: int|
                    0 <= a < kept@.len() && 0 <= b < kept@.len() && a != b implies kept@[a]
                    != kept@[b] by {
                    if a < was.len() {
                        assert(was.contains(was[a]));
                    }
                    if b < was.len() {
                        assert(was.contains(was[b]));
                    }
                }
                assert forall|p: (u64, u64)| #[trigger] kept@.contains(p) <==> was.contains(p) || p
                    == e by {
                    if was.contains(p) {
                        let k = choose|k: int| 0 <= k < was.len() && was[k] == p;
                        assert(kept@[k] == p);
                    }
                    assert(kept@[was.len() as int] == e);
                }
            }
            i = i + 1;
        }
        assert(before.take(before.len() as int) =~= before);
        self.pairs = kept;
        assert(self@ =~= other_sessions(old(self)@, session_id));
    }
}

/// The pairs of the other sessions.
pub open spec fn other_sessions(s: Set<(u64, u64)>, session_id: u64) -> Set<(u64, u64)> {
    s.filter(|p: (u64, u64)| p.0 != session_id)
}

/// The requests that wait for a worker, and those of them that were cancelled.
pub struct PendingRequestStore {
    pending: RequestSet,
    cancelled: RequestSet,
}

/// The contents of the store of waiting requests.
pub struct Waiting {
    pub pending: Set<(u64, u64)>,
    pub cancelled: Set<(u64, u64)>,
}

impl PendingRequestStore {
    pub closed spec fn view(&self) -> Waiting {
        Waiting { pending: self.pending@, cancelled: self.cancelled@ }
    }

    pub closed spec fn sets_well_formed(&self) -> bool {
        self.pending.well_formed() && self.cancelled.well_formed()
    }

    /// Only requests that wait are cancelled.
    pub open spec fn well_formed(&self) -> bool {
        self.sets_well_formed() && self@.cancelled.subset_of(self@.pending)
    }

    pub fn new() -> (r: Self)
        ensures
            r.well_formed(),
            r@ == (Waiting {
                pending: Set::<(u64, u64)>::empty(),
                cancelled: Set::<(u64, u64)>::empty(),
            }),
    {
        PendingRequestStore { pending: RequestSet::new(), cancelled: RequestSet::new() }
    }

    /// Notes that a request waits.
    pub fn register(&mut self, session_id: u64, request_id: u64)
        requires
            old(self).well_formed(),
        ensures
            final(self).well_formed(),
            final(self)@ == (Waiting {
                pending: old(self)@.pending.insert((session_id, request_id)),
                cancelled: old(self)@.cancelled.remove((session_id, request_id)),
            }),
    {
        self.pending.insert(session_id, request_id);
        let _ = self.cancelled.remove(session_id, request_id);
    }

    /// Cancels a request, if it still waits.
    pub fn cancel(&mut self, session_id: u64, request_id: u64) -> (found: bool)
        requires
            old(self).well_formed(),
        ensures
            final(self).well_formed(),
            found == old(self)@.pending.contains((session_id, request_id)),
            final(self)@ == (if found {
                Waiting {
                    pending: old(self)@.pending,
                    cancelled: old(self)@.cancelled.insert((session_id, request_id)),
                }
            } else {
                old(self)@
            }),
    {
        if self.pending.has(session_id, request_id) {
            self.cancelled.insert(session_id, request_id);
            true
        } else {
            false
        }
    }

    /// Takes a request up, and tells whether it was cancelled.
    pub fn take_cancelled(&mut self, session_id: u64, request_id: u64) -> (was: bool)
        requires
            old(self).well_formed(),
        ensures
            final(self).well_formed(),
            was == old(self)@.cancelled.contains((session_id, request_id)),
            final(self)@ == (Waiting {
                pending: old(self)@.pending.remove((session_id, request_id)),
                cancelled: old(self)@.cancelled.remove((session_id, request_id)),
            }),
    {
        let _ = self.pending.remove(session_id, request_id);
        self.cancelled.remove(session_id, request_id)
    }

    /// Notes that a request waits no longer.
    pub fn start(&mut self, session_id: u64, request_id: u64)
        requires
            old(self).well_formed(),
        ensures
            final(self).well_formed(),
            final(self)@ == (Waiting {
                pending: old(self)@.pending.remove((session_id, request_id)),
                cancelled: old(self)@.cancelled.remove((session_id, request_id)),
            }),
    {
        let _ = self.pending.remove(session_id, request_id);
        let _ = self.cancelled.remove(session_id, request_id);
    }

    /// Forgets the requests of a session.
    pub fn close_session(&mut self, session_id: u64)
        requires
            old(self).well_formed(),
        ensures
            final(self).well_formed(),
            final(self)@ == (Waiting {
                pending: other_sessions(old(self)@.pending, session_id),
                cancelled: other_sessions(old(self)@.cancelled, session_id),
            }),
    {
        self.pending.remove_session(session_id);
        self.cancelled.remove_session(session_id);
    }
}

/// The store of waiting requests after a cancellation.
pub open spec fn after_cancel(w: Waiting, session_id: u64, request_id: u64) -> Waiting {
    if w.pending.contains((session_id, request_id)) {
        Waiting { pending: w.pending, cancelled: w.cancelled.insert((session_id, request_id)) }
    } else {
        w
    }
}

/// Carries out a frame that cancels a request.
pub fn cancel_request(store: &mut PendingRequestStore, session_id: u64, payload: &str) -> (r: Result<
    String,
    String,
>)
    requires
        old(store).well_formed(),
    ensures
        final(store).well_formed(),
        match cancel_of(payload@) {
            Err(e) => r is Err && r->Err_0@ == e && final(store)@ == old(store)@,
            Ok(n) => r is Ok && r->Ok_0@ == cancelled_text(
                n,
                old(store)@.pending.contains((session_id, n as u64)),
            ) && final(store)@ == after_cancel(old(store)@, session_id, n as u64),
        },
{
    match parse_cancel_payload(payload) {
        Err(e) => Err(e),
        Ok(request_id) => {
            let found = store.cancel(session_id, request_id);
            Ok(show_cancelled(request_id, found))
        },
    }
}

/// A cancellation reaches only requests of its own session, and only such as still wait.
pub proof fn cancelling_stays_in_the_session(
    w: Waiting,
    session_id: u64,
    request_id: u64,
    other_session: u64,
    other_request: u64,
)
    requires
        other_session != session_id,
    ensures
        after_cancel(w, session_id, request_id).cancelled.contains((other_session, other_request))
            == w.cancelled.contains((other_session, other_request)),
        after_cancel(w, session_id, request_id).pending == w.pending,
        !w.pending.contains((session_id, request_id)) ==> after_cancel(w, session_id, request_id)
            == w,
{
}

/// What becomes of a request that was handed to the workers.
#[derive(Clone, Copy, PartialEq, Eq, Structural, Debug)]
pub enum Submitted {
    Queued,
    QueueFull,
    Stopped,
}

/// Notes what became of a request that was handed to the workers: one that they did not
/// take waits no longer. A full queue is told to the sender; stopped workers end the
/// connection.
pub fn finish_submit(
    store: &mut PendingRequestStore,
    session_id: u64,
    request_id: u64,
    submitted: Submitted,
) -> (r: Result<Option<NativeReply>, String>)
    requires
        old(store).well_formed(),
    ensures
        final(store).well_formed(),
        match submitted {
            Submitted::Queued => r is Ok && r->Ok_0 is None && final(store)@ == old(store)@,
            Submitted::QueueFull => r is Ok && r->Ok_0 is Some && r->Ok_0->Some_0@ == (Reply {
                kind: ReplyKind::Error,
                text: "ERR\tnative worker queue full"@,
            }),
            Submitted::Stopped => r is Err && r->Err_0@ == "native worker pool stopped"@,
        },
        !(submitted is Queued) ==> final(store)@ == (Waiting {
            pending: old(store)@.pending.remove((session_id, request_id)),
            cancelled: old(store)@.cancelled.remove((session_id, request_id)),
        }),
{
    match submitted {
        Submitted::Queued => Ok(None),
        Submitted::QueueFull => {
            store.start(session_id, request_id);
            Ok(
                Some(
                    NativeReply {
                        kind: ReplyKind::Error,
                        text: "ERR\tnative worker queue full".to_owned(),
                    },
                ),
            )
        },
        Submitted::Stopped => {
            store.start(session_id, request_id);
            Err("native worker pool stopped".to_owned())
        },
    }
}

/// Takes up a request: a cancelled one is answered at once.
pub fn start_job(store: &mut PendingRequestStore, session_id: u64, request_id: u64) -> (r: Option<
    NativeReply,
>)
    requires
        old(store).well_formed(),
    ensures
        final(store).well_formed(),
        final(store)@ == (Waiting {
            pending: old(store)@.pending.remove((session_id, request_id)),
            cancelled: old(store)@.cancelled.remove((session_id, request_id)),
        }),
        r is Some <==> old(store)@.cancelled.contains((session_id, request_id)),
        r is Some ==> r->Some_0@ == (Reply {
            kind: ReplyKind::Error,
            text: "ERR\trequest cancelled"@,
        }),
{
    if store.take_cancelled(session_id, request_id) {
        Some(NativeReply { kind: ReplyKind::Error, text: "ERR\trequest cancelled".to_owned() })
    } else {
        None
    }
}

/// How many rows a result has, as far as it is known.
pub open spec fn total_text(total: Option<nat>) -> Seq<char> {
    match total {
        Some(n) => dec(n),
        None => "UNKNOWN"@,
    }
}

/// The first page of a result.
pub open spec fn result_start(
    cursor_id: nat,
    total: Option<nat>,
    count: nat,
    has_more: bool,
    rows: Seq<char>,
) -> Seq<char> {
    "OK\tRESULT_START\t"@ + dec(cursor_id) + "\t"@ + total_text(total) + "\t"@ + dec(count) + "\t"@
        + bool_text(has_more) + "\t"@ + rows
}

/// A count that may be missing.
pub open spec fn known(total: Option<usize>) -> Option<nat> {
    match total {
        Some(n) => Some(n as nat),
        None => None,
    }
}

/// Writes the first page of a result; the rows are given in their encoded form.
pub fn format_result_start(
    cursor_id: u64,
    total_rows: Option<usize>,
    count: usize,
    has_more: bool,
    rows: &str,
) -> (r: String)
    ensures
        r@ == result_start(cursor_id as nat, known(total_rows), count as nat, has_more, rows@),
{
    let total = match total_rows {
        Some(n) => show(n as u128),
        None => "UNKNOWN".to_owned(),
    };
    let mut r = "OK\tRESULT_START\t".to_owned();
    r.append(show(cursor_id as u128).as_str());
    r.append("\t");
    r.append(total.as_str());
    r.append("\t");
    r.append(show(count as u128).as_str());
    r.append("\t");
    r.append(show_bool(has_more));
    r.append("\t");
    r.append(rows);
    r
}

/// A further page of a result.
pub open spec fn result_page(cursor_id: nat, count: nat, has_more: bool, rows: Seq<char>) -> Seq<
    char,
> {
    "OK\tRESULT_PAGE\t"@ + dec(cursor_id) + "\t"@ + dec(count) + "\t"@ + bool_text(has_more)
        + "\t"@ + rows
}

/// Writes a further page of a result; the rows are given in their encoded form.
pub fn format_result_page(cursor_id: u64, count: usize, has_more: bool, rows: &str) -> (r: String)
    ensures
        r@ == result_page(cursor_id as nat, count as nat, has_more, rows@),
{
    let mut r = "OK\tRESULT_PAGE\t".to_owned();
    r.append(show(cursor_id as u128).as_str());
    r.append("\t");
    r.append(show(count as u128).as_str());
    r.append("\t");
    r.append(show_bool(has_more));
    r.append("\t");
    r.append(rows);
    r
}

} // verus!
