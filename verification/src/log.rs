//! A log that collects short messages in a bounded queue, to be written out
//! later by another part of the program.
use crate::ringbuf_shared::RingBuf;
use crate::text::utf8_lossy;
use crate::text::utf8_lossy_string;
use vstd::prelude::*;

verus! {

/// The number of bytes that a log entry holds.
pub const LOG_ENTRY_LEN: usize = 128;

/// The number of entries that the log holds before it drops new ones.
pub const LOG_CAPACITY: usize = 1024;

/// The bytes of the entry for `msg`: its first 128 bytes, padded with
/// zeros.
pub open spec fn entry_of_message(msg: Seq<u8>) -> Seq<u8> {
    Seq::new(128, |i: int| if i < msg.len() { msg[i] } else { 0u8 })
}

/// The index of the first zero byte of `buf`, or 0 when it has none.
pub open spec fn entry_end(buf: Seq<u8>) -> int {
    if exists|i: int| 0 <= i < buf.len() && buf[i] == 0 {
        choose|i: int| 0 <= i < buf.len() && buf[i] == 0 && forall|j: int| 0 <= j < i ==> buf[j] != 0
    } else {
        0
    }
}

/// The text of an entry: its bytes up to the first zero byte. An entry
/// without a zero byte has no text.
pub open spec fn entry_text(buf: Seq<u8>) -> Seq<u8> {
    buf.take(entry_end(buf))
}

/// The text of the entries `entries`, one line each, every line ended by
/// `"\r\n"`.
pub open spec fn log_lines(entries: Seq<Seq<u8>>) -> Seq<u8>
    decreases entries.len(),
{
    if entries.len() == 0 {
        Seq::empty()
    } else {
        log_lines(entries.drop_last()) + entry_text(entries.last()) + seq![13u8, 10u8]
    }
}

/// The text of the messages `ms`, one line each, every line ended by
/// `"\r\n"`.
pub open spec fn message_lines(ms: Seq<Seq<u8>>) -> Seq<u8>
    decreases ms.len(),
{
    if ms.len() == 0 {
        Seq::empty()
    } else {
        message_lines(ms.drop_last()) + ms.last() + seq![13u8, 10u8]
    }
}

/// Whether `msg` fits an entry as it is: shorter than 128 bytes and
/// without a zero byte.
pub open spec fn fits_entry(msg: Seq<u8>) -> bool {
    msg.len() < 128 && forall|i: int| 0 <= i < msg.len() ==> msg[i] != 0
}

/// A message that fits an entry is the text of its entry.
pub proof fn lemma_entry_text_of_message(msg: Seq<u8>)
    requires
        fits_entry(msg),
    ensures
        entry_text(entry_of_message(msg)) == msg,
{
    let b = entry_of_message(msg);
    let n = msg.len() as int;
    assert(b[n] == 0);
    let k = choose|k: int| 0 <= k < b.len() && b[k] == 0 && forall|j: int| 0 <= j < k ==> b[j] != 0;
    assert(k == n) by {
        if k < n {
            assert(b[k] == msg[k]);
        } else if k > n {
            assert(b[n] == 0);
        }
    }
    assert(b.take(n) =~= msg);
}

/// What the log collects are the lines of the logged messages: a batch of
/// messages that fit their entries comes back as the messages in the
/// order they were logged, each followed by `"\r\n"`.
pub proof fn lemma_log_lines_of_messages(ms: Seq<Seq<u8>>)
    requires
        forall|i: int| 0 <= i < ms.len() ==> fits_entry(#[trigger] ms[i]),
    ensures
        log_lines(ms.map_values(|m: Seq<u8>| entry_of_message(m))) == message_lines(ms),
    decreases ms.len(),
{
    if ms.len() > 0 {
        let es = ms.map_values(|m: Seq<u8>| entry_of_message(m));
        assert(es.drop_last() =~= ms.drop_last().map_values(|m: Seq<u8>| entry_of_message(m)));
        assert(fits_entry(ms[ms.len() - 1]));
        lemma_entry_text_of_message(ms.last());
        lemma_log_lines_of_messages(ms.drop_last());
    }
}

/// One message of the log.
pub struct LogEntry {
    buf: [u8; 128],
}

impl LogEntry {
    /// The 128 bytes of the entry.
    pub closed spec fn bytes(&self) -> Seq<u8> {
        self.buf@
    }

    /// The entry for `msg`: its first 128 bytes, padded with zeros.
    pub fn from_message(msg: &[u8]) -> (e: Self)
        ensures
            e.bytes() == entry_of_message(msg@),
    {
        let mut buf = [0u8; 128];
        let mut i: usize = 0;
        while i < 128 && i < msg.len()
            invariant
                i <= 128,
                i <= msg.len(),
                forall|j: int| 0 <= j < i ==> buf[j] == msg@[j],
                forall|j: int| i <= j < 128 ==> buf[j] == 0,
            decreases 128 - i,
        {
            buf[i] = msg[i];
            i = i + 1;
        }
        let e = LogEntry { buf };
        assert(e.bytes() =~= entry_of_message(msg@));
        e
    }

    /// The text of the entry, up to its first zero byte.
    pub fn text(&self) -> (t: Vec<u8>)
        ensures
            t@ == entry_text(self.bytes()),
    {
        let mut i: usize = 0;
        while i < 128 && self.buf[i] != 0
            invariant
                i <= 128,
                forall|j: int| 0 <= j < i ==> self.buf[j] != 0,
            decreases 128 - i,
        {
            i = i + 1;
        }
        let end: usize = if i < 128 {
            i
        } else {
            0
        };
        proof {
            let b = self.bytes();
            if i < 128 {
                assert(b[end as int] == 0);
                assert(entry_end(b) == end) by {
                    let k = choose|k: int|
                        0 <= k < b.len() && b[k] == 0 && forall|j: int| 0 <= j < k ==> b[j] != 0;
                    assert(!(k < end) && !(end < k));
                }
            } else {
                assert(!exists|k: int| 0 <= k < b.len() && b[k] == 0);
            }
        }
        let mut t: Vec<u8> = Vec::new();
        let mut k: usize = 0;
        while k < end
            invariant
                end <= 128,
                k <= end,
                t@ == self.buf@.take(k as int),
            decreases end - k,
        {
            t.push(self.buf[k]);
            k = k + 1;
            assert(t@ =~= self.buf@.take(k as int));
        }
        t
    }
}

/// The lines of `entries`, each the text of an entry followed by `"\r\n"`.
#[verifier::spinoff_prover]
pub fn log_text(entries: &Vec<LogEntry>) -> (r: Vec<u8>)
    ensures
        r@ == log_lines(entries@.map_values(|e: LogEntry| e.bytes())),
{
    let mut out: Vec<u8> = Vec::new();
    let mut i: usize = 0;
    while i < entries.len()
        invariant
            i <= entries.len(),
            out@ == log_lines(entries@.take(i as int).map_values(|e: LogEntry| e.bytes())),
        decreases entries.len() - i,
    {
        let t = entries[i].text();
        let mut k: usize = 0;
        let ghost before = out@;
        while k < t.len()
            invariant
                k <= t.len(),
                out@ == before + t@.take(k as int),
            decreases t.len() - k,
        {
            out.push(t[k]);
            k = k + 1;
            assert(out@ =~= before + t@.take(k as int));
        }
        out.push(13u8);
        out.push(10u8);
        proof {
            let m = entries@.take(i + 1).map_values(|e: LogEntry| e.bytes());
            assert(m.drop_last() =~= entries@.take(i as int).map_values(|e: LogEntry| e.bytes()));
            assert(t@.take(t@.len() as int) =~= t@);
            assert(out@ =~= log_lines(m));
        }
        i = i + 1;
    }
    assert(entries@.take(entries.len() as int) =~= entries@);
    out
}

/// A log of short messages.
pub struct Log {
    rb: RingBuf,
}

impl View for Log {
    type V = Seq<Seq<u8>>;

    /// The bytes of the queued entries, oldest first.
    closed spec fn view(&self) -> Seq<Seq<u8>> {
        self.rb@
    }
}

impl Log {
    /// The queue is well formed, with room for 1024 entries.
    pub closed spec fn wf(&self) -> bool {
        &&& self.rb.wf()
        &&& self.rb.spec_capacity() == LOG_CAPACITY
        &&& self.rb@.len() <= LOG_CAPACITY
    }

    /// An empty log with room for 1024 entries.
    pub fn new() -> (l: Self)
        ensures
            l.wf(),
            l@ == Seq::<Seq<u8>>::empty(),
    {
        Self { rb: RingBuf::new(LOG_CAPACITY) }
    }

    /// Queues the entry of `msg` (its first 128 bytes); when the log holds
    /// 1024 entries the message is dropped.
    pub fn log(&mut self, msg: &[u8])
        requires
            old(self).wf(),
        ensures
            final(self).wf(),
            final(self)@ == (if old(self)@.len() < LOG_CAPACITY {
                old(self)@.push(entry_of_message(msg@))
            } else {
                old(self)@
            }),
    {
        let ent = LogEntry::from_message(msg);
        self.rb.push(ent.buf);
    }

    /// Takes all queued entries and returns their lines, decoded as UTF-8
    /// with invalid sequences replaced; `None` when the lines are empty.
    pub fn collect(&mut self) -> (r: Option<String>)
        requires
            old(self).wf(),
        ensures
            final(self).wf(),
            final(self)@ == Seq::<Seq<u8>>::empty(),
            log_lines(old(self)@).len() == 0 ==> r is None,
            log_lines(old(self)@).len() > 0 ==> (r matches Some(s) && s@ == utf8_lossy(
                log_lines(old(self)@),
            )),
    {
        let ghost all = self@;
        let mut entries: Vec<LogEntry> = Vec::new();
        let cap = self.rb.capacity();
        let mut n: usize = 0;
        // The queue holds at most `cap` entries, so `cap` takes drain it.
        while n < cap
            invariant_except_break
                n <= cap,
                cap == LOG_CAPACITY,
                self.wf(),
                self.rb@.len() + n <= cap,
                entries@.len() == n,
                entries@.map_values(|e: LogEntry| e.bytes()) + self.rb@ == all,
            ensures
                self.wf(),
                self.rb@.len() == 0,
                entries@.map_values(|e: LogEntry| e.bytes()) + self.rb@ == all,
            decreases cap - n,
        {
            let ghost before = entries@.map_values(|e: LogEntry| e.bytes());
            let ghost queued = self.rb@;
            match self.rb.pop() {
                Some(buf) => {
                    entries.push(LogEntry { buf });
                    assert(entries@.map_values(|e: LogEntry| e.bytes()) =~= before.push(buf@));
                    assert(before.push(buf@) + queued.drop_first() =~= before + queued);
                },
                None => {
                    break;
                },
            }
            n = n + 1;
        }
        assert(entries@.map_values(|e: LogEntry| e.bytes()) =~= all);
        let bytes = log_text(&entries);
        if bytes.len() > 0 {
            let s = utf8_lossy_string(bytes.as_slice());
            Some(s)
        } else {
            None
        }
    }
}

} // verus!
