//! The logic of writing to the host's log: the room a log line leaves for the
//! message, the splitting of long messages into chunks that fit, and the
//! buffering of written bytes into lines.

use vstd::prelude::*;
use crate::text::push_char;

verus! {

/// The log levels of the host's log.
#[derive(Debug, Clone, Copy, PartialEq, Eq, Structural)]
pub enum LogLevel {
    /// The plugin log.
    Plugin,
    /// Information.
    Info,
    /// Warnings.
    Warn,
    /// Errors.
    Error,
    /// Verbose output.
    Verbose,
}

/// The name of a level as the host shows it in a log line.
pub open spec fn level_name(l: LogLevel) -> Seq<char> {
    match l {
        LogLevel::Plugin => "PLUGIN"@,
        LogLevel::Info => "INFO"@,
        LogLevel::Warn => "WARN"@,
        LogLevel::Error => "ERROR"@,
        LogLevel::Verbose => "VERBOSE"@,
    }
}

impl LogLevel {
    /// The name of the level as the host shows it, such as `VERBOSE`.
    pub fn name(&self) -> (r: &'static str)
        ensures
            r@ == level_name(*self),
    {
        match self {
            LogLevel::Plugin => "PLUGIN",
            LogLevel::Info => "INFO",
            LogLevel::Warn => "WARN",
            LogLevel::Error => "ERROR",
            LogLevel::Verbose => "VERBOSE",
        }
    }
}

/// Each level is shown under its own name in capitals, and no two levels
/// share a name.
pub proof fn lemma_level_names(a: LogLevel, b: LogLevel)
    ensures
        level_name(LogLevel::Plugin) == "PLUGIN"@,
        level_name(LogLevel::Info) == "INFO"@,
        level_name(LogLevel::Warn) == "WARN"@,
        level_name(LogLevel::Error) == "ERROR"@,
        level_name(LogLevel::Verbose) == "VERBOSE"@,
        level_name(a) == level_name(b) ==> a == b,
{
    reveal_strlit("PLUGIN");
    reveal_strlit("INFO");
    reveal_strlit("WARN");
    reveal_strlit("ERROR");
    reveal_strlit("VERBOSE");
    if a != b {
        let na = level_name(a);
        let nb = level_name(b);
        assert(na.len() != nb.len() || na[0] != nb[0]);
    }
}

/// The longest log line the host takes, in bytes.
pub const LOG_LINE_LIMIT: usize = 1023;

/// The bytes of a log line that the host adds besides the level and the
/// plugin's file name, as in `[01/23 08:43:47] [VERBOSE] [Plugin::name] `.
pub const LOG_LINE_OVERHEAD: usize = 35;

/// The bytes that a message may take in one log line, given the lengths of
/// the plugin's file name and of the level's name.
pub fn log_length_limit(dll_length: usize, kind_length: usize) -> (r: usize)
    requires
        dll_length + kind_length <= LOG_LINE_LIMIT - LOG_LINE_OVERHEAD,
    ensures
        r == LOG_LINE_LIMIT - LOG_LINE_OVERHEAD - dll_length - kind_length,
{
    LOG_LINE_LIMIT - LOG_LINE_OVERHEAD - dll_length - kind_length
}

/// The bytes that a character takes in UTF-8.
pub open spec fn utf8_len(c: char) -> nat {
    let v = c as int;
    if v < 0x80 {
        1
    } else if v < 0x800 {
        2
    } else if v < 0x10000 {
        3
    } else {
        4
    }
}

/// The bytes that a character sequence takes in UTF-8.
pub open spec fn utf8_len_of(s: Seq<char>) -> nat
    decreases s.len(),
{
    if s.len() == 0 {
        0
    } else {
        utf8_len_of(s.drop_last()) + utf8_len(s.last())
    }
}

/// The chunks finished so far and the chunk being filled, after reading the
/// characters `s`: a character that would make the current chunk longer than
/// `limit` bytes closes it and starts the next one.
pub open spec fn chunk_state(s: Seq<char>, limit: nat) -> (Seq<Seq<char>>, Seq<char>)
    decreases s.len(),
{
    if s.len() == 0 {
        (Seq::empty(), Seq::empty())
    } else {
        let (done, cur) = chunk_state(s.drop_last(), limit);
        let c = s.last();
        if utf8_len_of(cur) + utf8_len(c) > limit {
            (done.push(cur), seq![c])
        } else {
            (done, cur.push(c))
        }
    }
}

/// The chunks of a message: the finished chunks, then the last one if it is
/// not empty.
pub open spec fn message_chunks(s: Seq<char>, limit: nat) -> Seq<Seq<char>> {
    let (done, cur) = chunk_state(s, limit);
    if cur.len() > 0 {
        done.push(cur)
    } else {
        done
    }
}

/// The concatenation of a sequence of chunks.
pub open spec fn concat(chunks: Seq<Seq<char>>) -> Seq<char>
    decreases chunks.len(),
{
    if chunks.len() == 0 {
        Seq::empty()
    } else {
        concat(chunks.drop_last()) + chunks.last()
    }
}

fn char_utf8_len(c: char) -> (r: usize)
    ensures
        r == utf8_len(c),
{
    let v = c as u32;
    if v < 0x80 {
        1
    } else if v < 0x800 {
        2
    } else if v < 0x10000 {
        3
    } else {
        4
    }
}

proof fn lemma_utf8_len_push(s: Seq<char>, c: char)
    ensures
        utf8_len_of(s.push(c)) == utf8_len_of(s) + utf8_len(c),
{
    assert(s.push(c).drop_last() =~= s);
}

/// Splits a message into chunks of at most `limit` UTF-8 bytes each, without
/// splitting a character: each character that would make the current chunk
/// too long starts a new chunk.
pub fn split_into_chunks(message: &str, limit: usize) -> (r: Vec<String>)
    ensures
        r@.len() == message_chunks(message@, limit as nat).len(),
        forall|i: int|
            0 <= i < r@.len() ==> #[trigger] r@[i]@ == message_chunks(message@, limit as nat)[i],
{
    let n = message.unicode_len();
    let mut chunks: Vec<String> = Vec::new();
    let mut current = String::new();
    let mut current_len: usize = 0;
    let mut i: usize = 0;
    while i < n
        invariant
            n == message@.len(),
            i <= n,
            chunk_state(message@.take(i as int), limit as nat).0.len() == chunks@.len(),
            forall|k: int|
                0 <= k < chunks@.len() ==> #[trigger] chunks@[k]@ == chunk_state(
                    message@.take(i as int),
                    limit as nat,
                ).0[k],
            current@ == chunk_state(message@.take(i as int), limit as nat).1,
            current_len == utf8_len_of(current@),
            current_len <= limit || current@.len() == 1,
            current@.len() == 1 ==> current_len <= 4,
        decreases n - i,
    {
        let c = message.get_char(i);
        let c_len = char_utf8_len(c);
        let ghost before = message@.take(i as int);
        proof {
            let next = message@.take(i + 1);
            assert(next.drop_last() =~= before);
            assert(next.last() == c);
        }
        if c_len > limit || current_len > limit - c_len {
            chunks.push(current);
            current = String::new();
            push_char(&mut current, c);
            current_len = c_len;
            proof {
                assert(current@ =~= seq![c]);
                lemma_utf8_len_push(Seq::<char>::empty(), c);
                assert(Seq::<char>::empty().push(c) =~= seq![c]);
            }
        } else {
            let ghost old_cur = current@;
            push_char(&mut current, c);
            current_len = current_len + c_len;
            proof {
                lemma_utf8_len_push(old_cur, c);
            }
        }
        i = i + 1;
    }
    assert(message@.take(n as int) =~= message@);
    if current.unicode_len() > 0 {
        chunks.push(current);
    }
    chunks
}

/// The chunk state keeps the message: the finished chunks and the current
/// one, put together, are the characters read; with room for any character
/// (`limit` at least 4), every finished chunk is non-empty and no chunk is
/// longer than `limit` bytes.
proof fn lemma_chunk_state(s: Seq<char>, limit: nat)
    ensures
        concat(chunk_state(s, limit).0) + chunk_state(s, limit).1 == s,
        limit >= 4 ==> utf8_len_of(chunk_state(s, limit).1) <= limit,
        limit >= 4 ==> forall|k: int|
            0 <= k < chunk_state(s, limit).0.len() ==> #[trigger] chunk_state(s, limit).0[k].len()
                > 0 && utf8_len_of(chunk_state(s, limit).0[k]) <= limit,
    decreases s.len(),
{
    if s.len() == 0 {
        assert(concat(Seq::<Seq<char>>::empty()) + Seq::<char>::empty() =~= s);
    } else {
        let prev = s.drop_last();
        lemma_chunk_state(prev, limit);
        let (done, cur) = chunk_state(prev, limit);
        let c = s.last();
        assert(prev.push(c) =~= s);
        if utf8_len_of(cur) + utf8_len(c) > limit {
            let d2 = done.push(cur);
            assert(d2.drop_last() =~= done);
            assert(concat(d2) == concat(done) + cur);
            assert(concat(d2) + seq![c] =~= s);
            lemma_utf8_len_push(Seq::<char>::empty(), c);
            assert(Seq::<char>::empty().push(c) =~= seq![c]);
            if limit >= 4 {
                assert(cur.len() > 0) by {
                    if cur.len() == 0 {
                        assert(utf8_len_of(cur) == 0);
                    }
                }
            }
        } else {
            lemma_utf8_len_push(cur, c);
            assert(concat(done) + cur.push(c) =~= s);
        }
    }
}

/// Putting the chunks of a message together gives the message back.
pub proof fn lemma_chunks_concat(s: Seq<char>, limit: nat)
    ensures
        concat(message_chunks(s, limit)) == s,
{
    lemma_chunk_state(s, limit);
    let (done, cur) = chunk_state(s, limit);
    if cur.len() > 0 {
        assert(done.push(cur).drop_last() =~= done);
    } else {
        assert(concat(done) + cur =~= concat(done));
    }
}

/// With room for any character (`limit` at least 4), every chunk of a message
/// is non-empty and at most `limit` bytes long in UTF-8.
pub proof fn lemma_chunks_fit(s: Seq<char>, limit: nat)
    requires
        limit >= 4,
    ensures
        forall|k: int|
            0 <= k < message_chunks(s, limit).len() ==> #[trigger] message_chunks(s, limit)[k].len()
                > 0 && utf8_len_of(message_chunks(s, limit)[k]) <= limit,
{
    lemma_chunk_state(s, limit);
}

/// Lines, each followed by a newline byte, one after another.
pub open spec fn lines_text(lines: Seq<Seq<u8>>) -> Seq<u8>
    decreases lines.len(),
{
    if lines.len() == 0 {
        Seq::empty()
    } else {
        lines_text(lines.drop_last()) + lines.last().push(10u8)
    }
}

/// Whether a byte sequence holds no newline byte.
pub open spec fn no_newline(s: Seq<u8>) -> bool {
    forall|i: int| 0 <= i < s.len() ==> s[i] != 10u8
}

/// Bytes written to a log, held until a newline completes a line.
pub struct LineBuffer {
    buffer: Vec<u8>,
}

impl LineBuffer {
    /// The held bytes never hold a newline.
    #[verifier::type_invariant]
    spec fn holds_partial_line(&self) -> bool {
        no_newline(self.buffer@)
    }

    /// The bytes of the line not yet completed.
    pub closed spec fn pending(&self) -> Seq<u8> {
        self.buffer@
    }

    /// An empty buffer.
    pub fn new() -> (r: Self)
        ensures
            r.pending() == Seq::<u8>::empty(),
    {
        LineBuffer { buffer: Vec::new() }
    }

    /// Adds written bytes and takes out the lines they complete, without
    /// their newlines, in order; the rest stays held.
    pub fn write(&mut self, data: &[u8]) -> (lines: Vec<Vec<u8>>)
        ensures
            lines_text(lines@.map_values(|l: Vec<u8>| l@)) + final(self).pending() == old(
                self,
            ).pending() + data@,
            forall|i: int| 0 <= i < lines@.len() ==> no_newline(#[trigger] lines@[i]@),
            no_newline(final(self).pending()),
    {
        proof {
            use_type_invariant(&*self);
        }
        let ghost all = self.buffer@ + data@;
        let mut buf: Vec<u8> = Vec::new();
        std::mem::swap(&mut buf, &mut self.buffer);
        let mut j: usize = 0;
        let dn = data.len();
        while j < dn
            invariant
                dn == data@.len(),
                j <= dn,
                buf@ == old(self).buffer@ + data@.take(j as int),
                all == old(self).buffer@ + data@,
                self.buffer@ == Seq::<u8>::empty(),
            decreases dn - j,
        {
            buf.push(data[j]);
            j = j + 1;
            assert(buf@ =~= old(self).buffer@ + data@.take(j as int));
        }
        assert(data@.take(dn as int) =~= data@);
        let n = buf.len();
        let mut lines: Vec<Vec<u8>> = Vec::new();
        let mut current: Vec<u8> = Vec::new();
        let mut i: usize = 0;
        while i < n
            invariant
                n == buf@.len(),
                buf@ == all,
                i <= n,
                lines_text(lines@.map_values(|l: Vec<u8>| l@)) + current@ == buf@.take(i as int),
                forall|k: int| 0 <= k < lines@.len() ==> no_newline(#[trigger] lines@[k]@),
                no_newline(current@),
                self.buffer@ == Seq::<u8>::empty(),
            decreases n - i,
        {
            let b = buf[i];
            let ghost before = lines@.map_values(|l: Vec<u8>| l@);
            let ghost cur = current@;
            if b == 10 {
                lines.push(current);
                current = Vec::new();
                proof {
                    let after = lines@.map_values(|l: Vec<u8>| l@);
                    assert(after.drop_last() =~= before);
                    assert(after.last() == cur);
                    assert(buf@.take(i + 1) =~= buf@.take(i as int).push(10u8));
                    assert(lines_text(after) + current@ =~= buf@.take(i + 1));
                }
            } else {
                current.push(b);
                proof {
                    assert(buf@.take(i + 1) =~= buf@.take(i as int).push(b));
                    assert(lines_text(before) + current@ =~= buf@.take(i + 1));
                }
            }
            i = i + 1;
        }
        assert(buf@.take(n as int) =~= buf@);
        self.buffer = current;
        lines
    }
}

} // verus!
