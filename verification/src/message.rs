//! Console messages as they travel from the hooked print function to the writer.
use vstd::prelude::*;

use crate::MAXPRINTMSG;

verus! {

/// `bytes` holds a NUL byte somewhere.
pub open spec fn has_nul(bytes: Seq<u8>) -> bool {
    exists|i: int| 0 <= i < bytes.len() && bytes[i] == 0
}

/// `n` is the position of the first NUL byte of `bytes`.
pub open spec fn is_first_nul(bytes: Seq<u8>, n: int) -> bool {
    &&& 0 <= n < bytes.len()
    &&& bytes[n] == 0
    &&& forall|i: int| 0 <= i < n ==> bytes[i] != 0
}

/// Length of the C string stored at the start of `bytes`: the index of its first NUL.
pub open spec fn c_str_len_spec(bytes: Seq<u8>) -> int {
    choose|n: int| is_first_nul(bytes, n)
}

/// Two positions that are both the first NUL are the same position.
pub proof fn lemma_first_nul_unique(bytes: Seq<u8>, n: int, m: int)
    requires
        is_first_nul(bytes, n),
        is_first_nul(bytes, m),
    ensures
        n == m,
{
    if n < m {
        assert(bytes[n] != 0);
    } else if m < n {
        assert(bytes[m] != 0);
    }
}

/// Length of the NUL-terminated string at the start of `bytes` (what C's `strlen` returns).
pub fn c_str_len(bytes: &[u8]) -> (n: usize)
    requires
        has_nul(bytes@),
    ensures
        is_first_nul(bytes@, n as int),
        n == c_str_len_spec(bytes@),
{
    let mut i: usize = 0;
    while i < bytes.len() && bytes[i] != 0
        invariant
            i <= bytes.len(),
            forall|j: int| 0 <= j < i ==> bytes@[j] != 0,
        decreases bytes.len() - i,
    {
        i = i + 1;
    }
    proof {
        if i == bytes.len() {
            let k: int = choose|k: int| 0 <= k < bytes@.len() && bytes@[k] == 0;
            assert(bytes@[k] != 0);
        }
        let c: int = c_str_len_spec(bytes@);
        assert(is_first_nul(bytes@, i as int));
        assert(is_first_nul(bytes@, c));
        lemma_first_nul_unique(bytes@, i as int, c);
    }
    i
}

/// The buffer of a message whose first `n` bytes are `text`'s first `n` bytes and
/// whose other bytes are zero.
pub open spec fn zero_padded(text: Seq<u8>, n: int) -> Seq<u8> {
    text.take(n) + Seq::new((MAXPRINTMSG - n) as nat, |i: int| 0u8)
}

/// The length of the text that `vsnprintf` left in a `MAXPRINTMSG`-byte buffer, given
/// the count it returned: the count, cut to `MAXPRINTMSG - 1`, and zero on error.
pub open spec fn formatted_len(written: i32) -> int {
    if written < 0 {
        0
    } else if written >= MAXPRINTMSG {
        (MAXPRINTMSG - 1) as int
    } else {
        written as int
    }
}

/// How much of a formatted text a message keeps: a count that fits the buffer with
/// its NUL is kept whole, a longer count is cut to the `MAXPRINTMSG - 1` bytes that the
/// formatter wrote, and an error count keeps nothing.
pub proof fn law_formatted_len(written: i32)
    ensures
        0 <= written < MAXPRINTMSG ==> formatted_len(written) == written,
        written >= MAXPRINTMSG ==> formatted_len(written) == MAXPRINTMSG - 1,
        written < 0 ==> formatted_len(written) == 0,
        0 <= formatted_len(written) < MAXPRINTMSG,
        formatted_len(written) <= written || written < 0,
{
}

/// The text a formatted message keeps is exactly the C string the formatter left in
/// the buffer: when the buffer's first NUL sits where `vsnprintf` puts it (after the
/// text, cut to `MAXPRINTMSG - 1` bytes), the kept length is that string's length.
pub proof fn law_formatted_text_is_c_string(buffer: Seq<u8>, written: i32)
    requires
        buffer.len() == MAXPRINTMSG,
        0 <= written,
        is_first_nul(
            buffer,
            if written < MAXPRINTMSG - 1 {
                written as int
            } else {
                (MAXPRINTMSG - 1) as int
            },
        ),
    ensures
        formatted_len(written) == c_str_len_spec(buffer),
{
    let n: int = if written < MAXPRINTMSG - 1 {
        written as int
    } else {
        (MAXPRINTMSG - 1) as int
    };
    assert(has_nul(buffer));
    lemma_first_nul_unique(buffer, n, c_str_len_spec(buffer));
}

/// A console message: a buffer of `MAXPRINTMSG` bytes and the length of the text at
/// its start, which always fits the buffer.
pub struct LogMessage {
    data: Vec<u8>,
    len: i32,
}

impl LogMessage {
    #[verifier::type_invariant]
    spec fn text_fits_buffer(&self) -> bool {
        &&& self.data@.len() == MAXPRINTMSG
        &&& 0 <= self.len <= MAXPRINTMSG
    }

    /// The message buffer.
    pub closed spec fn buffer(&self) -> Seq<u8> {
        self.data@
    }

    /// The length of the text at the start of the buffer.
    pub closed spec fn length(&self) -> int {
        self.len as int
    }

    /// The text that gets written to the log.
    pub open spec fn payload_view(&self) -> Seq<u8> {
        self.buffer().take(self.length())
    }

    /// Frames the NUL-terminated string at the start of `text`, as the console print
    /// hook does: an empty string gives no message; otherwise the string's bytes are
    /// copied to the start of a zeroed buffer and its length is recorded.
    pub fn from_c_str(text: &[u8]) -> (msg: Option<LogMessage>)
        requires
            has_nul(text@),
            c_str_len_spec(text@) <= MAXPRINTMSG,
        ensures
            msg is None <==> c_str_len_spec(text@) == 0,
            msg matches Some(m) ==> {
                &&& m.length() == c_str_len_spec(text@)
                &&& m.buffer() == zero_padded(text@, c_str_len_spec(text@))
                &&& m.buffer().len() == MAXPRINTMSG
                &&& m.payload_view() == text@.take(c_str_len_spec(text@))
            },
    {
        let n: usize = c_str_len(text);
        if n == 0 {
            return None;
        }
        let mut data: Vec<u8> = Vec::new();
        let mut i: usize = 0;
        while i < MAXPRINTMSG
            invariant
                n <= MAXPRINTMSG,
                is_first_nul(text@, n as int),
                i <= MAXPRINTMSG,
                data@.len() == i,
                forall|j: int| 0 <= j < i ==> data@[j] == if j < n { text@[j] } else { 0u8 },
            decreases MAXPRINTMSG - i,
        {
            if i < n {
                data.push(text[i]);
            } else {
                data.push(0u8);
            }
            i = i + 1;
        }
        assert(data@ =~= zero_padded(text@, n as int));
        let msg = LogMessage { data, len: n as i32 };
        assert(msg.payload_view() =~= text@.take(n as int));
        Some(msg)
    }

    /// Frames a buffer that `vsnprintf` filled, given the count it returned. The
    /// formatter writes at most `MAXPRINTMSG - 1` characters and a NUL, and returns the
    /// length the whole text would have had, or a negative count on error; the message
    /// is the text as it stands in the buffer: cut to `MAXPRINTMSG - 1` bytes when
    /// longer, empty on error.
    pub fn from_formatted(buffer: Vec<u8>, written: i32) -> (msg: LogMessage)
        requires
            buffer@.len() == MAXPRINTMSG,
        ensures
            msg.buffer() == buffer@,
            msg.length() == formatted_len(written),
            0 <= written < MAXPRINTMSG ==> msg.length() == written,
            written >= MAXPRINTMSG ==> msg.length() == MAXPRINTMSG - 1,
            written < 0 ==> msg.length() == 0,
            0 <= msg.length() < MAXPRINTMSG,
            msg.payload_view() == buffer@.take(formatted_len(written)),
    {
        let len: i32 = if written < 0 {
            0
        } else if written > (MAXPRINTMSG - 1) as i32 {
            (MAXPRINTMSG - 1) as i32
        } else {
            written
        };
        LogMessage { data: buffer, len }
    }

    /// The whole message buffer.
    pub fn bytes(&self) -> (b: &[u8])
        ensures
            b@ == self.buffer(),
    {
        self.data.as_slice()
    }

    /// The length of the text at the start of the buffer.
    pub fn text_len(&self) -> (n: usize)
        ensures
            n == self.length(),
            n <= MAXPRINTMSG,
    {
        proof {
            use_type_invariant(self);
        }
        self.len as usize
    }

    /// The bytes to write to the log: the first `length()` bytes of the buffer.
    pub fn payload(&self) -> (bytes: Vec<u8>)
        ensures
            bytes@ == self.payload_view(),
    {
        proof {
            use_type_invariant(self);
        }
        let n: usize = self.len as usize;
        let mut out: Vec<u8> = Vec::new();
        let mut i: usize = 0;
        while i < n
            invariant
                n == self.length(),
                n <= self.data@.len(),
                i <= n,
                out@ =~= self.data@.take(i as int),
            decreases n - i,
        {
            out.push(self.data[i]);
            i = i + 1;
        }
        out
    }
}

} // verus!
