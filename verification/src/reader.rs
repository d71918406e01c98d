//! Reading an RTSP response from a connection: the head line by line, then
//! as many body bytes as its `Content-Length` header announces.

use vstd::prelude::*;

use crate::error::{protocol_error, AirPlayError};
use crate::rtsp::{parse_head, RtspResponse};
use crate::text::{
    chars_eq_ignore_ascii_case, eq_ignore_ascii_case, find_chars, parse_unsigned, parse_unsigned_range, push_range,
    push_str, split_once, str_chars, trim, trim_range,
};

verus! {

/// The head read so far, the announced body length, and whether the blank
/// line that ends the head has been read.
#[derive(Debug, Clone, PartialEq, Eq)]
pub struct RtspResponseReader {
    pub head: String,
    pub content_length: usize,
    pub complete: bool,
}

/// A line without the `\r` and `\n` characters that end it.
pub open spec fn without_line_end(line: Seq<char>) -> Seq<char>
    decreases line.len(),
{
    if line.len() > 0 && (line.last() == '\r' || line.last() == '\n') {
        without_line_end(line.drop_last())
    } else {
        line
    }
}

/// The trimmed value of a `Content-Length` header line (the name compared
/// without regard to ASCII case), or `None` for any other line.
pub open spec fn content_length_value(line: Seq<char>) -> Option<Seq<char>> {
    match split_once(line, seq![':']) {
        Some((name, value)) => if eq_ignore_ascii_case(trim(name), "Content-Length"@) {
            Some(trim(value))
        } else {
            None
        },
        None => None,
    }
}

impl RtspResponseReader {
    /// A reader that has read nothing.
    pub fn new() -> (r: Self)
        ensures
            r.head@ == Seq::<char>::empty(),
            r.content_length == 0,
            !r.complete,
    {
        RtspResponseReader { head: String::new(), content_length: 0, complete: false }
    }

    /// Takes in one line of the head. The blank line completes the head; a
    /// `Content-Length` header sets the body length, and one whose value is
    /// not a `usize` is a protocol error, which changes nothing.
    pub fn push_line(&mut self, line: &str) -> (r: Result<(), AirPlayError>)
        requires
            !old(self).complete,
        ensures
            r is Ok ==> final(self).head@ == old(self).head@ + without_line_end(line@) + "\r\n"@,
            r is Ok ==> final(self).complete == (without_line_end(line@).len() == 0),
            r is Err ==> *final(self) == *old(self),
            without_line_end(line@).len() == 0 ==> r is Ok && final(self).content_length == old(
                self,
            ).content_length,
            without_line_end(line@).len() > 0 ==> match content_length_value(without_line_end(line@)) {
                None => r is Ok && final(self).content_length == old(self).content_length,
                Some(v) => match parse_unsigned(v, usize::MAX as nat) {
                    Some(n) => r is Ok && final(self).content_length == n,
                    None => r matches Err(AirPlayError::Protocol { .. }),
                },
            },
    {
        proof {
            reveal_strlit("Content-Length");
            reveal_strlit("\r\n");
        }
        let chars = str_chars(line);
        let mut end = chars.len();
        assert(chars@.subrange(0, chars@.len() as int) =~= line@);
        while end > 0 && (chars[end - 1] == '\r' || chars[end - 1] == '\n')
            invariant
                end <= chars@.len(),
                without_line_end(chars@.subrange(0, end as int)) == without_line_end(line@),
            decreases end,
        {
            assert(chars@.subrange(0, end as int).drop_last() =~= chars@.subrange(0, end - 1));
            end = end - 1;
        }
        assert(chars@.subrange(0, chars@.len() as int) =~= line@);
        let ghost normalized = chars@.subrange(0, end as int);
        assert(without_line_end(normalized) == normalized);
        let mut length = self.content_length;
        if end > 0 {
            let mut colon: Vec<char> = Vec::new();
            colon.push(':');
            assert(colon@ =~= seq![':']);
            let mut prefix: Vec<char> = Vec::new();
            let mut k: usize = 0;
            while k < end
                invariant
                    k <= end <= chars@.len(),
                    prefix@ == chars@.subrange(0, k as int),
                decreases end - k,
            {
                prefix.push(chars[k]);
                assert(prefix@ =~= chars@.subrange(0, k + 1));
                k = k + 1;
            }
            assert(prefix@ =~= normalized);
            proof {
                crate::text::lemma_find_from_bounds(prefix@, colon@, 0);
            }
            match find_chars(&prefix, &colon, 0) {
                Some(at) => {
                    let (a, b) = trim_range(&prefix, 0, at);
                    let (c, d) = trim_range(&prefix, at + 1, end);
                    let name_chars = str_chars("Content-Length");
                    let mut name: Vec<char> = Vec::new();
                    let mut i = a;
                    while i < b
                        invariant
                            a <= i <= b <= prefix@.len(),
                            name@ == prefix@.subrange(a as int, i as int),
                        decreases b - i,
                    {
                        name.push(prefix[i]);
                        assert(name@ =~= prefix@.subrange(a as int, i + 1));
                        i = i + 1;
                    }
                    proof {
                        crate::text::lemma_find_from_bounds(prefix@, colon@, 0);
                    }
                    let ghost parts = split_once(normalized, seq![':'])->0;
                    assert(prefix@.subrange(0, at as int) =~= parts.0);
                    assert(prefix@.subrange(at + 1, end as int) =~= parts.1);
                    if chars_eq_ignore_ascii_case(&name, &name_chars) {
                        match parse_unsigned_range(&prefix, c, d, usize::MAX as u64) {
                            Some(n) => {
                                length = n as usize;
                            },
                            None => {
                                let mut message = String::from_str("RTSP Content-Length 无效: ");
                                let mut value = String::new();
                                push_range(&mut value, &prefix, c, d);
                                push_str(&mut message, value.as_str());
                                return Err(protocol_error(message.as_str()));
                            },
                        }
                    }
                },
                None => {},
            }
        }
        let mut k: usize = 0;
        while k < end
            invariant
                k <= end <= chars@.len(),
                self.head@ == old(self).head@ + chars@.subrange(0, k as int),
                !self.complete,
                self.content_length == old(self).content_length,
            decreases end - k,
        {
            self.head.push(chars[k]);
            assert(self.head@ =~= old(self).head@ + chars@.subrange(0, k + 1));
            k = k + 1;
        }
        push_str(&mut self.head, "\r\n");
        self.content_length = length;
        self.complete = end == 0;
        Ok(())
    }

    /// The response, once the head is complete and `body` holds the
    /// announced number of bytes.
    pub fn finish(&self, body: Vec<u8>) -> (r: Result<RtspResponse, AirPlayError>)
        requires
            self.complete,
            body@.len() == self.content_length,
        ensures
            match parse_head(self.head@) {
                Some((code, reason, hs)) => r matches Ok(resp) && resp.status.code == code
                    && resp.status.reason_phrase@ == reason && resp.headers@ == hs && resp.body@ == body@,
                None => r matches Err(AirPlayError::Protocol { .. }),
            },
    {
        RtspResponse::parse_parts(self.head.as_str(), body)
    }
}

} // verus!
