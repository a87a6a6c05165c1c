//! How a chat line is put together for sending and taken apart for display.
//!
//! A payload is the sender's prompt followed by the text. The prompt ends in
//! the delimiter and one blank; the receiver shows everything up to there as
//! the sender tag and what follows as the body. Only the first delimiter
//! counts, so a body may hold the delimiter itself.

use vstd::prelude::*;
use vstd::string::*;

verus! {

/// The byte that ends the sender tag: `$`.
pub const DELIMITER: u8 = 0x24;

/// The blank that a prompt puts behind the delimiter.
pub const BLANK: u8 = 0x20;

/// Whether the first delimiter of `s` stands at `i`.
pub open spec fn first_delimiter_at(s: Seq<u8>, i: int) -> bool {
    &&& 0 <= i < s.len()
    &&& s[i] == DELIMITER
    &&& forall|j: int| 0 <= j < i ==> s[j] != DELIMITER
}

/// Whether `s` holds a delimiter.
pub open spec fn has_delimiter(s: Seq<u8>) -> bool {
    exists|i: int| first_delimiter_at(s, i)
}

/// Where the tag ends when the first delimiter stands at `i`: behind the
/// delimiter, and behind the blank after it if there is one.
pub open spec fn tag_end(s: Seq<u8>, i: int) -> int {
    if i + 1 < s.len() && s[i + 1] == BLANK {
        i + 2
    } else {
        i + 1
    }
}

/// The length of the sender tag of `s`: zero where `s` has no delimiter.
pub open spec fn tag_len(s: Seq<u8>) -> int {
    if has_delimiter(s) {
        tag_end(s, choose|i: int| first_delimiter_at(s, i))
    } else {
        0
    }
}

/// The sender tag of a payload.
pub open spec fn tag_of(s: Seq<u8>) -> Seq<u8> {
    s.take(tag_len(s))
}

/// The body of a payload.
pub open spec fn body_of(s: Seq<u8>) -> Seq<u8> {
    s.skip(tag_len(s))
}

/// The text of a prompt for a user on a host.
pub open spec fn prompt_text(user: Seq<char>, host: Seq<char>) -> Seq<char> {
    user + "@"@ + host + ":~$ "@
}

/// A received payload, taken apart for display.
#[derive(Debug, PartialEq, Eq)]
pub struct Line {
    pub tag: Vec<u8>,
    pub body: Vec<u8>,
}

/// A line as a plain value.
pub struct LineView {
    pub tag: Seq<u8>,
    pub body: Seq<u8>,
}

impl View for Line {
    type V = LineView;

    open spec fn view(&self) -> LineView {
        LineView { tag: self.tag@, body: self.body@ }
    }
}

/// The line that a payload is shown as.
pub open spec fn line_of(s: Seq<u8>) -> LineView {
    LineView { tag: tag_of(s), body: body_of(s) }
}

/// A payload has at most one first delimiter.
pub proof fn lemma_first_delimiter_unique(s: Seq<u8>, i: int, k: int)
    requires
        first_delimiter_at(s, i),
        first_delimiter_at(s, k),
    ensures
        i == k,
{
    if i < k {
        assert(s[i] != DELIMITER);
    }
    if k < i {
        assert(s[k] != DELIMITER);
    }
}

/// The tag of a payload whose first delimiter stands at `i` ends at
/// `tag_end(s, i)`.
pub proof fn lemma_tag_len_at(s: Seq<u8>, i: int)
    requires
        first_delimiter_at(s, i),
    ensures
        tag_len(s) == tag_end(s, i),
        0 < tag_len(s) <= s.len(),
{
    let k = choose|k: int| first_delimiter_at(s, k);
    lemma_first_delimiter_unique(s, i, k);
}

/// A prompt on the front of a text comes off again whole: where `head` holds
/// no delimiter, the payload made of `head`, the delimiter, a blank and
/// `text` has `head`, delimiter and blank as its tag and `text` as its body,
/// whatever `text` holds.
pub proof fn lemma_split_restores(head: Seq<u8>, text: Seq<u8>)
    requires
        forall|j: int| 0 <= j < head.len() ==> head[j] != DELIMITER,
    ensures
        tag_of(head + seq![DELIMITER, BLANK] + text) == head + seq![DELIMITER, BLANK],
        body_of(head + seq![DELIMITER, BLANK] + text) == text,
{
    let prompt = head + seq![DELIMITER, BLANK];
    let s = prompt + text;
    let i = head.len() as int;
    assert(s[i] == DELIMITER);
    assert(s[i + 1] == BLANK);
    assert forall|j: int| 0 <= j < i implies s[j] != DELIMITER by {
        assert(s[j] == head[j]);
    }
    assert(first_delimiter_at(s, i));
    lemma_tag_len_at(s, i);
    assert(tag_len(s) == i + 2);
    assert(s.take(i + 2) =~= prompt);
    assert(s.skip(i + 2) =~= text);
}

/// Tag and body of a payload, put together again, are the payload.
pub proof fn lemma_split_loses_nothing(s: Seq<u8>)
    ensures
        tag_of(s) + body_of(s) == s,
{
    if has_delimiter(s) {
        let i = choose|i: int| first_delimiter_at(s, i);
        lemma_tag_len_at(s, i);
    }
    assert(s.take(tag_len(s)) + s.skip(tag_len(s)) =~= s);
}

/// Takes a received payload apart at its first delimiter. The tag runs up to
/// and including the delimiter and the blank behind it; the body is the rest.
/// A payload without a delimiter is all body.
pub fn split_line(payload: &[u8]) -> (line: Line)
    ensures
        line@ == line_of(payload@),
{
    let n = payload.len();
    let mut i: usize = 0;
    while i < n && payload[i] != DELIMITER
        invariant
            n == payload@.len(),
            i <= n,
            forall|j: int| 0 <= j < i ==> payload@[j] != DELIMITER,
        decreases n - i,
    {
        i += 1;
    }
    let mut cut: usize = 0;
    if i < n {
        proof {
            assert(first_delimiter_at(payload@, i as int));
            lemma_tag_len_at(payload@, i as int);
        }
        cut = i + 1;
        if cut < n && payload[cut] == BLANK {
            cut += 1;
        }
    } else {
        proof {
            assert forall|k: int| !first_delimiter_at(payload@, k) by {
                if 0 <= k < n {
                    assert(payload@[k] != DELIMITER);
                }
            }
        }
    }
    assert(cut as int == tag_len(payload@));
    let mut tag: Vec<u8> = Vec::new();
    let mut body: Vec<u8> = Vec::new();
    let mut k: usize = 0;
    while k < n
        invariant
            n == payload@.len(),
            k <= n,
            cut <= n,
            tag@ == payload@.take(if k < cut { k as int } else { cut as int }),
            body@ == payload@.subrange(cut as int, if k < cut { cut as int } else { k as int }),
        decreases n - k,
    {
        if k < cut {
            tag.push(payload[k]);
            assert(tag@ =~= payload@.take(k + 1));
        } else {
            body.push(payload[k]);
            assert(body@ =~= payload@.subrange(cut as int, k + 1));
        }
        k += 1;
        assert(body@ =~= payload@.subrange(cut as int, if k < cut { cut as int } else { k as int }));
    }
    assert(body@ =~= payload@.skip(cut as int));
    Line { tag, body }
}

/// The prompt of a user on a host: name, `@`, host, and `:~$ ` with its
/// closing blank. It heads every line the user sends.
pub fn prompt_for(user: &str, host: &str) -> (prompt: String)
    ensures
        prompt@ == prompt_text(user@, host@),
{
    let mut prompt = String::from_str(user);
    prompt.append("@");
    prompt.append(host);
    prompt.append(":~$ ");
    prompt
}

} // verus!
