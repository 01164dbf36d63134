//! The message queue server's logic: turning a received buffer into a
//! message, and the reply to a queueing attempt.
use vstd::prelude::*;
use vstd::string::*;
use vstd::utf8::*;

verus! {

/// The characters that `String::from_utf8_lossy` decodes from `bytes`.
pub uninterp spec fn utf8_lossy(bytes: Seq<u8>) -> Seq<char>;

/// `String::from_utf8_lossy`, made owned: decodes `bytes` as UTF-8, with
/// U+FFFD in place of each invalid sequence. The contract names the result
/// `utf8_lossy(bytes)`, and states that valid UTF-8 decodes as such; what is
/// put in place of invalid sequences is left unsaid.
#[verifier::external_body]
fn decode_lossy(bytes: &[u8]) -> (s: String)
    ensures
        s@ == utf8_lossy(bytes@),
        valid_utf8(bytes@) ==> s@ == decode_utf8(bytes@),
{
    String::from_utf8_lossy(bytes).into_owned()
}

/// `chars` without its trailing newlines.
pub open spec fn trim_newlines(chars: Seq<char>) -> Seq<char>
    decreases chars.len(),
{
    if chars.len() > 0 && chars.last() == '\n' {
        trim_newlines(chars.drop_last())
    } else {
        chars
    }
}

/// Trimming keeps a prefix: exactly the trailing newlines are removed, so
/// what remains does not end in a newline and everything removed is one.
pub proof fn lemma_trim_newlines(chars: Seq<char>)
    ensures
        exists|k: int|
            #![trigger chars.subrange(0, k)]
            {
                &&& 0 <= k <= chars.len()
                &&& trim_newlines(chars) == chars.subrange(0, k)
                &&& forall|i: int| k <= i < chars.len() ==> chars[i] == '\n'
                &&& (k > 0 ==> chars[k - 1] != '\n')
            },
    decreases chars.len(),
{
    if chars.len() > 0 && chars.last() == '\n' {
        let rest = chars.drop_last();
        lemma_trim_newlines(rest);
        let k = choose|k: int|
            #![trigger rest.subrange(0, k)]
            {
                &&& 0 <= k <= rest.len()
                &&& trim_newlines(rest) == rest.subrange(0, k)
                &&& forall|i: int| k <= i < rest.len() ==> rest[i] == '\n'
                &&& (k > 0 ==> rest[k - 1] != '\n')
            };
        assert(rest.subrange(0, k) =~= chars.subrange(0, k));
        assert forall|i: int| k <= i < chars.len() implies chars[i] == '\n' by {
            if i < rest.len() {
                assert(rest[i] == chars[i]);
            }
        }
        assert(k > 0 ==> rest[k - 1] == chars[k - 1]);
    } else {
        assert(chars.subrange(0, chars.len() as int) =~= chars);
    }
}

/// `s` without its trailing newlines.
pub fn trim_end_newlines(s: &str) -> (t: &str)
    ensures
        t@ == trim_newlines(s@),
{
    let mut n: usize = s.unicode_len();
    assert(s@.subrange(0, n as int) =~= s@);
    while n > 0 && s.get_char(n - 1) == '\n'
        invariant
            n <= s@.len(),
            trim_newlines(s@) == trim_newlines(s@.subrange(0, n as int)),
        decreases n,
    {
        assert(s@.subrange(0, n as int).drop_last() =~= s@.subrange(0, n - 1));
        n = n - 1;
    }
    assert(trim_newlines(s@.subrange(0, n as int)) == s@.subrange(0, n as int));
    s.substring_char(0, n)
}

/// The message that a received buffer carries: the whole buffer decoded
/// lossily as UTF-8, without trailing newlines.
pub fn queue_message(buffer: &[u8]) -> (msg: String)
    ensures
        msg@ == trim_newlines(utf8_lossy(buffer@)),
        valid_utf8(buffer@) ==> msg@ == trim_newlines(decode_utf8(buffer@)),
{
    let text = decode_lossy(buffer);
    let trimmed = trim_end_newlines(text.as_str());
    trimmed.to_owned()
}

/// The reply to a queueing attempt that succeeded (`true`) or not.
pub fn queue_status(queued: bool) -> (reply: &'static str)
    ensures
        reply@ == if queued {
            "Added to queue"@
        } else {
            "Something went wrong"@
        },
{
    if queued {
        "Added to queue"
    } else {
        "Something went wrong"
    }
}

} // verus!
