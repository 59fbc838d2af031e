//! The reversal service's handler: a text payload comes back with its
//! characters (Unicode scalar values) in reverse order.
use vstd::prelude::*;

verus! {

/// The characters of `s`, last first.
pub open spec fn reversed(s: Seq<char>) -> Seq<char> {
    Seq::new(s.len(), |i: int| s[s.len() - 1 - i])
}

/// Relies on std's `String::push`: appends one character at the end.
#[verifier::external_body]
fn push_char(s: &mut String, c: char)
    ensures
        final(s)@ == old(s)@.push(c),
{
    s.push(c)
}

/// Returns `text` with its characters in reverse order; multi-byte characters
/// stay whole.
pub fn reverse_text(text: &str) -> (r: String)
    ensures
        r@ == reversed(text@),
{
    let mut chars: Vec<char> = Vec::new();
    for c in it: text.chars()
        invariant
            chars@ == it.seq().take(it.index() as int),
    {
        chars.push(c);
    }
    assert(chars@ == text@);
    let mut out = String::new();
    let mut i: usize = chars.len();
    while i > 0
        invariant
            i <= chars.len(),
            chars@ == text@,
            out@ == reversed(text@).take(chars.len() - i),
        decreases i,
    {
        i = i - 1;
        push_char(&mut out, chars[i]);
        assert(out@ =~= reversed(text@).take(chars.len() - i));
    }
    assert(out@ =~= reversed(text@));
    out
}

/// A request to the reversal service: one text field.
pub struct ReverseRequest {
    pub text: String,
}

/// The reversal service's answer: one text field.
pub struct ReverseReply {
    pub text: String,
}

/// The reversal service. It holds no state: each request is answered from
/// its own payload alone.
pub struct MyBridge;

impl MyBridge {
    pub fn new() -> (r: MyBridge) {
        MyBridge
    }

    /// Answers a request with its text reversed character by character.
    pub fn reverse(&self, request: ReverseRequest) -> (r: ReverseReply)
        ensures
            r.text@ == reversed(request.text@),
    {
        let text = request.text;
        ReverseReply { text: reverse_text(text.as_str()) }
    }
}

/// Reversing twice gives back the text, character for character.
pub proof fn lemma_reverse_twice(t: Seq<char>)
    ensures
        reversed(reversed(t)) == t,
{
    assert(reversed(reversed(t)) =~= t);
}

/// Each payload gets its own answer: different payloads never get the same
/// reversed text, and each answer is the reverse of the payload it came from.
pub proof fn lemma_reverse_distinct(a: Seq<char>, b: Seq<char>)
    requires
        a != b,
    ensures
        reversed(a) != reversed(b),
        reversed(reversed(a)) == a,
        reversed(reversed(b)) == b,
{
    lemma_reverse_twice(a);
    lemma_reverse_twice(b);
}

} // verus!
