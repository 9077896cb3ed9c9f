//! Accumulation of the child's captured output, the exit-code fallback, and
//! the console summary text.
//!
//! The streams themselves are read outside the library; each line read is
//! handed here as plain bytes, echoed with a line terminator, and appended
//! with a line terminator, so the echoed bytes and the accumulated bytes
//! agree exactly.

use vstd::prelude::*;
use vstd::string::*;

verus! {

/// What String::from_utf8_lossy returns for the given bytes: it depends on
/// the bytes alone.
pub uninterp spec fn lossy_text_of(bytes: Seq<u8>) -> Seq<char>;

/// Relies on String::from_utf8_lossy: the result is a function of the bytes
/// alone (invalid sequences are replaced, never causing failure), and an
/// empty input gives an empty string.
#[verifier::external_body]
fn bytes_to_text_lossy(bytes: &Vec<u8>) -> (r: String)
    ensures
        r@ == lossy_text_of(bytes@),
        bytes@.len() == 0 ==> r@.len() == 0,
{
    String::from_utf8_lossy(bytes).into_owned()
}

/// The buffer a sequence of captured lines accumulates to: each line
/// followed by exactly one line-feed byte, in their original order.
pub open spec fn accumulated(lines: Seq<Seq<u8>>) -> Seq<u8>
    decreases lines.len(),
{
    if lines.len() == 0 {
        Seq::<u8>::empty()
    } else {
        accumulated(lines.drop_last()) + lines.last() + seq![10u8]
    }
}

/// Capturing one more line extends the accumulated buffer by exactly that
/// line plus a single line feed: draining a stream line by line therefore
/// leaves the buffer equal to the lines it produced, each followed by one
/// newline, in their original order, byte for byte.
pub proof fn lemma_accumulated_push(lines: Seq<Seq<u8>>, line: Seq<u8>)
    ensures
        accumulated(lines.push(line)) == accumulated(lines) + line + seq![10u8],
{
    assert(lines.push(line).drop_last() =~= lines);
    assert(lines.push(line).last() == line);
}

/// The shared buffer of combined output text. It is created empty at launch,
/// grown one line at a time while the child's streams are drained, and turned
/// into text once the child has exited.
pub struct OutputAccumulator {
    buf: Vec<u8>,
}

impl View for OutputAccumulator {
    type V = Seq<u8>;

    closed spec fn view(&self) -> Seq<u8> {
        self.buf@
    }
}

impl OutputAccumulator {
    /// A fresh, empty buffer: nothing has been captured yet.
    pub fn new() -> (r: OutputAccumulator)
        ensures
            r@ == Seq::<u8>::empty(),
    {
        OutputAccumulator { buf: Vec::new() }
    }

    /// Appends one captured line plus a single line-feed byte.
    pub fn push_line(&mut self, line: &[u8])
        ensures
            final(self)@ == old(self)@ + line@ + seq![10u8],
    {
        self.buf.extend_from_slice(line);
        self.buf.push(10u8);
    }

    /// Appends a whole sequence of lines, each followed by exactly one
    /// line-feed byte, in their original order.
    pub fn push_lines(&mut self, lines: &Vec<Vec<u8>>)
        ensures
            final(self)@ == old(self)@ + accumulated(lines.deep_view()),
    {
        let ghost all = lines.deep_view();
        proof {
            assert(accumulated(all.take(0)) =~= Seq::<u8>::empty());
            assert(old(self)@ + accumulated(all.take(0)) =~= old(self)@);
        }
        let n = lines.len();
        let mut i: usize = 0;
        while i < n
            invariant
                n == lines.len(),
                i <= n,
                all == lines.deep_view(),
                self@ == old(self)@ + accumulated(all.take(i as int)),
            decreases n - i,
        {
            proof {
                assert(all[i as int] == lines[i as int]@);
                assert(all.take(i + 1).drop_last() =~= all.take(i as int));
                assert(all.take(i + 1).last() == all[i as int]);
            }
            self.push_line(lines[i].as_slice());
            i = i + 1;
        }
        proof {
            assert(all.take(n as int) =~= all);
        }
    }

    /// Freezes the buffer into text once both streams are drained. Invalid
    /// byte sequences are replaced, never causing failure.
    pub fn into_text(self) -> (r: String)
        ensures
            r@ == lossy_text_of(self@),
            self@.len() == 0 ==> r@.len() == 0,
    {
        bytes_to_text_lossy(&self.buf)
    }
}

/// The child's exit code, defaulting to 1 when the process was terminated
/// without a reportable code (e.g. by a signal).
pub fn exit_code_or_default(code: Option<i32>) -> (r: i32)
    ensures
        code matches Some(c) ==> r == c,
        code is None ==> r == 1,
{
    match code {
        Some(c) => c,
        None => 1,
    }
}

/// The summary block printed after the child exits: a separator, the echoed
/// command line with its duration suffix, the full captured text with a
/// guaranteed trailing newline, and a closing separator.
pub open spec fn summary_spec(cmd: Seq<char>, dur: Seq<char>, text: Seq<char>) -> Seq<char> {
    "\n---\n\u{276f} "@ + cmd + dur + "\n"@ + text + (if text.len() > 0 && text.last() == '\n' {
        Seq::<char>::empty()
    } else {
        "\n"@
    }) + "---\n\n"@
}

/// Builds the console summary block for the captured output.
pub fn summary_text(command_line: &str, duration_suffix: &str, output_text: &str) -> (r: String)
    ensures
        r@ == summary_spec(command_line@, duration_suffix@, output_text@),
{
    let mut out = String::from_str("\n---\n\u{276f} ");
    out.append(command_line);
    out.append(duration_suffix);
    out.append("\n");
    out.append(output_text);
    let n = output_text.unicode_len();
    if !(n > 0 && output_text.get_char(n - 1) == '\n') {
        out.append("\n");
    }
    out.append("---\n\n");
    out
}

} // verus!
