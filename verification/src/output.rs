//! The output of a command, kept up to a limit.

use vstd::prelude::*;
use vstd::string::*;

verus! {

/// How much of each output stream of a command is kept.
pub const MAX_OUTPUT_BYTES: usize = 8 * 1024 * 1024;

/// The text that bytes stand for, with U+FFFD for what is not UTF-8.
pub uninterp spec fn utf8_lossy(bytes: Seq<u8>) -> Seq<char>;

/// Calls `String::from_utf8_lossy`, which decodes UTF-8 and puts U+FFFD in the
/// place of what is none.
#[verifier::external_body]
fn text_from_utf8_lossy(bytes: &[u8]) -> (text: String)
    ensures
        text@ == utf8_lossy(bytes@),
        vstd::utf8::valid_utf8(bytes@) ==> text@ == vstd::utf8::decode_utf8(bytes@),
{
    String::from_utf8_lossy(bytes).into_owned()
}

/// What stands at the end of an output that was cut.
pub open spec fn truncation_note() -> Seq<char> {
    "\n[output truncated at 8 MiB]"@
}

/// The text of an output of which `kept` was kept.
pub open spec fn output_text(kept: Seq<u8>, truncated: bool) -> Seq<char> {
    if truncated {
        utf8_lossy(kept) + truncation_note()
    } else {
        utf8_lossy(kept)
    }
}

/// The start of some bytes, up to a limit.
pub open spec fn within(bytes: Seq<u8>, limit: nat) -> Seq<u8> {
    if bytes.len() <= limit {
        bytes
    } else {
        bytes.take(limit as int)
    }
}

/// An output stream as it is read: its start, up to a limit, and whether there
/// was more. Reading goes on past the limit, so that the writer never waits
/// for a reader.
pub struct LimitedOutput {
    limit: usize,
    bytes: Vec<u8>,
    truncated: bool,
}

impl LimitedOutput {
    pub closed spec fn limit(&self) -> nat {
        self.limit as nat
    }

    /// The bytes that were kept.
    pub closed spec fn kept(&self) -> Seq<u8> {
        self.bytes@
    }

    /// Whether bytes were dropped.
    pub closed spec fn truncated(&self) -> bool {
        self.truncated
    }

    /// What is kept is within the limit, and nothing is dropped below it.
    pub open spec fn well_formed(&self) -> bool {
        &&& self.kept().len() <= self.limit()
        &&& self.truncated() ==> self.kept().len() == self.limit()
    }

    /// This is the state after reading `read`.
    pub open spec fn holds(&self, read: Seq<u8>) -> bool {
        &&& self.kept() == within(read, self.limit())
        &&& self.truncated() == (read.len() > self.limit())
    }

    /// An output of which nothing was read.
    pub fn new(limit: usize) -> (output: LimitedOutput)
        ensures
            output.well_formed(),
            output.limit() == limit,
            output.holds(Seq::empty()),
    {
        let output = LimitedOutput { limit, bytes: Vec::new(), truncated: false };
        assert(output.kept() =~= Seq::empty());
        output
    }

    /// Takes in the next bytes of the stream.
    pub fn absorb(&mut self, chunk: &[u8])
        requires
            old(self).well_formed(),
        ensures
            final(self).well_formed(),
            absorbed(*old(self), chunk@, *final(self)),
    {
        let remaining: usize = self.limit.saturating_sub(self.bytes.len());
        let take: usize = if chunk.len() < remaining {
            chunk.len()
        } else {
            remaining
        };
        let part = &chunk[0..take];
        self.bytes.extend_from_slice(part);
        if take < chunk.len() {
            self.truncated = true;
        }
        assert(self.kept() =~= within(old(self).kept() + chunk@, old(self).limit()));
    }

    /// The text of the output, with a note where it was cut.
    pub fn finish(self) -> (text: String)
        ensures
            text@ == output_text(self.kept(), self.truncated()),
            vstd::utf8::valid_utf8(self.kept()) ==> text@ == vstd::utf8::decode_utf8(self.kept())
                + (if self.truncated() {
                truncation_note()
            } else {
                Seq::empty()
            }),
    {
        let mut text = text_from_utf8_lossy(self.bytes.as_slice());
        if self.truncated {
            text.append("\n[output truncated at 8 MiB]");
        }
        text
    }
}

/// `after` is `before` with the next bytes taken in.
pub open spec fn absorbed(before: LimitedOutput, chunk: Seq<u8>, after: LimitedOutput) -> bool {
    &&& after.limit() == before.limit()
    &&& after.kept() == within(before.kept() + chunk, before.limit())
    &&& after.truncated() == (before.truncated() || before.kept().len() + chunk.len()
        > before.limit())
}

/// Chunks one after the other.
pub open spec fn all_of(chunks: Seq<Seq<u8>>) -> Seq<u8>
    decreases chunks.len(),
{
    if chunks.len() == 0 {
        Seq::empty()
    } else {
        all_of(chunks.drop_last()) + chunks.last()
    }
}

/// What is kept of a stream, and whether it was cut, depends on what was
/// written to it and not on the chunks in which it was read: it is the start
/// of all that was written, up to the limit, and it was cut where there was
/// more.
pub proof fn law_chunks_do_not_matter(chunks: Seq<Seq<u8>>, states: Seq<LimitedOutput>)
    requires
        states.len() == chunks.len() + 1,
        states[0].holds(Seq::empty()),
        forall|i: int|
            0 <= i < chunks.len() ==> absorbed(states[i], #[trigger] chunks[i], states[i + 1]),
    ensures
        states.last().limit() == states[0].limit(),
        states.last().holds(all_of(chunks)),
    decreases chunks.len(),
{
    if chunks.len() > 0 {
        let n = chunks.len() - 1;
        let before = states.drop_last();
        assert forall|i: int| 0 <= i < n implies absorbed(
            before[i],
            #[trigger] chunks.drop_last()[i],
            before[i + 1],
        ) by {
            assert(absorbed(states[i], chunks[i], states[i + 1]));
        }
        law_chunks_do_not_matter(chunks.drop_last(), before);
        assert(absorbed(states[n], chunks[n], states[n + 1]));
        assert(states[n + 1].kept() =~= within(all_of(chunks), states[0].limit()));
    }
}

/// All chunks are there, one after the other: those of one list and then those
/// of the next, and a single one as it is.
pub proof fn law_all_of(a: Seq<Seq<u8>>, b: Seq<Seq<u8>>, chunk: Seq<u8>)
    ensures
        all_of(a + b) == all_of(a) + all_of(b),
        all_of(seq![chunk]) == chunk,
    decreases b.len(),
{
    assert(seq![chunk].drop_last() =~= Seq::<Seq<u8>>::empty());
    reveal_with_fuel(all_of, 2);
    assert(all_of(seq![chunk]) =~= chunk);
    if b.len() == 0 {
        assert(a + b =~= a);
        assert(all_of(a) + all_of(b) =~= all_of(a));
    } else {
        assert((a + b).drop_last() =~= a + b.drop_last());
        law_all_of(a, b.drop_last(), chunk);
        assert(all_of(a + b) =~= all_of(a) + all_of(b));
    }
}

/// What is kept of a stream is what was written to it, byte for byte, up to the
/// limit; and what is beyond the limit is missed.
pub proof fn law_keeps_what_was_written(chunks: Seq<Seq<u8>>, states: Seq<LimitedOutput>)
    requires
        states.len() == chunks.len() + 1,
        states[0].kept().len() == 0,
        !states[0].truncated(),
        forall|i: int|
            0 <= i < chunks.len() ==> absorbed(states[i], #[trigger] chunks[i], states[i + 1]),
    ensures
        states.last().limit() == states[0].limit(),
        states.last().kept().len() == (if all_of(chunks).len() <= states[0].limit() {
            all_of(chunks).len()
        } else {
            states[0].limit()
        }),
        forall|i: int|
            0 <= i < states.last().kept().len() ==> #[trigger] states.last().kept()[i] == all_of(
                chunks,
            )[i],
        states.last().truncated() <==> all_of(chunks).len() > states[0].limit(),
    decreases chunks.len(),
{
    if chunks.len() > 0 {
        let n = chunks.len() - 1;
        let before = states.drop_last();
        assert forall|i: int| 0 <= i < n implies absorbed(
            before[i],
            #[trigger] chunks.drop_last()[i],
            before[i + 1],
        ) by {
            assert(absorbed(states[i], chunks[i], states[i + 1]));
        }
        law_keeps_what_was_written(chunks.drop_last(), before);
        assert(absorbed(states[n], chunks[n], states[n + 1]));
        assert(before.last() == states[n]);
        let joint = states[n].kept() + chunks[n];
        let kept = states[n + 1].kept();
        assert forall|i: int| 0 <= i < kept.len() implies #[trigger] kept[i] == all_of(chunks)[i] by {
            assert(kept[i] == joint[i]);
        }
    }
}

/// One chunk more adds its own bytes behind those that were kept, each as it is,
/// as far as the limit allows.
pub proof fn law_absorbs_bytes(before: LimitedOutput, chunk: Seq<u8>, after: LimitedOutput)
    requires
        before.well_formed(),
        absorbed(before, chunk, after),
    ensures
        after.limit() == before.limit(),
        before.kept().len() <= after.kept().len() <= before.limit(),
        forall|i: int|
            0 <= i < before.kept().len() ==> #[trigger] after.kept()[i] == before.kept()[i],
        forall|i: int|
            0 <= i < after.kept().len() - before.kept().len() ==> #[trigger] chunk[i]
                == after.kept()[before.kept().len() + i],
        before.kept().len() + chunk.len() <= before.limit() ==> {
            &&& after.kept().len() == before.kept().len() + chunk.len()
            &&& after.truncated() == before.truncated()
        },
        before.kept().len() + chunk.len() > before.limit() ==> {
            &&& after.kept().len() == before.limit()
            &&& after.truncated()
        },
{
    let joint = before.kept() + chunk;
    assert forall|i: int| 0 <= i < after.kept().len() implies #[trigger] after.kept()[i]
        == joint[i] by {}
    assert forall|i: int| 0 <= i < after.kept().len() - before.kept().len() implies #[trigger] chunk[i]
        == after.kept()[before.kept().len() + i] by {
        assert(after.kept()[before.kept().len() + i] == joint[before.kept().len() + i]);
    }
}

/// The text of an output is the text of the bytes that were kept, to which a
/// note is added exactly where some were missed.
pub proof fn law_output_text(kept: Seq<u8>)
    ensures
        output_text(kept, false) == utf8_lossy(kept),
        output_text(kept, true).len() == utf8_lossy(kept).len() + 28,
        output_text(kept, true).take(utf8_lossy(kept).len() as int) == utf8_lossy(kept),
        output_text(kept, true).skip(utf8_lossy(kept).len() as int)
            == "\n[output truncated at 8 MiB]"@,
        MAX_OUTPUT_BYTES == 8388608,
{
    reveal_strlit("\n[output truncated at 8 MiB]");
    let text = output_text(kept, true);
    assert(text.take(utf8_lossy(kept).len() as int) =~= utf8_lossy(kept));
    assert(text.skip(utf8_lossy(kept).len() as int) =~= "\n[output truncated at 8 MiB]"@);
}

/// An output that holds what was read has kept its start, byte for byte, and tells
/// whether there was more; one that has read nothing has kept nothing.
pub proof fn law_holds_what_was_read(output: LimitedOutput, read: Seq<u8>)
    requires
        output.holds(read),
    ensures
        output.kept().len() <= read.len(),
        output.kept().len() <= output.limit(),
        forall|i: int| 0 <= i < output.kept().len() ==> #[trigger] output.kept()[i] == read[i],
        read.len() <= output.limit() ==> output.kept().len() == read.len() && !output.truncated(),
        read.len() > output.limit() ==> output.kept().len() == output.limit()
            && output.truncated(),
{
}

} // verus!
