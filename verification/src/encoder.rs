//! The JSON document of a list of records, produced one fragment at a time.

use crate::adapter::ResponsePhase;
use crate::adapter::ResponseStreamAdapter;
use crate::adapter::SinkAction;
use crate::adapter::SinkFailure;
use crate::adapter::WriteError;
use crate::record::OutputRecord;
use rustc_serialize::json::EncoderError;
use vstd::prelude::*;
use vstd::string::*;

verus! {

#[verifier::external_type_specification]
#[verifier::external_body]
pub struct ExEncoderError(EncoderError);

/// Whether a character stands for itself inside a JSON string: anything but
/// the quotation mark, the backslash and the control characters.
pub open spec fn json_plain_char(c: char) -> bool {
    c != '"' && c != '\\' && c != '\x7f' && c as u32 >= 0x20
}

/// Whether every character of a text stands for itself inside a JSON string.
pub open spec fn json_plain(text: Seq<char>) -> bool {
    forall|i: int| 0 <= i < text.len() ==> json_plain_char(#[trigger] text[i])
}

/// The JSON string, quotation marks included, that `rustc_serialize` writes
/// for a text in which some character needs an escape.
pub uninterp spec fn json_escaped(text: Seq<char>) -> Seq<char>;

/// The JSON string for a text, quotation marks included.
pub open spec fn json_string(text: Seq<char>) -> Seq<char> {
    if json_plain(text) {
        seq!['"'] + text + seq!['"']
    } else {
        json_escaped(text)
    }
}

/// `rustc_serialize::json::encode` on a string slice. The encoder writes into
/// a `String`, which takes every write, and a string is no map key, so the
/// call is trusted to succeed. Its text is the argument between quotation
/// marks where no character needs an escape; otherwise it is only given the
/// name `json_escaped`.
#[verifier::external_body]
fn quote_json(text: &str) -> (out: Result<String, EncoderError>)
    ensures
        out is Ok,
        out matches Ok(quoted) ==> (json_plain(text@) ==> quoted@ == seq!['"'] + text@ + seq!['"']),
        out matches Ok(quoted) ==> (!json_plain(text@) ==> quoted@ == json_escaped(text@)),
{
    rustc_serialize::json::encode(&text)
}

/// The JSON object of one record: its single field, under the key `time`.
pub open spec fn record_text(time: Seq<char>) -> Seq<char> {
    "{\"time\":"@ + json_string(time) + "}"@
}

/// The fragment that carries the record at `index`: the record's object,
/// behind a comma unless it is the first.
pub open spec fn element_text(index: int, time: Seq<char>) -> Seq<char> {
    if index == 0 {
        record_text(time)
    } else {
        ","@ + record_text(time)
    }
}

/// The fragments of the JSON array of the records, in the order they are
/// written: the opening bracket, one fragment per record, the closing bracket.
pub open spec fn body_fragments(times: Seq<Seq<char>>) -> Seq<Seq<char>> {
    seq!["["@] + Seq::new(times.len(), |i: int| element_text(i, times[i])) + seq!["]"@]
}

/// Every fragment of a document: the body and then one newline.
pub open spec fn document_fragments(times: Seq<Seq<char>>) -> Seq<Seq<char>> {
    body_fragments(times).push("\n"@)
}

/// The timestamps of a list of records.
pub open spec fn times_of(records: Seq<OutputRecord>) -> Seq<Seq<char>> {
    Seq::new(records.len(), |i: int| records[i]@)
}

/// The objects of the records, in order, with a comma between neighbours
/// and none at either end.
pub open spec fn joined_records(times: Seq<Seq<char>>) -> Seq<char>
    decreases times.len(),
{
    if times.len() == 0 {
        Seq::<char>::empty()
    } else if times.len() == 1 {
        record_text(times[0])
    } else {
        joined_records(times.drop_last()) + ","@ + record_text(times.last())
    }
}

/// The document as it stands on the wire: the JSON array of the records and
/// one newline.
pub open spec fn document_text(times: Seq<Seq<char>>) -> Seq<char> {
    "["@ + joined_records(times) + "]"@ + "\n"@
}

/// A record whose timestamp needs no escape is written as the object with
/// the one key `time` and the timestamp between quotation marks, with no
/// character besides.
pub proof fn lemma_plain_record_text(time: Seq<char>)
    requires
        json_plain(time),
    ensures
        record_text(time) == "{\"time\":\""@ + time + "\"}"@,
{
    reveal_strlit("{\"time\":");
    reveal_strlit("}");
    reveal_strlit("{\"time\":\"");
    reveal_strlit("\"}");
    assert(record_text(time) =~= "{\"time\":\""@ + time + "\"}"@);
}

/// A document has one fragment per record and three besides.
pub proof fn lemma_fragment_count(times: Seq<Seq<char>>)
    ensures
        document_fragments(times).len() == times.len() + 3,
        body_fragments(times).len() == times.len() + 2,
{
}

/// The last fragment of a document is a newline, and it is the only fragment
/// that is one: the body holds no newline fragment.
pub proof fn lemma_one_trailing_newline(times: Seq<Seq<char>>)
    ensures
        document_fragments(times).last() == "\n"@,
        document_fragments(times).drop_last() == body_fragments(times),
        forall|i: int|
            0 <= i < body_fragments(times).len() ==> #[trigger] body_fragments(times)[i] != "\n"@,
{
    reveal_strlit("\n");
    reveal_strlit("[");
    reveal_strlit("]");
    reveal_strlit(",");
    reveal_strlit("{\"time\":");
    assert(document_fragments(times).drop_last() =~= body_fragments(times));
    assert forall|i: int| 0 <= i < body_fragments(times).len() implies #[trigger] body_fragments(
        times,
    )[i] != "\n"@ by {
        let fragment = body_fragments(times)[i];
        if 0 < i <= times.len() {
            let index = i - 1;
            assert(fragment == element_text(index, times[index]));
            assert(fragment[0] == '{' || fragment[0] == ',');
        } else {
            assert(fragment[0] == '[' || fragment[0] == ']');
        }
    }
}

/// The fragments of a document, laid end to end, are the document's text:
/// the records in their order between brackets, a comma between neighbours,
/// and the newline.
pub proof fn lemma_fragments_spell_document(times: Seq<Seq<char>>)
    ensures
        document_fragments(times).flatten() == document_text(times),
{
    broadcast use Seq::lemma_flatten_push;

    lemma_opening_spells_records(times);
    let opening = seq!["["@] + Seq::new(times.len(), |i: int| element_text(i, times[i]));
    assert(body_fragments(times) =~= opening.push("]"@));
    assert(document_fragments(times).flatten() =~= document_text(times));
}

/// The opening bracket and the fragments of the records, laid end to end.
proof fn lemma_opening_spells_records(times: Seq<Seq<char>>)
    ensures
        (seq!["["@] + Seq::new(times.len(), |i: int| element_text(i, times[i]))).flatten() == "["@
            + joined_records(times),
    decreases times.len(),
{
    broadcast use Seq::lemma_flatten_push;

    let opening = seq!["["@] + Seq::new(times.len(), |i: int| element_text(i, times[i]));
    if times.len() == 0 {
        assert(opening =~= Seq::<Seq<char>>::empty().push("["@));
        assert(Seq::<Seq<char>>::empty().flatten() =~= Seq::<char>::empty());
        assert(opening.flatten() =~= "["@ + joined_records(times));
    } else {
        let shorter = times.drop_last();
        let before = seq!["["@] + Seq::new(shorter.len(), |i: int| element_text(i, shorter[i]));
        lemma_opening_spells_records(shorter);
        let index = times.len() - 1;
        assert(opening =~= before.push(element_text(index, times[index])));
        if times.len() == 1 {
            assert(joined_records(shorter) =~= Seq::<char>::empty());
        }
        assert(opening.flatten() =~= "["@ + joined_records(times));
    }
}

/// Writes one record as a JSON object.
pub fn encode_record(record: &OutputRecord) -> (text: String)
    ensures
        text@ == record_text(record@),
{
    let quoted = match quote_json(record.time.as_str()) {
        Ok(quoted) => quoted,
        Err(_) => vstd::pervasive::unreached(),
    };
    let mut text = String::from_str("{\"time\":");
    text.append(quoted.as_str());
    text.append("}");
    text
}

/// Where an encoder stands in its document.
#[derive(Clone, Copy, Debug, PartialEq, Eq)]
enum Stage {
    OpenArray,
    Element,
    CloseArray,
    Newline,
    Finished,
}

/// A JSON document on its way to a response body.
///
/// The encoder never holds the text of the document. It names the next write
/// with [`next_action`](Self::next_action), builds that one fragment from the
/// records, and moves on when [`settle`](Self::settle) is told that the sink
/// took it. The first write that the sink turns down ends the document where
/// it stands.
pub struct StreamingJsonEncoder {
    records: Vec<OutputRecord>,
    stage: Stage,
    index: usize,
    adapter: ResponseStreamAdapter,
    aborted: bool,
}

impl StreamingJsonEncoder {
    #[verifier::type_invariant]
    spec fn well_formed(self) -> bool {
        self.stage is Element ==> self.index < self.records.len()
    }

    /// The timestamps being written, in order.
    pub closed spec fn times(self) -> Seq<Seq<char>> {
        times_of(self.records@)
    }

    /// How many fragments of the document the sink has taken.
    pub closed spec fn position(self) -> nat {
        match self.stage {
            Stage::OpenArray => 0,
            Stage::Element => (1 + self.index) as nat,
            Stage::CloseArray => 1 + self.records.len() as nat,
            Stage::Newline => 2 + self.records.len() as nat,
            Stage::Finished => 3 + self.records.len() as nat,
        }
    }

    /// Whether a write was turned down and the document given up.
    pub closed spec fn aborted(self) -> bool {
        self.aborted
    }

    /// The phase of the response the document is written to.
    pub closed spec fn phase(self) -> ResponsePhase {
        self.adapter.phase()
    }

    /// Whether the sink has taken every fragment, the newline included.
    pub open spec fn finished(self) -> bool {
        self.position() == document_fragments(self.times()).len()
    }

    /// Starts the document of `records` on the response behind `adapter`.
    pub fn write_document(records: Vec<OutputRecord>, adapter: ResponseStreamAdapter) -> (encoder:
        Self)
        ensures
            encoder.times() == times_of(records@),
            encoder.position() == 0,
            !encoder.aborted(),
            encoder.phase() == adapter.phase(),
    {
        StreamingJsonEncoder { records, stage: Stage::OpenArray, index: 0, adapter, aborted: false }
    }

    /// Whether the sink has taken every fragment.
    pub fn is_finished(&self) -> (done: bool)
        ensures
            done == self.finished(),
    {
        proof {
            use_type_invariant(self);
        }
        match self.stage {
            Stage::Finished => true,
            _ => false,
        }
    }

    /// Whether the document was given up.
    pub fn is_aborted(&self) -> (given_up: bool)
        ensures
            given_up == self.aborted(),
    {
        self.aborted
    }

    /// The write that the document needs next, or `None` once it is finished
    /// or given up.
    ///
    /// The write carries the UTF-8 bytes of the one fragment at the encoder's
    /// position, and asks for the status line and headers first while the
    /// response has not started. Asking again before `settle` names the same
    /// write again.
    pub fn next_action(&self) -> (action: Option<SinkAction>)
        ensures
            self.aborted() || self.finished() ==> action is None,
            !self.aborted() && !self.finished() ==> {
                &&& action matches Some(SinkAction::Write { head_first, bytes })
                &&& head_first == (self.phase() is NotStarted)
                &&& bytes@ == vstd::utf8::encode_utf8(
                    document_fragments(self.times())[self.position() as int],
                )
            },
    {
        proof {
            use_type_invariant(self);
            reveal_strlit("[");
            reveal_strlit("]");
            reveal_strlit("\n");
            reveal_strlit(",");
            reveal_strlit("}");
        }
        if self.aborted {
            return None;
        }
        let fragment: String = match self.stage {
            Stage::OpenArray => String::from_str("["),
            Stage::Element => {
                let record = encode_record(&self.records[self.index]);
                if self.index == 0 {
                    record
                } else {
                    let mut text = String::from_str(",");
                    text.append(record.as_str());
                    text
                }
            },
            Stage::CloseArray => String::from_str("]"),
            Stage::Newline => String::from_str("\n"),
            Stage::Finished => {
                return None;
            },
        };
        Some(self.adapter.write_fragment(fragment.as_str()))
    }

    /// Takes in what the sink answered to the write that `next_action` named.
    ///
    /// A write that the sink took moves the encoder to the next fragment. A
    /// write that it turned down gives the document up: nothing that was sent
    /// is taken back, and nothing more will be asked for. Either way the
    /// answer is handed on as the adapter gives it. Once the document is
    /// finished or given up, an answer changes nothing.
    pub fn settle(&mut self, outcome: Result<usize, SinkFailure>) -> (result: Result<
        (),
        WriteError,
    >)
        ensures
            result is Ok <==> outcome is Ok,
            final(self).times() == old(self).times(),
            old(self).aborted() || old(self).finished() ==> {
                &&& final(self).position() == old(self).position()
                &&& final(self).aborted() == old(self).aborted()
                &&& final(self).phase() == old(self).phase()
            },
            !old(self).aborted() && !old(self).finished() && outcome is Ok ==> {
                &&& final(self).position() == old(self).position() + 1
                &&& !final(self).aborted()
                &&& final(self).phase() is Streaming
            },
            !old(self).aborted() && !old(self).finished() && outcome is Err ==> {
                &&& final(self).position() == old(self).position()
                &&& final(self).aborted()
                &&& final(self).phase() == old(self).phase()
            },
    {
        proof {
            use_type_invariant(&*self);
        }
        let done = self.aborted || self.is_finished();
        if done {
            return match outcome {
                Ok(_) => Ok(()),
                Err(_) => Err(WriteError),
            };
        }
        let result = self.adapter.settle(outcome);
        match result {
            Ok(_) => {
                match self.stage {
                    Stage::OpenArray => {
                        self.index = 0;
                        if self.records.len() == 0 {
                            self.stage = Stage::CloseArray;
                        } else {
                            self.stage = Stage::Element;
                        }
                    },
                    Stage::Element => {
                        if self.index + 1 < self.records.len() {
                            self.index = self.index + 1;
                        } else {
                            self.stage = Stage::CloseArray;
                        }
                    },
                    Stage::CloseArray => {
                        self.stage = Stage::Newline;
                    },
                    Stage::Newline => {
                        self.stage = Stage::Finished;
                    },
                    Stage::Finished => {},
                }
            },
            Err(_) => {
                self.aborted = true;
            },
        }
        result
    }
}

} // verus!
