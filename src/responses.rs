use vstd::prelude::*;
use vstd::string::*;
use vstd::utf8::is_ascii_chars;

use crate::models::{sat_add_u32, Usage};
use crate::chat_completions::{model_or, name_or};
use crate::clock::unix_now_ms;
use crate::random::{generate_id, is_alphanumeric, random_alphanumeric};

verus! {

/// Reasoning tokens that a streamed response reports on top of its usage.
pub const MOCK_REASONING_TOKENS: u32 = 128;

/// Bytes of content carried by one text delta (content is ASCII, so as many
/// characters).
pub const DELTA_CHARS: usize = 5;

/// Length of the random token that each text delta carries.
pub const OBFUSCATION_CHARS: usize = 10;

#[derive(Clone, Copy, Debug, PartialEq, Eq, Structural)]
pub enum Status {
    InProgress,
    Completed,
}

/// Token accounting of a response, with its detail counts.
#[derive(Clone, Copy, Debug, PartialEq, Eq, Structural)]
pub struct ResponseUsage {
    pub input_tokens: u32,
    pub cached_tokens: u32,
    pub output_tokens: u32,
    pub reasoning_tokens: u32,
    pub total_tokens: u32,
}

/// A part of a message holding output text.
#[derive(Debug)]
pub struct OutputText {
    pub text: String,
}

/// A reasoning placeholder item.
#[derive(Debug)]
pub struct ReasoningItem {
    pub id: String,
}

/// An assistant message item.
#[derive(Debug)]
pub struct OutputMessage {
    pub id: String,
    pub content: Vec<OutputText>,
    pub status: Status,
}

/// One item of a response's output.
#[derive(Debug)]
pub enum OutputItem {
    Reasoning(ReasoningItem),
    Message(OutputMessage),
}

/// What an output item holds: a reasoning item's id, or a message's id,
/// the texts of its parts and its status.
pub enum ItemModel {
    Reasoning(Seq<char>),
    Message(Seq<char>, Seq<Seq<char>>, Status),
}

impl View for OutputItem {
    type V = ItemModel;

    open spec fn view(&self) -> ItemModel {
        match self {
            OutputItem::Reasoning(r) => ItemModel::Reasoning(r.id@),
            OutputItem::Message(m) => ItemModel::Message(
                m.id@,
                m.content@.map_values(|t: OutputText| t.text@),
                m.status,
            ),
        }
    }
}

/// The state of a response object.
#[derive(Debug)]
pub struct ResponseSnapshot {
    pub id: String,
    pub created_at: u64,
    pub model: String,
    pub instructions: Option<String>,
    pub status: Status,
    pub output: Vec<OutputItem>,
    pub usage: Option<ResponseUsage>,
}

pub struct SnapshotModel {
    pub id: Seq<char>,
    pub created_at: u64,
    pub model: Seq<char>,
    pub instructions: Option<Seq<char>>,
    pub status: Status,
    pub output: Seq<ItemModel>,
    pub usage: Option<ResponseUsage>,
}

pub open spec fn opt_text(o: Option<String>) -> Option<Seq<char>> {
    match o {
        Some(s) => Some(s@),
        None => None,
    }
}

impl View for ResponseSnapshot {
    type V = SnapshotModel;

    open spec fn view(&self) -> SnapshotModel {
        SnapshotModel {
            id: self.id@,
            created_at: self.created_at,
            model: self.model@,
            instructions: opt_text(self.instructions),
            status: self.status,
            output: self.output@.map_values(|i: OutputItem| i@),
            usage: self.usage,
        }
    }
}

fn copy_text(s: &String) -> (r: String)
    ensures
        r@ == s@,
{
    String::from_str(s.as_str())
}

fn copy_opt_text(s: &Option<String>) -> (r: Option<String>)
    ensures
        opt_text(r) == opt_text(*s),
{
    match s {
        Some(t) => Some(copy_text(t)),
        None => None,
    }
}

/// A message item whose parts hold `texts`.
fn make_message(id: &String, texts: &Vec<String>, status: Status) -> (r: OutputItem)
    ensures
        r@ == ItemModel::Message(id@, texts@.map_values(|t: String| t@), status),
{
    let mut content: Vec<OutputText> = Vec::new();
    let mut i: usize = 0;
    while i < texts.len()
        invariant
            i <= texts@.len(),
            content@.len() == i,
            forall|j: int| 0 <= j < i ==> (#[trigger] content@[j]).text@ == texts@[j]@,
        decreases texts.len() - i,
    {
        content.push(OutputText { text: copy_text(&texts[i]) });
        i = i + 1;
    }
    let r = OutputItem::Message(OutputMessage { id: copy_text(id), content, status });
    assert(content@.map_values(|t: OutputText| t.text@) =~= texts@.map_values(|t: String| t@));
    r
}

fn copy_item(item: &OutputItem) -> (r: OutputItem)
    ensures
        r@ == item@,
{
    match item {
        OutputItem::Reasoning(ri) => OutputItem::Reasoning(ReasoningItem { id: copy_text(&ri.id) }),
        OutputItem::Message(m) => {
            let mut content: Vec<OutputText> = Vec::new();
            let mut i: usize = 0;
            while i < m.content.len()
                invariant
                    i <= m.content@.len(),
                    content@.len() == i,
                    forall|j: int|
                        0 <= j < i ==> (#[trigger] content@[j]).text@ == m.content@[j].text@,
                decreases m.content.len() - i,
            {
                content.push(OutputText { text: copy_text(&m.content[i].text) });
                i = i + 1;
            }
            assert(content@.map_values(|t: OutputText| t.text@) =~= m.content@.map_values(
                |t: OutputText| t.text@,
            ));
            OutputItem::Message(OutputMessage { id: copy_text(&m.id), content, status: m.status })
        },
    }
}

impl ResponseSnapshot {
    /// An independent copy holding the same values.
    pub fn copy(&self) -> (r: ResponseSnapshot)
        ensures
            r@ == self@,
    {
        let mut output: Vec<OutputItem> = Vec::new();
        let mut i: usize = 0;
        while i < self.output.len()
            invariant
                i <= self.output@.len(),
                output@.len() == i,
                forall|j: int| 0 <= j < i ==> (#[trigger] output@[j])@ == self.output@[j]@,
            decreases self.output.len() - i,
        {
            output.push(copy_item(&self.output[i]));
            i = i + 1;
        }
        assert(output@.map_values(|i: OutputItem| i@) =~= self.output@.map_values(
            |i: OutputItem| i@,
        ));
        ResponseSnapshot {
            id: copy_text(&self.id),
            created_at: self.created_at,
            model: copy_text(&self.model),
            instructions: copy_opt_text(&self.instructions),
            status: self.status,
            output,
            usage: self.usage,
        }
    }
}


/// Where a responses stream stands: the event it emits next.
#[derive(Clone, Copy, Debug, PartialEq, Eq, Structural)]
pub enum Phase {
    Created,
    InProgress,
    ReasoningAdded,
    ReasoningDone,
    MessageAdded,
    PartAdded,
    TextDelta,
    TextDone,
    PartDone,
    MessageDone,
    Completed,
    Done,
    Finished,
}

pub open spec fn rank(p: Phase) -> nat {
    match p {
        Phase::Created => 0,
        Phase::InProgress => 1,
        Phase::ReasoningAdded => 2,
        Phase::ReasoningDone => 3,
        Phase::MessageAdded => 4,
        Phase::PartAdded => 5,
        Phase::TextDelta => 6,
        Phase::TextDone => 7,
        Phase::PartDone => 8,
        Phase::MessageDone => 9,
        Phase::Completed => 10,
        Phase::Done => 11,
        Phase::Finished => 12,
    }
}

/// One event of a responses stream.
#[derive(Debug)]
pub enum ResponsesEvent {
    Created { sequence_number: u64, response: ResponseSnapshot },
    InProgress { sequence_number: u64, response: ResponseSnapshot },
    OutputItemAdded { sequence_number: u64, output_index: u32, item: OutputItem },
    OutputItemDone { sequence_number: u64, output_index: u32, item: OutputItem },
    ContentPartAdded {
        sequence_number: u64,
        output_index: u32,
        item_id: String,
        content_index: u32,
        part: OutputText,
    },
    TextDelta {
        sequence_number: u64,
        output_index: u32,
        item_id: String,
        content_index: u32,
        delta: String,
        obfuscation: String,
    },
    TextDone {
        sequence_number: u64,
        output_index: u32,
        item_id: String,
        content_index: u32,
        text: String,
    },
    ContentPartDone {
        sequence_number: u64,
        output_index: u32,
        item_id: String,
        content_index: u32,
        part: OutputText,
    },
    Completed { sequence_number: u64, response: ResponseSnapshot },
    Done,
}

/// The phase in which the event is emitted.
pub open spec fn phase_of(e: ResponsesEvent) -> Phase {
    match e {
        ResponsesEvent::Created { .. } => Phase::Created,
        ResponsesEvent::InProgress { .. } => Phase::InProgress,
        ResponsesEvent::OutputItemAdded { output_index, .. } => if output_index == 0 {
            Phase::ReasoningAdded
        } else {
            Phase::MessageAdded
        },
        ResponsesEvent::OutputItemDone { output_index, .. } => if output_index == 0 {
            Phase::ReasoningDone
        } else {
            Phase::MessageDone
        },
        ResponsesEvent::ContentPartAdded { .. } => Phase::PartAdded,
        ResponsesEvent::TextDelta { .. } => Phase::TextDelta,
        ResponsesEvent::TextDone { .. } => Phase::TextDone,
        ResponsesEvent::ContentPartDone { .. } => Phase::PartDone,
        ResponsesEvent::Completed { .. } => Phase::Completed,
        ResponsesEvent::Done => Phase::Done,
    }
}

/// The event's sequence number; the sentinel has none.
pub open spec fn sequence_of(e: ResponsesEvent) -> Option<u64> {
    match e {
        ResponsesEvent::Created { sequence_number, .. } => Some(sequence_number),
        ResponsesEvent::InProgress { sequence_number, .. } => Some(sequence_number),
        ResponsesEvent::OutputItemAdded { sequence_number, .. } => Some(sequence_number),
        ResponsesEvent::OutputItemDone { sequence_number, .. } => Some(sequence_number),
        ResponsesEvent::ContentPartAdded { sequence_number, .. } => Some(sequence_number),
        ResponsesEvent::TextDelta { sequence_number, .. } => Some(sequence_number),
        ResponsesEvent::TextDone { sequence_number, .. } => Some(sequence_number),
        ResponsesEvent::ContentPartDone { sequence_number, .. } => Some(sequence_number),
        ResponsesEvent::Completed { sequence_number, .. } => Some(sequence_number),
        ResponsesEvent::Done => None,
    }
}

/// The usage that the event carries, through the response it holds.
pub open spec fn usage_of(e: ResponsesEvent) -> Option<ResponseUsage> {
    match e {
        ResponsesEvent::Created { response, .. } => response.usage,
        ResponsesEvent::InProgress { response, .. } => response.usage,
        ResponsesEvent::Completed { response, .. } => response.usage,
        _ => None,
    }
}

/// The wire name of the events emitted in phase `p`; the sentinel has none.
pub open spec fn event_name_of(p: Phase) -> Seq<char> {
    match p {
        Phase::Created => "response.created"@,
        Phase::InProgress => "response.in_progress"@,
        Phase::ReasoningAdded => "response.output_item.added"@,
        Phase::MessageAdded => "response.output_item.added"@,
        Phase::ReasoningDone => "response.output_item.done"@,
        Phase::MessageDone => "response.output_item.done"@,
        Phase::PartAdded => "response.content_part.added"@,
        Phase::TextDelta => "response.output_text.delta"@,
        Phase::TextDone => "response.output_text.done"@,
        Phase::PartDone => "response.content_part.done"@,
        Phase::Completed => "response.completed"@,
        Phase::Done => ""@,
        Phase::Finished => ""@,
    }
}

impl ResponsesEvent {
    /// The event's name on the wire; the sentinel has none.
    pub fn event_name(&self) -> (r: &'static str)
        ensures
            r@ == event_name_of(phase_of(*self)),
    {
        let r = match self {
            ResponsesEvent::Created { .. } => "response.created",
            ResponsesEvent::InProgress { .. } => "response.in_progress",
            ResponsesEvent::OutputItemAdded { .. } => "response.output_item.added",
            ResponsesEvent::OutputItemDone { .. } => "response.output_item.done",
            ResponsesEvent::ContentPartAdded { .. } => "response.content_part.added",
            ResponsesEvent::TextDelta { .. } => "response.output_text.delta",
            ResponsesEvent::TextDone { .. } => "response.output_text.done",
            ResponsesEvent::ContentPartDone { .. } => "response.content_part.done",
            ResponsesEvent::Completed { .. } => "response.completed",
            ResponsesEvent::Done => "",
        };
        proof {
            reveal_strlit("response.created");
            reveal_strlit("response.in_progress");
            reveal_strlit("response.output_item.added");
            reveal_strlit("response.output_item.done");
            reveal_strlit("response.content_part.added");
            reveal_strlit("response.output_text.delta");
            reveal_strlit("response.output_text.done");
            reveal_strlit("response.content_part.done");
            reveal_strlit("response.completed");
            reveal_strlit("");
        }
        r
    }
}

/// The usage a streamed response reports at completion: the request's
/// usage with the mock reasoning tokens added to output and total.
pub open spec fn streamed_usage(u: Usage) -> ResponseUsage {
    ResponseUsage {
        input_tokens: u.prompt_tokens,
        cached_tokens: 0,
        output_tokens: sat_add_u32(u.completion_tokens, MOCK_REASONING_TOKENS),
        reasoning_tokens: MOCK_REASONING_TOKENS,
        total_tokens: sat_add_u32(u.total_tokens, MOCK_REASONING_TOKENS),
    }
}

/// The usage a complete, non-streamed response reports.
pub open spec fn plain_usage(u: Usage) -> ResponseUsage {
    ResponseUsage {
        input_tokens: u.prompt_tokens,
        cached_tokens: 0,
        output_tokens: u.completion_tokens,
        reasoning_tokens: 0,
        total_tokens: u.total_tokens,
    }
}

/// The output of the streamed response when `p` is the next phase.
pub open spec fn output_at(p: Phase, rid: Seq<char>, mid: Seq<char>, content: Seq<char>) -> Seq<
    ItemModel,
> {
    let r = ItemModel::Reasoning(rid);
    if rank(p) <= 2 {
        Seq::empty()
    } else if rank(p) <= 4 {
        seq![r]
    } else if rank(p) == 5 {
        seq![r, ItemModel::Message(mid, Seq::empty(), Status::InProgress)]
    } else if rank(p) <= 7 {
        seq![r, ItemModel::Message(mid, seq![Seq::empty()], Status::InProgress)]
    } else if rank(p) <= 9 {
        seq![r, ItemModel::Message(mid, seq![content], Status::InProgress)]
    } else {
        seq![r, ItemModel::Message(mid, seq![content], Status::Completed)]
    }
}

/// The phase that follows `p` once `offset` characters of a content of
/// `len` characters have been streamed.
pub open spec fn next_phase(p: Phase, offset: nat, len: nat) -> Phase {
    match p {
        Phase::Created => Phase::InProgress,
        Phase::InProgress => Phase::ReasoningAdded,
        Phase::ReasoningAdded => Phase::ReasoningDone,
        Phase::ReasoningDone => Phase::MessageAdded,
        Phase::MessageAdded => Phase::PartAdded,
        Phase::PartAdded => if len > 0 {
            Phase::TextDelta
        } else {
            Phase::TextDone
        },
        Phase::TextDelta => if offset < len {
            Phase::TextDelta
        } else {
            Phase::TextDone
        },
        Phase::TextDone => Phase::PartDone,
        Phase::PartDone => Phase::MessageDone,
        Phase::MessageDone => Phase::Completed,
        Phase::Completed => Phase::Done,
        Phase::Done => Phase::Finished,
        Phase::Finished => Phase::Finished,
    }
}

/// The responses-protocol event sequencer. It owns the response snapshot,
/// which grows as events are emitted.
pub struct ResponsesStream {
    pub snapshot: ResponseSnapshot,
    pub reasoning_id: String,
    pub message_id: String,
    pub content: String,
    pub final_usage: ResponseUsage,
    pub phase: Phase,
    pub offset: usize,
    pub emitted: u64,
}


/// The output items that `output_at` describes.
fn output_for(p: Phase, rid: &String, mid: &String, content: &String) -> (r: Vec<OutputItem>)
    ensures
        r@.map_values(|i: OutputItem| i@) == output_at(p, rid@, mid@, content@),
{
    let mut out: Vec<OutputItem> = Vec::new();
    if matches!(p, Phase::Created | Phase::InProgress | Phase::ReasoningAdded) {
        assert(out@.map_values(|i: OutputItem| i@) =~= output_at(p, rid@, mid@, content@));
        return out;
    }
    out.push(OutputItem::Reasoning(ReasoningItem { id: copy_text(rid) }));
    if matches!(p, Phase::ReasoningDone | Phase::MessageAdded) {
        assert(out@.map_values(|i: OutputItem| i@) =~= output_at(p, rid@, mid@, content@));
        return out;
    }
    let mut texts: Vec<String> = Vec::new();
    let mut status = Status::InProgress;
    if matches!(p, Phase::TextDelta | Phase::TextDone) {
        texts.push(String::new());
    } else if !matches!(p, Phase::PartAdded) {
        texts.push(copy_text(content));
        if !matches!(p, Phase::PartDone | Phase::MessageDone) {
            status = Status::Completed;
        }
    }
    let m = make_message(mid, &texts, status);
    out.push(m);
    let ghost expect = output_at(p, rid@, mid@, content@);
    assert(texts@.map_values(|t: String| t@) =~= match expect[1] {
        ItemModel::Message(_, ts, _) => ts,
        _ => Seq::empty(),
    });
    assert(out@.map_values(|i: OutputItem| i@) =~= expect);
    out
}

/// The event carries what its phase calls for.
pub open spec fn event_fits(e: ResponsesEvent, before: ResponsesStream, after: ResponsesStream) -> bool {
    let rid = before.reasoning_id@;
    let mid = before.message_id@;
    let content = before.content@;
    match e {
        ResponsesEvent::Created { response, .. } => response@ == after.snapshot@,
        ResponsesEvent::InProgress { response, .. } => response@ == after.snapshot@,
        ResponsesEvent::Completed { response, .. } => response@ == after.snapshot@,
        ResponsesEvent::OutputItemAdded { output_index, item, .. } => if output_index == 0 {
            item@ == ItemModel::Reasoning(rid)
        } else {
            output_index == 1 && item@ == ItemModel::Message(mid, Seq::empty(), Status::InProgress)
        },
        ResponsesEvent::OutputItemDone { output_index, item, .. } => if output_index == 0 {
            item@ == ItemModel::Reasoning(rid)
        } else {
            output_index == 1 && item@ == ItemModel::Message(mid, seq![content], Status::Completed)
        },
        ResponsesEvent::ContentPartAdded { output_index, item_id, content_index, part, .. } => {
            &&& output_index == 1
            &&& item_id@ == mid
            &&& content_index == 0
            &&& part.text@ == Seq::<char>::empty()
        },
        ResponsesEvent::TextDelta {
            output_index,
            item_id,
            content_index,
            delta,
            obfuscation,
            ..
        } => {
            &&& output_index == 1
            &&& item_id@ == mid
            &&& content_index == 0
            &&& after.offset == (if before.offset + DELTA_CHARS < content.len() {
                (before.offset + DELTA_CHARS) as int
            } else {
                content.len() as int
            })
            &&& delta@ == content.subrange(before.offset as int, after.offset as int)
            &&& obfuscation@.len() == OBFUSCATION_CHARS
            &&& forall|i: int| 0 <= i < obfuscation@.len() ==> is_alphanumeric(#[trigger] obfuscation@[i])
        },
        ResponsesEvent::TextDone { output_index, item_id, content_index, text, .. } => {
            &&& output_index == 1
            &&& item_id@ == mid
            &&& content_index == 0
            &&& text@ == content
        },
        ResponsesEvent::ContentPartDone { output_index, item_id, content_index, part, .. } => {
            &&& output_index == 1
            &&& item_id@ == mid
            &&& content_index == 0
            &&& part.text@ == content
        },
        ResponsesEvent::Done => true,
    }
}

impl ResponsesStream {
    pub open spec fn wf(&self) -> bool {
        &&& self.offset <= self.content@.len()
        &&& self.content@.len() + 12 <= u64::MAX
        &&& is_ascii_chars(self.content@)
        &&& self.emitted <= rank(self.phase) + self.offset
        &&& rank(self.phase) < 6 ==> self.offset == 0
        &&& rank(self.phase) > 6 ==> self.offset == self.content@.len()
        &&& self.phase == Phase::TextDelta ==> self.offset < self.content@.len()
        &&& self.snapshot@.output == output_at(
            self.phase,
            self.reasoning_id@,
            self.message_id@,
            self.content@,
        )
        &&& self.snapshot@.status == (if rank(self.phase) >= 11 {
            Status::Completed
        } else {
            Status::InProgress
        })
        &&& self.snapshot@.usage == (if rank(self.phase) >= 11 {
            Some(self.final_usage)
        } else {
            None
        })
    }

    /// What stays fixed over the life of a stream.
    pub open spec fn same_stream(&self, other: &ResponsesStream) -> bool {
        &&& self.reasoning_id@ == other.reasoning_id@
        &&& self.message_id@ == other.message_id@
        &&& self.content@ == other.content@
        &&& self.final_usage == other.final_usage
        &&& self.snapshot@.id == other.snapshot@.id
        &&& self.snapshot@.created_at == other.snapshot@.created_at
        &&& self.snapshot@.model == other.snapshot@.model
        &&& self.snapshot@.instructions == other.snapshot@.instructions
    }

    /// Events still to come, the sentinel included.
    pub open spec fn remaining(&self) -> nat {
        ((12 - rank(self.phase)) + (self.content@.len() - self.offset)) as nat
    }

    /// A stream at its start, about to announce the response as created.
    pub fn new(
        response_id: String,
        created_at: u64,
        model: String,
        instructions: Option<String>,
        reasoning_id: String,
        message_id: String,
        content: String,
        usage: Usage,
    ) -> (r: ResponsesStream)
        requires
            content@.len() + 12 <= u64::MAX,
            is_ascii_chars(content@),
        ensures
            r.wf(),
            r.phase == Phase::Created,
            r.emitted == 0,
            r.snapshot@.id == response_id@,
            r.snapshot@.created_at == created_at,
            r.snapshot@.model == model@,
            r.snapshot@.instructions == opt_text(instructions),
            r.reasoning_id == reasoning_id,
            r.message_id == message_id,
            r.content == content,
            r.final_usage == streamed_usage(usage),
    {
        let snapshot = ResponseSnapshot {
            id: response_id,
            created_at,
            model,
            instructions,
            status: Status::InProgress,
            output: Vec::new(),
            usage: None,
        };
        assert(snapshot@.output =~= Seq::<ItemModel>::empty());
        ResponsesStream {
            snapshot,
            reasoning_id,
            message_id,
            content,
            final_usage: ResponseUsage {
                input_tokens: usage.prompt_tokens,
                cached_tokens: 0,
                output_tokens: usage.completion_tokens.saturating_add(MOCK_REASONING_TOKENS),
                reasoning_tokens: MOCK_REASONING_TOKENS,
                total_tokens: usage.total_tokens.saturating_add(MOCK_REASONING_TOKENS),
            },
            phase: Phase::Created,
            offset: 0,
            emitted: 0,
        }
    }

    /// Emits the next event of the stream and advances it; `None` once the
    /// sentinel has been emitted. Every event before the sentinel carries the
    /// next sequence number, and only the completion event carries usage.
    pub fn next_event(&mut self) -> (r: Option<ResponsesEvent>)
        requires
            old(self).wf(),
        ensures
            final(self).wf(),
            final(self).same_stream(&*old(self)),
            (old(self).phase == Phase::Finished) <==> r is None,
            r is None ==> final(self).phase == Phase::Finished && final(self).emitted == old(
                self,
            ).emitted,
            r matches Some(e) ==> {
                &&& phase_of(e) == old(self).phase
                &&& final(self).phase == next_phase(
                    old(self).phase,
                    final(self).offset as nat,
                    old(self).content@.len(),
                )
                &&& final(self).remaining() < old(self).remaining()
                &&& (old(self).phase == Phase::Done ==> sequence_of(e) is None
                    && final(self).emitted == old(self).emitted)
                &&& (old(self).phase != Phase::Done ==> sequence_of(e) == Some(old(self).emitted)
                    && final(self).emitted == old(self).emitted + 1)
                &&& (usage_of(e) is Some <==> old(self).phase == Phase::Completed)
                &&& event_fits(e, *old(self), *final(self))
            },
    {
        let seq_no = self.emitted;
        let phase = self.phase;
        let ghost len = self.content@.len();
        let e = match phase {
            Phase::Created => {
                self.phase = Phase::InProgress;
                ResponsesEvent::Created { sequence_number: seq_no, response: self.snapshot.copy() }
            },
            Phase::InProgress => {
                self.phase = Phase::ReasoningAdded;
                ResponsesEvent::InProgress {
                    sequence_number: seq_no,
                    response: self.snapshot.copy(),
                }
            },
            Phase::ReasoningAdded => {
                self.phase = Phase::ReasoningDone;
                self.snapshot.output = output_for(
                    self.phase,
                    &self.reasoning_id,
                    &self.message_id,
                    &self.content,
                );
                ResponsesEvent::OutputItemAdded {
                    sequence_number: seq_no,
                    output_index: 0,
                    item: OutputItem::Reasoning(ReasoningItem { id: copy_text(&self.reasoning_id) }),
                }
            },
            Phase::ReasoningDone => {
                self.phase = Phase::MessageAdded;
                ResponsesEvent::OutputItemDone {
                    sequence_number: seq_no,
                    output_index: 0,
                    item: OutputItem::Reasoning(ReasoningItem { id: copy_text(&self.reasoning_id) }),
                }
            },
            Phase::MessageAdded => {
                self.phase = Phase::PartAdded;
                self.snapshot.output = output_for(
                    self.phase,
                    &self.reasoning_id,
                    &self.message_id,
                    &self.content,
                );
                let none: Vec<String> = Vec::new();
                let item = make_message(&self.message_id, &none, Status::InProgress);
                assert(none@.map_values(|t: String| t@) =~= Seq::<Seq<char>>::empty());
                ResponsesEvent::OutputItemAdded { sequence_number: seq_no, output_index: 1, item }
            },
            Phase::PartAdded => {
                if self.content.as_str().unicode_len() > 0 {
                    self.phase = Phase::TextDelta;
                } else {
                    self.phase = Phase::TextDone;
                }
                self.snapshot.output = output_for(
                    self.phase,
                    &self.reasoning_id,
                    &self.message_id,
                    &self.content,
                );
                ResponsesEvent::ContentPartAdded {
                    sequence_number: seq_no,
                    output_index: 1,
                    item_id: copy_text(&self.message_id),
                    content_index: 0,
                    part: OutputText { text: String::new() },
                }
            },
            Phase::TextDelta => {
                let n = self.content.as_str().unicode_len();
                let start = self.offset;
                let end = if n - start > DELTA_CHARS {
                    start + DELTA_CHARS
                } else {
                    n
                };
                let delta = self.content.as_str().substring_char(start, end).to_owned();
                self.offset = end;
                if end >= n {
                    self.phase = Phase::TextDone;
                }
                ResponsesEvent::TextDelta {
                    sequence_number: seq_no,
                    output_index: 1,
                    item_id: copy_text(&self.message_id),
                    content_index: 0,
                    delta,
                    obfuscation: random_alphanumeric(OBFUSCATION_CHARS),
                }
            },
            Phase::TextDone => {
                self.phase = Phase::PartDone;
                self.snapshot.output = output_for(
                    self.phase,
                    &self.reasoning_id,
                    &self.message_id,
                    &self.content,
                );
                ResponsesEvent::TextDone {
                    sequence_number: seq_no,
                    output_index: 1,
                    item_id: copy_text(&self.message_id),
                    content_index: 0,
                    text: copy_text(&self.content),
                }
            },
            Phase::PartDone => {
                self.phase = Phase::MessageDone;
                ResponsesEvent::ContentPartDone {
                    sequence_number: seq_no,
                    output_index: 1,
                    item_id: copy_text(&self.message_id),
                    content_index: 0,
                    part: OutputText { text: copy_text(&self.content) },
                }
            },
            Phase::MessageDone => {
                self.phase = Phase::Completed;
                self.snapshot.output = output_for(
                    self.phase,
                    &self.reasoning_id,
                    &self.message_id,
                    &self.content,
                );
                let mut texts: Vec<String> = Vec::new();
                texts.push(copy_text(&self.content));
                let item = make_message(&self.message_id, &texts, Status::Completed);
                assert(texts@.map_values(|t: String| t@) =~= seq![self.content@]);
                ResponsesEvent::OutputItemDone { sequence_number: seq_no, output_index: 1, item }
            },
            Phase::Completed => {
                self.phase = Phase::Done;
                self.snapshot.status = Status::Completed;
                self.snapshot.usage = Some(self.final_usage);
                ResponsesEvent::Completed {
                    sequence_number: seq_no,
                    response: self.snapshot.copy(),
                }
            },
            Phase::Done => {
                self.phase = Phase::Finished;
                return Some(ResponsesEvent::Done);
            },
            Phase::Finished => {
                return None;
            },
        };
        self.emitted = seq_no + 1;
        Some(e)
    }

    /// Runs a fresh stream to its end and returns every event in order:
    /// sequence numbers run 0, 1, 2, ... without gaps up to the completion
    /// event, which alone carries usage, and the sentinel comes last.
    pub fn collect_events(&mut self) -> (r: Vec<ResponsesEvent>)
        requires
            old(self).wf(),
            old(self).phase == Phase::Created,
            old(self).emitted == 0,
        ensures
            final(self).wf(),
            final(self).same_stream(&*old(self)),
            final(self).phase == Phase::Finished,
            r@.len() >= 2,
            phase_of(r@[0]) == Phase::Created,
            r@.last() is Done,
            phase_of(r@[r@.len() - 2]) == Phase::Completed,
            forall|i: int| 0 <= i < r@.len() - 1 ==> sequence_of(#[trigger] r@[i]) == Some(i as u64),
            forall|i: int|
                0 <= i < r@.len() ==> ((usage_of(#[trigger] r@[i]) is Some) <==> phase_of(r@[i])
                    == Phase::Completed),
    {
        let mut events: Vec<ResponsesEvent> = Vec::new();
        let ghost start = *self;
        while !matches!(self.phase, Phase::Finished)
            invariant
                self.wf(),
                self.same_stream(&start),
                (events@.len() == 0) <==> (self.phase == Phase::Created),
                events@.len() > 0 ==> phase_of(events@[0]) == Phase::Created,
                self.phase != Phase::Finished ==> self.emitted == events@.len(),
                self.phase != Phase::Finished ==> forall|j: int|
                    0 <= j < events@.len() ==> sequence_of(#[trigger] events@[j]) == Some(j as u64),
                self.phase == Phase::Finished ==> forall|j: int|
                    0 <= j < events@.len() - 1 ==> sequence_of(#[trigger] events@[j]) == Some(
                        j as u64,
                    ),
                self.phase == Phase::Done ==> phase_of(events@.last()) == Phase::Completed,
                self.phase == Phase::Finished ==> {
                    &&& events@.len() >= 2
                    &&& events@.last() is Done
                    &&& phase_of(events@[events@.len() - 2]) == Phase::Completed
                },
                forall|j: int|
                    0 <= j < events@.len() ==> ((usage_of(#[trigger] events@[j]) is Some)
                        <==> phase_of(events@[j]) == Phase::Completed),
            decreases self.remaining(),
        {
            let ghost before = events@;
            let ghost was = self.phase;
            match self.next_event() {
                Some(e) => {
                    events.push(e);
                    assert(events@.drop_last() == before);
                    assert forall|j: int| 0 <= j < before.len() implies events@[j] == before[j] by {}
                },
                None => {},
            }
            proof {
                if was == Phase::Done {
                    assert(events@.len() >= 2) by {
                        assert(before.len() >= 1);
                    }
                    assert(events@[events@.len() - 2] == before.last());
                }
            }
        }
        events
    }
}

/// The complete, non-streamed response: one completed assistant message
/// holding `content`, and the request's usage.
pub fn completed_response(
    response_id: String,
    created_at: u64,
    model: String,
    instructions: Option<String>,
    message_id: String,
    content: String,
    usage: Usage,
) -> (r: ResponseSnapshot)
    ensures
        r@.id == response_id@,
        r@.created_at == created_at,
        r@.model == model@,
        r@.instructions == opt_text(instructions),
        r@.status == Status::Completed,
        r@.output == seq![ItemModel::Message(message_id@, seq![content@], Status::Completed)],
        r@.usage == Some(plain_usage(usage)),
{
    let mut texts: Vec<String> = Vec::new();
    texts.push(content);
    let item = make_message(&message_id, &texts, Status::Completed);
    assert(texts@.map_values(|t: String| t@) =~= seq![content@]);
    let mut output: Vec<OutputItem> = Vec::new();
    output.push(item);
    assert(output@.map_values(|i: OutputItem| i@) =~= seq![item@]);
    ResponseSnapshot {
        id: response_id,
        created_at,
        model,
        instructions,
        status: Status::Completed,
        output,
        usage: Some(
            ResponseUsage {
                input_tokens: usage.prompt_tokens,
                cached_tokens: 0,
                output_tokens: usage.completion_tokens,
                reasoning_tokens: 0,
                total_tokens: usage.total_tokens,
            },
        ),
    }
}


/// The model that responses name where the request names none.
pub const DEFAULT_RESPONSES_MODEL: &'static str = "gpt-5-2025-08-07";

/// `id` is a fresh id under `prefix`.
pub open spec fn id_under(id: Seq<char>, prefix: Seq<char>) -> bool {
    id.len() > prefix.len() && id.take(prefix.len() as int) == prefix
}

/// The streamed reply to a responses request, ready to emit its first
/// event: fresh ids, the current time, and the requested model or the
/// default one.
pub fn responses_stream(
    model: Option<String>,
    instructions: Option<String>,
    content: String,
    usage: Usage,
) -> (r: ResponsesStream)
    requires
        content@.len() + 12 <= u64::MAX,
        is_ascii_chars(content@),
    ensures
        r.wf(),
        r.phase == Phase::Created,
        r.emitted == 0,
        id_under(r.snapshot@.id, "resp_"@),
        id_under(r.reasoning_id@, "rs_"@),
        id_under(r.message_id@, "msg_"@),
        r.snapshot@.model == name_or(model, DEFAULT_RESPONSES_MODEL@),
        r.snapshot@.instructions == opt_text(instructions),
        r.content == content,
        r.final_usage == streamed_usage(usage),
{
    let response_id = generate_id("resp_");
    let message_id = generate_id("msg_");
    let reasoning_id = generate_id("rs_");
    let created_at = unix_now_ms() / 1000;
    ResponsesStream::new(
        response_id,
        created_at,
        model_or(model, DEFAULT_RESPONSES_MODEL),
        instructions,
        reasoning_id,
        message_id,
        content,
        usage,
    )
}

/// The complete reply to a responses request: fresh ids, the current time,
/// and the requested model or the default one.
pub fn responses_complete(
    model: Option<String>,
    instructions: Option<String>,
    content: String,
    usage: Usage,
) -> (r: ResponseSnapshot)
    ensures
        id_under(r@.id, "resp_"@),
        r@.model == name_or(model, DEFAULT_RESPONSES_MODEL@),
        r@.instructions == opt_text(instructions),
        r@.status == Status::Completed,
        r@.output.len() == 1,
        r@.output[0] matches ItemModel::Message(mid, texts, status) && id_under(mid, "msg_"@)
            && texts == seq![content@] && status == Status::Completed,
        r@.usage == Some(plain_usage(usage)),
{
    let response_id = generate_id("resp_");
    let message_id = generate_id("msg_");
    let created_at = unix_now_ms() / 1000;
    completed_response(
        response_id,
        created_at,
        model_or(model, DEFAULT_RESPONSES_MODEL),
        instructions,
        message_id,
        content,
        usage,
    )
}

} // verus!
