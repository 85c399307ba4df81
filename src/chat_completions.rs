use vstd::prelude::*;
use vstd::string::*;

pub use crate::models::Usage;
use crate::clock::unix_now_ms;
use crate::random::generate_id;

verus! {

/// One message of a completed chat response.
#[derive(Debug)]
pub struct Message {
    pub role: String,
    pub content: String,
}

/// One choice of a completed chat response.
#[derive(Debug)]
pub struct Choice {
    pub index: u32,
    pub message: Message,
    pub finish_reason: String,
}

/// A complete, non-streamed chat-completion response.
#[derive(Debug)]
pub struct ChatCompletionResponse {
    pub id: String,
    pub object: String,
    pub created: u64,
    pub model: String,
    pub choices: Vec<Choice>,
    pub usage: Usage,
}

/// What one streamed chunk adds to the message: a role, some content, or
/// nothing.
#[derive(Debug)]
pub struct ChoiceDelta {
    pub role: Option<String>,
    pub content: Option<String>,
}

/// One choice of a streamed chunk.
#[derive(Debug)]
pub struct ChunkChoice {
    pub index: u32,
    pub delta: ChoiceDelta,
    pub finish_reason: Option<String>,
}

/// One streamed chunk of a chat completion.
#[derive(Debug)]
pub struct ChatCompletionChunk {
    pub id: String,
    pub object: String,
    pub created: u64,
    pub model: String,
    pub choices: Vec<ChunkChoice>,
    pub usage: Option<Usage>,
}

/// One event of a chat-completion stream: a chunk, or the closing sentinel.
#[derive(Debug)]
pub enum ChatStreamEvent {
    Chunk(ChatCompletionChunk),
    Done,
}

/// The characters that separate words: those with the Unicode
/// White_Space property.
pub open spec fn is_space(c: char) -> bool {
    ('\u{9}' <= c && c <= '\u{d}') || c == ' ' || c == '\u{85}' || c == '\u{a0}' || c
        == '\u{1680}' || ('\u{2000}' <= c && c <= '\u{200a}') || c == '\u{2028}' || c
        == '\u{2029}' || c == '\u{202f}' || c == '\u{205f}' || c == '\u{3000}'
}

/// Whether `c` separates words.
pub fn is_space_char(c: char) -> (r: bool)
    ensures
        r == is_space(c),
{
    ('\u{9}' <= c && c <= '\u{d}') || c == ' ' || c == '\u{85}' || c == '\u{a0}' || c
        == '\u{1680}' || ('\u{2000}' <= c && c <= '\u{200a}') || c == '\u{2028}' || c
        == '\u{2029}' || c == '\u{202f}' || c == '\u{205f}' || c == '\u{3000}'
}

/// The word in progress, as a list of at most one word.
pub open spec fn pending_word(cur: Seq<char>) -> Seq<Seq<char>> {
    if cur.len() > 0 {
        seq![cur]
    } else {
        Seq::empty()
    }
}

/// The words of `s`, where `cur` is the part of a word already read before
/// it.
pub open spec fn words_from(s: Seq<char>, cur: Seq<char>) -> Seq<Seq<char>>
    decreases s.len(),
{
    if s.len() == 0 {
        pending_word(cur)
    } else if is_space(s[0]) {
        pending_word(cur) + words_from(s.drop_first(), Seq::empty())
    } else {
        words_from(s.drop_first(), cur.push(s[0]))
    }
}

/// The whitespace-separated words of `s`, in order.
pub open spec fn words(s: Seq<char>) -> Seq<Seq<char>> {
    words_from(s, Seq::empty())
}

pub open spec fn views_of(v: Seq<String>) -> Seq<Seq<char>> {
    v.map_values(|w: String| w@)
}

/// Splits `text` into its whitespace-separated words.
pub fn split_words(text: &str) -> (r: Vec<String>)
    ensures
        views_of(r@) == words(text@),
{
    let n = text.unicode_len();
    let mut out: Vec<String> = Vec::new();
    let mut start: usize = 0;
    let mut i: usize = 0;
    assert(text@.skip(0) =~= text@);
    assert(text@.subrange(0, 0) =~= Seq::<char>::empty());
    assert(views_of(out@) =~= Seq::<Seq<char>>::empty());
    assert(views_of(out@) + words(text@) =~= words(text@));
    while i < n
        invariant
            n == text@.len(),
            start <= i <= n,
            forall|k: int| start <= k < i ==> !is_space(#[trigger] text@[k]),
            views_of(out@) + words_from(text@.skip(i as int), text@.subrange(start as int, i as int))
                == words(text@),
        decreases n - i,
    {
        let c = text.get_char(i);
        let ghost rest = text@.skip(i as int);
        let ghost cur = text@.subrange(start as int, i as int);
        assert(rest[0] == c);
        assert(rest.drop_first() =~= text@.skip(i + 1));
        if is_space_char(c) {
            if start < i {
                let w = text.substring_char(start, i).to_owned();
                let ghost before = out@;
                out.push(w);
                assert(views_of(out@) =~= views_of(before) + seq![cur]);
            }
            assert(text@.subrange(i + 1, i + 1) =~= Seq::<char>::empty());
            start = i + 1;
            i = i + 1;
            assert(views_of(out@) + words_from(text@.skip(i as int), Seq::empty()) =~= words(
                text@,
            ));
        } else {
            assert(cur.push(c) =~= text@.subrange(start as int, i + 1));
            i = i + 1;
        }
    }
    assert(text@.skip(n as int) =~= Seq::<char>::empty());
    if start < n {
        let w = text.substring_char(start, n).to_owned();
        let ghost before = out@;
        out.push(w);
        assert(views_of(out@) =~= views_of(before) + seq![text@.subrange(start as int, n as int)]);
    }
    assert(views_of(out@) =~= words(text@));
    out
}


/// The name given, or `default` where none is.
pub open spec fn name_or(given: Option<String>, default: Seq<char>) -> Seq<char> {
    match given {
        Some(m) => m@,
        None => default,
    }
}

/// The model named in the request, or `default` where none is.
pub fn model_or(requested: Option<String>, default: &str) -> (r: String)
    ensures
        r@ == name_or(requested, default@),
{
    match requested {
        Some(m) => m,
        None => String::from_str(default),
    }
}

pub open spec fn opt_view(o: Option<String>) -> Option<Seq<char>> {
    match o {
        Some(s) => Some(s@),
        None => None,
    }
}

/// The fields that every chunk of one stream shares.
pub open spec fn chunk_header(c: ChatCompletionChunk, id: Seq<char>, created: u64, model: Seq<char>) -> bool {
    &&& c.id@ == id
    &&& c.object@ == "chat.completion.chunk"@
    &&& c.created == created
    &&& c.model@ == model
    &&& c.choices@.len() == 1
    &&& c.choices@[0].index == 0
}

/// A chunk with the given header whose one choice carries this role,
/// content and finish reason, and with this usage.
pub open spec fn is_chunk(
    e: ChatStreamEvent,
    id: Seq<char>,
    created: u64,
    model: Seq<char>,
    role: Option<Seq<char>>,
    content: Option<Seq<char>>,
    finish: Option<Seq<char>>,
    usage: Option<Usage>,
) -> bool {
    match e {
        ChatStreamEvent::Chunk(c) => {
            &&& chunk_header(c, id, created, model)
            &&& opt_view(c.choices@[0].delta.role) == role
            &&& opt_view(c.choices@[0].delta.content) == content
            &&& opt_view(c.choices@[0].finish_reason) == finish
            &&& c.usage == usage
        },
        ChatStreamEvent::Done => false,
    }
}

fn make_chunk(
    id: &str,
    created: u64,
    model: &str,
    role: Option<String>,
    content: Option<String>,
    finish_reason: Option<String>,
    usage: Option<Usage>,
) -> (r: ChatStreamEvent)
    ensures
        is_chunk(
            r,
            id@,
            created,
            model@,
            opt_view(role),
            opt_view(content),
            opt_view(finish_reason),
            usage,
        ),
{
    let choice = ChunkChoice { index: 0, delta: ChoiceDelta { role, content }, finish_reason };
    ChatStreamEvent::Chunk(
        ChatCompletionChunk {
            id: String::from_str(id),
            object: String::from_str("chat.completion.chunk"),
            created,
            model: String::from_str(model),
            choices: vec![choice],
            usage,
        },
    )
}

/// `r` is the event sequence of a streamed chat completion of `content`.
pub open spec fn is_chat_stream(
    r: Seq<ChatStreamEvent>,
    id: Seq<char>,
    created: u64,
    model: Seq<char>,
    content: Seq<char>,
    usage: Usage,
) -> bool {
    let ws = words(content);
    &&& r.len() == ws.len() + 3
    &&& is_chunk(r[0], id, created, model, Some("assistant"@), None, None, None)
    &&& forall|i: int|
        0 <= i < ws.len() ==> is_chunk(
            #[trigger] r[i + 1],
            id,
            created,
            model,
            None,
            Some(ws[i] + " "@),
            None,
            None,
        )
    &&& is_chunk(r[ws.len() as int + 1], id, created, model, None, None, Some("stop"@), Some(usage))
    &&& r[ws.len() as int + 2] is Done
}

/// The events of a streamed chat completion of `content`: a chunk that
/// announces the assistant role, one chunk per word of the content carrying
/// the word and a space, a chunk that carries the finish reason and the
/// usage, and the closing sentinel. All chunks share id, creation time and
/// model.
pub fn chat_stream_events(id: &str, created: u64, model: &str, content: &str, usage: Usage) -> (r:
    Vec<ChatStreamEvent>)
    ensures
        is_chat_stream(r@, id@, created, model@, content@, usage),
{
    let ws = split_words(content);
    let ghost n = words(content@).len();
    let mut events: Vec<ChatStreamEvent> = Vec::new();
    events.push(
        make_chunk(id, created, model, Some(String::from_str("assistant")), None, None, None),
    );
    let mut i: usize = 0;
    while i < ws.len()
        invariant
            views_of(ws@) == words(content@),
            n == ws@.len(),
            i <= ws@.len(),
            events@.len() == i + 1,
            is_chunk(events@[0], id@, created, model@, Some("assistant"@), None, None, None),
            forall|j: int|
                0 <= j < i ==> is_chunk(
                    #[trigger] events@[j + 1],
                    id@,
                    created,
                    model@,
                    None,
                    Some(words(content@)[j] + " "@),
                    None,
                    None,
                ),
        decreases ws.len() - i,
    {
        let mut piece = String::from_str(ws[i].as_str());
        piece.append(" ");
        assert(views_of(ws@)[i as int] == ws@[i as int]@);
        events.push(make_chunk(id, created, model, None, Some(piece), None, None));
        i = i + 1;
    }
    events.push(
        make_chunk(id, created, model, None, None, Some(String::from_str("stop")), Some(usage)),
    );
    events.push(ChatStreamEvent::Done);
    events
}

/// The complete response to a chat request: one assistant message holding
/// `content`, finished with "stop", with the request's usage.
pub fn completion_response(id: String, created: u64, model: String, content: String, usage: Usage) -> (r:
    ChatCompletionResponse)
    ensures
        r.id == id,
        r.object@ == "chat.completion"@,
        r.created == created,
        r.model == model,
        r.choices@.len() == 1,
        r.choices@[0].index == 0,
        r.choices@[0].message.role@ == "assistant"@,
        r.choices@[0].message.content == content,
        r.choices@[0].finish_reason@ == "stop"@,
        r.usage == usage,
{
    let choice = Choice {
        index: 0,
        message: Message { role: String::from_str("assistant"), content },
        finish_reason: String::from_str("stop"),
    };
    ChatCompletionResponse {
        id,
        object: String::from_str("chat.completion"),
        created,
        model,
        choices: vec![choice],
        usage,
    }
}


/// The model that chat replies name where the request names none.
pub const DEFAULT_CHAT_MODEL: &'static str = "gpt-3.5-turbo";

/// Prefix of chat-completion ids.
pub const CHAT_ID_PREFIX: &'static str = "chatcmpl-";

/// The complete reply to a chat request, under a fresh id and the current
/// time, naming the requested model or the default one.
pub fn chat_completion(model: Option<String>, content: String, usage: Usage) -> (r:
    ChatCompletionResponse)
    ensures
        r.id@.len() > CHAT_ID_PREFIX@.len(),
        r.id@.take(CHAT_ID_PREFIX@.len() as int) == CHAT_ID_PREFIX@,
        r.object@ == "chat.completion"@,
        r.model@ == name_or(model, DEFAULT_CHAT_MODEL@),
        r.choices@.len() == 1,
        r.choices@[0].index == 0,
        r.choices@[0].message.role@ == "assistant"@,
        r.choices@[0].message.content == content,
        r.choices@[0].finish_reason@ == "stop"@,
        r.usage == usage,
{
    let id = generate_id(CHAT_ID_PREFIX);
    let created = unix_now_ms() / 1000;
    completion_response(id, created, model_or(model, DEFAULT_CHAT_MODEL), content, usage)
}

/// The streamed reply to a chat request, under a fresh id and the current
/// time, naming the requested model or the default one.
pub fn chat_completion_stream(model: Option<String>, content: &str, usage: Usage) -> (r: Vec<
    ChatStreamEvent,
>)
    ensures
        exists|id: Seq<char>, created: u64|
            #[trigger] is_chat_stream(
                r@,
                id,
                created,
                name_or(model, DEFAULT_CHAT_MODEL@),
                content@,
                usage,
            ),
{
    let id = generate_id(CHAT_ID_PREFIX);
    let created = unix_now_ms() / 1000;
    let m = model_or(model, DEFAULT_CHAT_MODEL);
    chat_stream_events(id.as_str(), created, m.as_str(), content, usage)
}

} // verus!
