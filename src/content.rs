use vstd::prelude::*;
use vstd::string::*;
use vstd::utf8::{encode_utf8, is_ascii_chars};

verus! {

/// The text that lipsum writes for a given number of words.
pub uninterp spec fn lipsum_text(words: nat) -> Seq<char>;

/// Relies on `lipsum::lipsum`: `n` words of lorem ipsum drawn from a Markov
/// chain over the crate's ASCII corpora with a generator of fixed seed, so
/// the text depends on `n` alone and holds ASCII characters only.
#[verifier::external_body]
fn lorem_words(n: usize) -> (r: String)
    ensures
        r@ == lipsum_text(n as nat),
        is_ascii_chars(r@),
{
    lipsum::lipsum(n)
}

/// `text`, extended by a space and `chunk` as often as it takes to reach
/// `length` characters.
pub open spec fn grown(text: Seq<char>, chunk: Seq<char>, length: nat) -> Seq<char>
    decreases (if text.len() >= length { 0 } else { length - text.len() }),
{
    if text.len() >= length {
        text
    } else {
        grown(text + seq![' '] + chunk, chunk, length)
    }
}

/// The number of lipsum words to start from for a text of `length` bytes.
pub open spec fn filler_words(length: nat) -> nat {
    length / 5 + 1
}

/// The filler text of exactly `length` characters: lipsum words, repeated
/// until long enough, then cut at `length`.
pub open spec fn filler_text(length: nat) -> Seq<char> {
    if length == 0 {
        Seq::empty()
    } else {
        let chunk = lipsum_text(filler_words(length));
        grown(chunk, chunk, length).take(length as int)
    }
}

proof fn lemma_grown_long_enough(text: Seq<char>, chunk: Seq<char>, length: nat)
    requires
        is_ascii_chars(text),
        is_ascii_chars(chunk),
    ensures
        grown(text, chunk, length).len() >= length,
        is_ascii_chars(grown(text, chunk, length)),
    decreases (if text.len() >= length { 0 } else { length - text.len() }),
{
    if text.len() < length {
        let next = text + seq![' '] + chunk;
        assert(next.len() == text.len() + 1 + chunk.len());
        assert forall|i: int| 0 <= i < next.len() implies '\0' <= #[trigger] next[i] <= '\u{7f}' by {
            if i < text.len() {
                assert(next[i] == text[i]);
            } else if i > text.len() {
                assert(next[i] == chunk[i - text.len() - 1]);
            }
        }
        lemma_grown_long_enough(next, chunk, length);
    }
}

/// Filler text is ASCII and as long as asked for.
pub proof fn lemma_filler_text(length: nat)
    requires
        is_ascii_chars(lipsum_text(filler_words(length))),
    ensures
        filler_text(length).len() == length,
        is_ascii_chars(filler_text(length)),
{
    if length > 0 {
        let chunk = lipsum_text(filler_words(length));
        lemma_grown_long_enough(chunk, chunk, length);
    }
}

/// Generates filler text of exactly `length` bytes (ASCII, so bytes and
/// characters agree); empty for zero.
pub fn generate_filler(length: usize) -> (r: String)
    ensures
        r@ == filler_text(length as nat),
        r@.len() == length,
        is_ascii_chars(r@),
{
    if length == 0 {
        return String::new();
    }
    let chunk = lorem_words(length / 5 + 1);
    let mut text = chunk.clone();
    proof {
        lemma_grown_long_enough(chunk@, chunk@, length as nat);
    }
    while text.as_str().unicode_len() < length
        invariant
            grown(text@, chunk@, length as nat) == grown(chunk@, chunk@, length as nat),
            is_ascii_chars(text@),
            is_ascii_chars(chunk@),
        decreases (if text@.len() >= length { 0 } else { length - text@.len() }),
    {
        let ghost before = text@;
        text.append(" ");
        text.append(chunk.as_str());
        proof {
            reveal_strlit(" ");
            assert(text@ =~= before + seq![' '] + chunk@);
            lemma_grown_long_enough(text@, chunk@, length as nat);
        }
    }
    text.as_str().substring_ascii(0, length).to_owned()
}

/// The number of tokens that the cl100k_base encoding gives a text.
pub uninterp spec fn cl100k_token_count(text: Seq<char>) -> nat;

/// Whether the cl100k_base encoder gets through a text without a regex
/// error.
pub uninterp spec fn cl100k_encodes(text: Seq<char>) -> bool;

#[verifier::external_type_specification]
#[verifier::external_body]
pub struct ExCoreBPE(tiktoken_rs::CoreBPE);

#[verifier::external_type_specification]
#[verifier::external_body]
pub struct ExAnyhowError(anyhow::Error);

#[verifier::external_type_specification]
#[verifier::external_body]
pub struct ExEncodeError(tiktoken_rs::EncodeError);

/// Relies on `tiktoken_rs::cl100k_base`: builds the cl100k_base encoder
/// from the vocabulary file compiled into the crate. Its input is that fixed
/// text, so it succeeds on every call.
#[verifier::external_body]
fn load_cl100k() -> (r: Result<tiktoken_rs::CoreBPE, anyhow::Error>)
    ensures
        r is Ok,
{
    tiktoken_rs::cl100k_base()
}

/// Relies on `CoreBPE::encode` with all of the encoder's special tokens
/// allowed (what `encode_with_special_tokens` does, without unwrapping),
/// applied to the encoder that `load_cl100k` builds, the only one this
/// library makes. It returns a regex error as `Err` rather than panicking;
/// the search for special tokens is a plain alternation of literals, which
/// cannot fail. Each token covers a non-empty run of the text's bytes, so
/// there are no more tokens than bytes, and none for an empty text.
#[verifier::external_body]
fn encode_count(bpe: &tiktoken_rs::CoreBPE, text: &str) -> (r: Result<usize, tiktoken_rs::EncodeError>)
    ensures
        r is Ok <==> cl100k_encodes(text@),
        r matches Ok(n) ==> n == cl100k_token_count(text@) && n <= text.spec_bytes().len() && (
        text@.len() == 0 ==> n == 0),
        r matches Err(_) ==> text@.len() > 0,
{
    bpe.encode(text, &bpe.special_tokens()).map(|(tokens, _)| tokens.len())
}

/// `n`, or `u32::MAX` where it does not fit.
pub open spec fn clamp_u32(n: nat) -> u32 {
    if n > u32::MAX {
        u32::MAX
    } else {
        n as u32
    }
}

/// Why a text could not be counted.
#[derive(Clone, Copy, Debug, PartialEq, Eq, Structural)]
pub enum TokenizeError {
    /// The encoder could not be built.
    Vocabulary,
    /// The encoder failed on the text.
    Encode,
}

/// What counting the tokens of `text` gives.
pub open spec fn token_count_result(text: Seq<char>) -> Result<u32, TokenizeError> {
    if cl100k_encodes(text) {
        Ok(clamp_u32(cl100k_token_count(text)))
    } else {
        Err(TokenizeError::Encode)
    }
}

/// The tokens that the pipeline charges for `text`: its count, or zero
/// where the text cannot be encoded.
pub open spec fn tokens_of(text: Seq<char>) -> u32 {
    match token_count_result(text) {
        Ok(n) => n,
        Err(_) => 0,
    }
}

/// Counts the cl100k_base tokens of `text`, saturating at `u32::MAX`; an
/// empty text has none.
pub fn count_tokens(text: &str) -> (r: Result<u32, TokenizeError>)
    ensures
        r == token_count_result(text@),
        r matches Ok(n) ==> n <= encode_utf8(text@).len() && (text@.len() == 0 ==> n == 0),
        r is Ok || text@.len() > 0,
{
    match load_cl100k() {
        Ok(bpe) => match encode_count(&bpe, text) {
            Ok(n) => {
                if n > u32::MAX as usize {
                    Ok(u32::MAX)
                } else {
                    Ok(n as u32)
                }
            },
            Err(_) => Err(TokenizeError::Encode),
        },
        Err(_) => Err(TokenizeError::Vocabulary),
    }
}

/// A token count where a failed count stands for zero.
pub fn tokens_or_zero(counted: Result<u32, TokenizeError>) -> (r: u32)
    ensures
        r == match counted {
            Ok(n) => n,
            Err(_) => 0,
        },
{
    match counted {
        Ok(n) => n,
        Err(_) => 0,
    }
}

} // verus!
