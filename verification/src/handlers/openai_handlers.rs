//! What a request for a tag suggestion is sent out with, and what comes
//! back to the one who asked.

use vstd::prelude::*;
use vstd::string::StringExecFns;
use crate::handlers::chat_handlers::words_of;
use crate::outside::{base64_of, base64_standard, encodable, trim, trimmed_of};
use crate::text::{join, joined, texts};

verus! {

/// What a request for a tag suggestion carries.
#[derive(Debug)]
pub struct TagSuggestionRequest {
    pub group_name: String,
    pub approved_tags: Vec<String>,
    pub rejected_tags: Vec<String>,
    pub pending_tags: Vec<String>,
    pub image_name: String,
    pub image_url: String,
}

/// The answer to a request for a tag suggestion.
#[derive(Debug)]
pub struct TagSuggestionResponse {
    pub success: bool,
    pub suggestion: Option<String>,
    pub error: Option<String>,
}

/// How the attempt to have a tag suggested ended.
pub enum SuggestionOutcome {
    /// The configured key for the suggesting service is blank.
    KeyEmpty,
    /// No key for the suggesting service is configured.
    KeyMissing,
    /// The image could not be fetched or encoded; the text says why.
    ImageFailed(String),
    /// The service could not be reached; the text says why.
    ConnectionFailed(String),
    /// The service answered what could not be read; the text says why.
    Unreadable(String),
    /// The service answered, with this text if it gave one.
    Answered(Option<String>),
    /// The service refused, with this status and this text.
    Refused(String, String),
}

/// Whether a configured key can be used: it holds more than white space.
pub fn key_is_usable(key: &str) -> (usable: bool)
    ensures
        usable == (trimmed_of(key@).len() > 0),
{
    !trim(key).is_empty()
}

/// The tags in a row with commas between, or the word for none.
pub open spec fn tags_or_none(tags: Seq<Seq<char>>) -> Seq<char> {
    if tags.len() == 0 {
        "Nenhuma"@
    } else {
        joined(tags, ", "@)
    }
}

/// The note on tags that exist already; empty where there are none.
pub open spec fn existing_note(tags: Seq<Seq<char>>) -> Seq<char> {
    if tags.len() == 0 {
        Seq::empty()
    } else {
        "\n\nTags já existentes (NÃO repita estas): "@ + joined(tags, ", "@)
    }
}

/// The words that ask for one tag for the request's image.
pub open spec fn prompt_words(req: TagSuggestionRequest) -> Seq<char> {
    "Analise esta imagem do grupo \""@ + req.group_name@
        + "\" e sugira UMA tag descritiva e relevante.\n\nContexto:\n- Nome da imagem: "@
        + req.image_name@ + "\n- Grupo: "@ + req.group_name@ + "\n- Tags aprovadas: "@ + tags_or_none(
        texts(req.approved_tags@),
    ) + "\n- Tags rejeitadas: "@ + tags_or_none(texts(req.rejected_tags@)) + "\n- Tags pendentes: "@
        + tags_or_none(texts(req.pending_tags@)) + existing_note(
        texts(req.approved_tags@) + texts(req.rejected_tags@) + texts(req.pending_tags@),
    )
        + "\n\nInstruções:\n1. Sugira apenas UMA tag\n2. A tag deve ser descritiva e relevante para a imagem\n3. Use palavras-chave em português, preferencialmente\n4. Seja específico e conciso\n5. NÃO repita tags já existentes\n6. Foque em características visuais, objetos, cores, ou conceitos principais\n\nResponda apenas com a tag sugerida, sem explicações adicionais."@
}

fn tags_text(tags: &Vec<String>) -> (text: String)
    ensures
        text@ == tags_or_none(texts(tags@)),
{
    if tags.len() == 0 {
        "Nenhuma".to_owned()
    } else {
        join(tags, ", ")
    }
}

fn append_all(all: &mut Vec<String>, more: &Vec<String>)
    ensures
        texts(final(all)@) == texts(old(all)@) + texts(more@),
{
    let mut i: usize = 0;
    while i < more.len()
        invariant
            i <= more@.len(),
            texts(all@) == texts(old(all)@) + texts(more@).take(i as int),
        decreases more@.len() - i,
    {
        let ghost before = texts(all@);
        all.push(more[i].clone());
        assert(texts(all@) =~= before.push(more@[i as int]@));
        assert(texts(more@).take(i as int + 1) =~= texts(more@).take(i as int).push(more@[i as int]@));
        assert(texts(all@) =~= texts(old(all)@) + texts(more@).take(i as int + 1));
        i += 1;
    }
    assert(texts(more@).take(more@.len() as int) =~= texts(more@));
}

/// Writes the words that ask for one tag for the request's image.
pub fn build_prompt(req: &TagSuggestionRequest) -> (prompt: String)
    ensures
        prompt@ == prompt_words(*req),
{
    let mut existing: Vec<String> = Vec::new();
    assert(texts(existing@) =~= Seq::<Seq<char>>::empty());
    append_all(&mut existing, &req.approved_tags);
    append_all(&mut existing, &req.rejected_tags);
    append_all(&mut existing, &req.pending_tags);
    assert(texts(existing@) =~= texts(req.approved_tags@) + texts(req.rejected_tags@) + texts(
        req.pending_tags@,
    ));
    let note = if existing.len() == 0 {
        String::new()
    } else {
        let mut note = "\n\nTags já existentes (NÃO repita estas): ".to_owned();
        note.append(join(&existing, ", ").as_str());
        note
    };
    let mut prompt = "Analise esta imagem do grupo \"".to_owned();
    prompt.append(req.group_name.as_str());
    prompt.append("\" e sugira UMA tag descritiva e relevante.\n\nContexto:\n- Nome da imagem: ");
    prompt.append(req.image_name.as_str());
    prompt.append("\n- Grupo: ");
    prompt.append(req.group_name.as_str());
    prompt.append("\n- Tags aprovadas: ");
    prompt.append(tags_text(&req.approved_tags).as_str());
    prompt.append("\n- Tags rejeitadas: ");
    prompt.append(tags_text(&req.rejected_tags).as_str());
    prompt.append("\n- Tags pendentes: ");
    prompt.append(tags_text(&req.pending_tags).as_str());
    prompt.append(note.as_str());
    prompt.append(
        "\n\nInstruções:\n1. Sugira apenas UMA tag\n2. A tag deve ser descritiva e relevante para a imagem\n3. Use palavras-chave em português, preferencialmente\n4. Seja específico e conciso\n5. NÃO repita tags já existentes\n6. Foque em características visuais, objetos, cores, ou conceitos principais\n\nResponda apenas com a tag sugerida, sem explicações adicionais.",
    );
    prompt
}

/// Writes an encoded image as the address that carries it.
pub fn data_url(encoded: &str) -> (url: String)
    ensures
        url@ == "data:image/jpeg;base64,"@ + encoded@,
{
    let mut url = "data:image/jpeg;base64,".to_owned();
    url.append(encoded);
    url
}

/// Writes an image as the address that carries it, encoded. There is none
/// for an image of more bytes than can be encoded.
pub fn image_data_url(bytes: &[u8]) -> (url: Option<String>)
    ensures
        match url {
            Some(u) => encodable(bytes@.len()) && u@ == "data:image/jpeg;base64,"@ + base64_of(bytes@),
            None => !encodable(bytes@.len()),
        },
{
    if bytes.len() / 3 > (usize::MAX - 4) / 4 {
        return None;
    }
    let encoded = base64_standard(bytes);
    Some(data_url(encoded.as_str()))
}

/// The status that goes with an answer that holds a suggestion or says
/// that the service gave none.
pub const STATUS_OK: u16 = 200;

/// The status that goes with a request that cannot be worked on.
pub const STATUS_BAD_REQUEST: u16 = 400;

/// The status that goes with a failure behind the library.
pub const STATUS_SERVER_ERROR: u16 = 500;

/// What the one who asked is told after `outcome`, given what trimming
/// leaves of an answer: the status, the suggestion and the failure in
/// words.
pub open spec fn suggested(outcome: SuggestionOutcome) -> (u16, Option<Seq<char>>, Option<Seq<char>>) {
    match outcome {
        SuggestionOutcome::KeyEmpty => (
            STATUS_BAD_REQUEST,
            None,
            Some("OpenAI API key is empty. Please configure OPENAI_API_KEY environment variable."@),
        ),
        SuggestionOutcome::KeyMissing => (
            STATUS_BAD_REQUEST,
            None,
            Some("OpenAI API key not configured. Please set OPENAI_API_KEY environment variable."@),
        ),
        SuggestionOutcome::ImageFailed(why) => (
            STATUS_BAD_REQUEST,
            None,
            Some("Failed to process image: "@ + why@),
        ),
        SuggestionOutcome::ConnectionFailed(why) => (
            STATUS_SERVER_ERROR,
            None,
            Some("Connection error: "@ + why@),
        ),
        SuggestionOutcome::Unreadable(why) => (
            STATUS_SERVER_ERROR,
            None,
            Some("JSON parse error: "@ + why@),
        ),
        SuggestionOutcome::Answered(Some(answer)) => if trimmed_of(answer@).len() > 0 {
            (STATUS_OK, Some(trimmed_of(answer@)), None)
        } else {
            (
                STATUS_OK,
                None,
                Some("OpenAI returned an empty or invalid response. Please try again."@),
            )
        },
        SuggestionOutcome::Answered(None) => (
            STATUS_OK,
            None,
            Some("OpenAI returned an empty or invalid response. Please try again."@),
        ),
        SuggestionOutcome::Refused(status, said) => (
            STATUS_SERVER_ERROR,
            None,
            Some("OpenAI API error (status: "@ + status@ + "): "@ + said@),
        ),
    }
}

fn failure(error: String) -> (response: TagSuggestionResponse)
    ensures
        !response.success,
        response.suggestion is None,
        words_of(response.error) == Some(error@),
{
    TagSuggestionResponse { success: false, suggestion: None, error: Some(error) }
}

fn prefixed(prefix: &str, rest: &str) -> (text: String)
    ensures
        text@ == prefix@ + rest@,
{
    let mut text = prefix.to_owned();
    text.append(rest);
    text
}

/// Makes an answer of a suggestion that was trimmed already: the
/// suggestion, where one is left; else the word that the service gave none.
pub fn suggestion_answer(trimmed: Option<String>) -> (response: TagSuggestionResponse)
    ensures
        response.success == (trimmed matches Some(t) && t@.len() > 0),
        response.success ==> words_of(response.suggestion) == words_of(trimmed) && response.error is None,
        !response.success ==> response.suggestion is None && words_of(response.error) == Some(
            "OpenAI returned an empty or invalid response. Please try again."@,
        ),
{
    match trimmed {
        Some(text) => {
            if !text.as_str().is_empty() {
                return TagSuggestionResponse { success: true, suggestion: Some(text), error: None };
            }
        },
        None => {},
    }
    failure("OpenAI returned an empty or invalid response. Please try again.".to_owned())
}

/// Makes of the end of an attempt the status and the answer that the one
/// who asked is told. An answer of the service counts as a suggestion if
/// trimming leaves something of it.
pub fn suggestion_response(outcome: SuggestionOutcome) -> (told: (u16, TagSuggestionResponse))
    ensures
        told.0 == suggested(outcome).0,
        words_of(told.1.suggestion) == suggested(outcome).1,
        words_of(told.1.error) == suggested(outcome).2,
        told.1.success == (suggested(outcome).1 is Some),
{
    match outcome {
        SuggestionOutcome::KeyEmpty => (
            STATUS_BAD_REQUEST,
            failure(
                "OpenAI API key is empty. Please configure OPENAI_API_KEY environment variable.".to_owned(),
            ),
        ),
        SuggestionOutcome::KeyMissing => (
            STATUS_BAD_REQUEST,
            failure(
                "OpenAI API key not configured. Please set OPENAI_API_KEY environment variable.".to_owned(),
            ),
        ),
        SuggestionOutcome::ImageFailed(why) => (
            STATUS_BAD_REQUEST,
            failure(prefixed("Failed to process image: ", why.as_str())),
        ),
        SuggestionOutcome::ConnectionFailed(why) => (
            STATUS_SERVER_ERROR,
            failure(prefixed("Connection error: ", why.as_str())),
        ),
        SuggestionOutcome::Unreadable(why) => (
            STATUS_SERVER_ERROR,
            failure(prefixed("JSON parse error: ", why.as_str())),
        ),
        SuggestionOutcome::Answered(answer) => {
            let trimmed = match answer {
                Some(text) => Some(trim(text.as_str()).to_owned()),
                None => None,
            };
            (STATUS_OK, suggestion_answer(trimmed))
        },
        SuggestionOutcome::Refused(status, said) => {
            let mut error = "OpenAI API error (status: ".to_owned();
            error.append(status.as_str());
            error.append("): ");
            error.append(said.as_str());
            (STATUS_SERVER_ERROR, failure(error))
        },
    }
}

} // verus!
