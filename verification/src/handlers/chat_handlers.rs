//! What a question about the platform is sent out with, and what comes
//! back to the one who asked.

use vstd::prelude::*;
use vstd::string::StringExecFns;
use crate::table::Table;
use crate::text::{decimal_text, decimal_u64, join, joined, texts};

verus! {

/// How many members and images a group has.
#[derive(Debug)]
pub struct GroupStat {
    pub name: String,
    pub member_count: usize,
    pub image_count: usize,
}

/// The figures of the platform that a question is asked about.
pub struct ChatContext {
    pub total_images: usize,
    pub total_groups: usize,
    pub total_tags: usize,
    pub pending_suggestions: usize,
    pub group_stats: Vec<GroupStat>,
    pub tag_stats: Table<usize>,
}

/// A question about the platform, with the figures it is asked about.
pub struct ChatRequest {
    pub message: String,
    pub context: ChatContext,
}

/// Where an answer came from.
#[derive(Debug)]
pub struct AnswerSource {
    pub kind: String,
    pub model: String,
}

/// What the one who asked is told.
#[derive(Debug)]
pub struct ChatResponse {
    pub success: bool,
    pub message: Option<String>,
    pub error: Option<String>,
    pub data: Option<AnswerSource>,
}

/// How the attempt to have a question answered ended.
pub enum ChatOutcome {
    /// No key for the answering service is configured.
    KeyMissing,
    /// The service could not be reached; the text says why.
    ConnectionFailed(String),
    /// The service answered what could not be read; the text says why.
    Unreadable(String),
    /// The service answered, with this text if it gave one.
    Answered(Option<String>),
    /// The service refused; the text is what it said.
    Refused(String),
}

/// The model that questions are put to.
pub open spec fn chat_model() -> Seq<char> {
    "gpt-4o-mini"@
}

/// The line that tells of one group in the figures' text.
pub open spec fn group_line(name: Seq<char>, members: int, images: int) -> Seq<char> {
    "- "@ + name + ": "@ + decimal_text(members) + " membros, "@ + decimal_text(images) + " imagens"@
}

/// The lines that tell of the groups, one for each, in their order.
pub open spec fn group_lines(stats: Seq<GroupStat>) -> Seq<Seq<char>> {
    Seq::new(
        stats.len(),
        |i: int| group_line(stats[i].name@, stats[i].member_count as int, stats[i].image_count as int),
    )
}

/// The figures of the platform as the text that goes out with a question.
pub open spec fn context_words(context: ChatContext) -> Seq<char> {
    "Dados da plataforma de imagens:\n- Total de imagens: "@ + decimal_text(context.total_images as int)
        + "\n- Total de grupos: "@ + decimal_text(context.total_groups as int)
        + "\n- Total de tags aprovadas: "@ + decimal_text(context.total_tags as int)
        + "\n- Sugestões pendentes: "@ + decimal_text(context.pending_suggestions as int)
        + "\n\nGrupos:\n"@ + joined(group_lines(context.group_stats@), "\n"@)
}

/// The question as it goes out: the figures' text, then the question.
pub open spec fn question_words(context: ChatContext, message: Seq<char>) -> Seq<char> {
    "Contexto da plataforma:\n"@ + context_words(context) + "\n\nPergunta do usuário: "@ + message
}

/// Writes the line that tells of one group.
pub fn group_stat_line(stat: &GroupStat) -> (line: String)
    ensures
        line@ == group_line(stat.name@, stat.member_count as int, stat.image_count as int),
{
    let mut line = "- ".to_owned();
    line.append(stat.name.as_str());
    line.append(": ");
    line.append(decimal_u64(stat.member_count as u64).as_str());
    line.append(" membros, ");
    line.append(decimal_u64(stat.image_count as u64).as_str());
    line.append(" imagens");
    line
}

/// Writes the figures of the platform as text.
pub fn context_text(context: &ChatContext) -> (text: String)
    ensures
        text@ == context_words(*context),
{
    let mut lines: Vec<String> = Vec::new();
    let mut i: usize = 0;
    while i < context.group_stats.len()
        invariant
            i <= context.group_stats@.len(),
            lines@.len() == i,
            forall|j: int| 0 <= j < i ==> (#[trigger] lines@[j])@ == group_lines(context.group_stats@)[j],
        decreases context.group_stats@.len() - i,
    {
        lines.push(group_stat_line(&context.group_stats[i]));
        i += 1;
    }
    assert(texts(lines@) =~= group_lines(context.group_stats@));
    let mut text = "Dados da plataforma de imagens:\n- Total de imagens: ".to_owned();
    text.append(decimal_u64(context.total_images as u64).as_str());
    text.append("\n- Total de grupos: ");
    text.append(decimal_u64(context.total_groups as u64).as_str());
    text.append("\n- Total de tags aprovadas: ");
    text.append(decimal_u64(context.total_tags as u64).as_str());
    text.append("\n- Sugestões pendentes: ");
    text.append(decimal_u64(context.pending_suggestions as u64).as_str());
    text.append("\n\nGrupos:\n");
    text.append(join(&lines, "\n").as_str());
    text
}

/// Writes the question as it goes out.
pub fn question_text(request: &ChatRequest) -> (text: String)
    ensures
        text@ == question_words(request.context, request.message@),
{
    let mut text = "Contexto da plataforma:\n".to_owned();
    text.append(context_text(&request.context).as_str());
    text.append("\n\nPergunta do usuário: ");
    text.append(request.message.as_str());
    text
}

/// The characters of an optional text.
pub open spec fn words_of(text: Option<String>) -> Option<Seq<char>> {
    match text {
        Some(t) => Some(t@),
        None => None,
    }
}

/// What the one who asked is told after `outcome`: whether there is an
/// answer, the message, and the failure in plain words.
pub open spec fn told(outcome: ChatOutcome) -> (bool, Seq<char>, Option<Seq<char>>) {
    match outcome {
        ChatOutcome::KeyMissing => (
            false,
            "❌ **Erro:** Chave da API OpenAI não configurada. Configure a variável OPENAI_API_KEY."@,
            Some("OpenAI API key not configured"@),
        ),
        ChatOutcome::ConnectionFailed(why) => (
            false,
            "❌ **Erro de conexão:** "@ + why@,
            Some("Connection error: "@ + why@),
        ),
        ChatOutcome::Unreadable(why) => (
            false,
            "❌ **Erro ao processar resposta:** "@ + why@,
            Some("JSON parse error: "@ + why@),
        ),
        ChatOutcome::Answered(Some(answer)) => (true, answer@, None),
        ChatOutcome::Answered(None) => (true, "Desculpe, não consegui processar sua pergunta."@, None),
        ChatOutcome::Refused(said) => (
            false,
            "❌ **Erro da API OpenAI:** "@ + said@,
            Some("OpenAI API error: "@ + said@),
        ),
    }
}

fn prefixed(prefix: &str, rest: &str) -> (text: String)
    ensures
        text@ == prefix@ + rest@,
{
    let mut text = prefix.to_owned();
    text.append(rest);
    text
}

/// Makes of the end of an attempt what the one who asked is told. An
/// answer comes with its source; a failure comes without.
pub fn chat_response(outcome: ChatOutcome) -> (response: ChatResponse)
    ensures
        response.success == told(outcome).0,
        words_of(response.message) == Some(told(outcome).1),
        words_of(response.error) == told(outcome).2,
        match response.data {
            Some(source) => outcome is Answered && source.kind@ == "openai_response"@ && source.model@
                == chat_model(),
            None => !(outcome is Answered),
        },
{
    match outcome {
        ChatOutcome::KeyMissing => ChatResponse {
            success: false,
            message: Some(
                "❌ **Erro:** Chave da API OpenAI não configurada. Configure a variável OPENAI_API_KEY.".to_owned(),
            ),
            error: Some("OpenAI API key not configured".to_owned()),
            data: None,
        },
        ChatOutcome::ConnectionFailed(why) => ChatResponse {
            success: false,
            message: Some(prefixed("❌ **Erro de conexão:** ", why.as_str())),
            error: Some(prefixed("Connection error: ", why.as_str())),
            data: None,
        },
        ChatOutcome::Unreadable(why) => ChatResponse {
            success: false,
            message: Some(prefixed("❌ **Erro ao processar resposta:** ", why.as_str())),
            error: Some(prefixed("JSON parse error: ", why.as_str())),
            data: None,
        },
        ChatOutcome::Answered(answer) => {
            let message = match answer {
                Some(text) => text,
                None => "Desculpe, não consegui processar sua pergunta.".to_owned(),
            };
            ChatResponse {
                success: true,
                message: Some(message),
                error: None,
                data: Some(
                    AnswerSource { kind: "openai_response".to_owned(), model: "gpt-4o-mini".to_owned() },
                ),
            }
        },
        ChatOutcome::Refused(said) => ChatResponse {
            success: false,
            message: Some(prefixed("❌ **Erro da API OpenAI:** ", said.as_str())),
            error: Some(prefixed("OpenAI API error: ", said.as_str())),
            data: None,
        },
    }
}

} // verus!
