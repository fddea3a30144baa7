use annotation_store::handlers::{
    build_prompt, chat_response, context_text, data_url, group_stat_line, image_data_url,
    key_is_usable, question_text, suggestion_answer, suggestion_response, ChatContext,
    ChatOutcome, ChatRequest, GroupStat, SuggestionOutcome, TagSuggestionRequest,
};
use annotation_store::table::Table;

fn stat(name: &str, members: usize, images: usize) -> GroupStat {
    GroupStat { name: name.to_string(), member_count: members, image_count: images }
}

fn context(stats: Vec<GroupStat>) -> ChatContext {
    ChatContext {
        total_images: 12,
        total_groups: 3,
        total_tags: 40,
        pending_suggestions: 0,
        group_stats: stats,
        tag_stats: Table::new(),
    }
}

fn words(list: &[&str]) -> Vec<String> {
    list.iter().map(|s| s.to_string()).collect()
}

fn request(approved: &[&str], rejected: &[&str], pending: &[&str]) -> TagSuggestionRequest {
    TagSuggestionRequest {
        group_name: "Gatos".to_string(),
        approved_tags: words(approved),
        rejected_tags: words(rejected),
        pending_tags: words(pending),
        image_name: "cat.png".to_string(),
        image_url: "http://localhost/uploads/1_cat.png".to_string(),
    }
}

const INSTRUCTIONS: &str = "\n\nInstruções:\n1. Sugira apenas UMA tag\n2. A tag deve ser descritiva e relevante para a imagem\n3. Use palavras-chave em português, preferencialmente\n4. Seja específico e conciso\n5. NÃO repita tags já existentes\n6. Foque em características visuais, objetos, cores, ou conceitos principais\n\nResponda apenas com a tag sugerida, sem explicações adicionais.";

#[test]
fn group_line_names_members_and_images() {
    assert_eq!(group_stat_line(&stat("Gatos", 3, 10)), "- Gatos: 3 membros, 10 imagens");
    assert_eq!(group_stat_line(&stat("", 0, 0)), "- : 0 membros, 0 imagens");
}

#[test]
fn context_text_lists_the_figures_and_the_groups() {
    let text = context_text(&context(vec![stat("Gatos", 3, 10), stat("Viagens", 1, 2)]));
    assert_eq!(
        text,
        "Dados da plataforma de imagens:\n- Total de imagens: 12\n- Total de grupos: 3\n- Total de tags aprovadas: 40\n- Sugestões pendentes: 0\n\nGrupos:\n- Gatos: 3 membros, 10 imagens\n- Viagens: 1 membros, 2 imagens"
    );
}

#[test]
fn context_text_without_groups_ends_after_the_heading() {
    let text = context_text(&context(Vec::new()));
    assert!(text.ends_with("\n\nGrupos:\n"));
}

#[test]
fn question_text_puts_the_question_behind_the_figures() {
    let req = ChatRequest {
        message: "Quantas imagens?".to_string(),
        context: context(vec![stat("Gatos", 3, 10)]),
    };
    let text = question_text(&req);
    assert_eq!(
        text,
        format!(
            "Contexto da plataforma:\n{}\n\nPergunta do usuário: Quantas imagens?",
            context_text(&req.context)
        )
    );
}

#[test]
fn chat_response_for_a_missing_key() {
    let r = chat_response(ChatOutcome::KeyMissing);
    assert!(!r.success);
    assert_eq!(
        r.message.as_deref(),
        Some("❌ **Erro:** Chave da API OpenAI não configurada. Configure a variável OPENAI_API_KEY.")
    );
    assert_eq!(r.error.as_deref(), Some("OpenAI API key not configured"));
    assert!(r.data.is_none());
}

#[test]
fn chat_response_for_failures_carries_the_reason() {
    let r = chat_response(ChatOutcome::ConnectionFailed("timed out".to_string()));
    assert!(!r.success);
    assert_eq!(r.message.as_deref(), Some("❌ **Erro de conexão:** timed out"));
    assert_eq!(r.error.as_deref(), Some("Connection error: timed out"));
    assert!(r.data.is_none());
    let r = chat_response(ChatOutcome::Unreadable("eof".to_string()));
    assert!(!r.success);
    assert_eq!(r.message.as_deref(), Some("❌ **Erro ao processar resposta:** eof"));
    assert_eq!(r.error.as_deref(), Some("JSON parse error: eof"));
    let r = chat_response(ChatOutcome::Refused("quota".to_string()));
    assert!(!r.success);
    assert_eq!(r.message.as_deref(), Some("❌ **Erro da API OpenAI:** quota"));
    assert_eq!(r.error.as_deref(), Some("OpenAI API error: quota"));
    assert!(r.data.is_none());
}

#[test]
fn chat_response_for_an_answer_names_its_source() {
    let r = chat_response(ChatOutcome::Answered(Some("São 12.".to_string())));
    assert!(r.success);
    assert_eq!(r.message.as_deref(), Some("São 12."));
    assert!(r.error.is_none());
    let source = r.data.expect("an answer has a source");
    assert_eq!(source.kind, "openai_response");
    assert_eq!(source.model, "gpt-4o-mini");
    let r = chat_response(ChatOutcome::Answered(None));
    assert!(r.success);
    assert_eq!(r.message.as_deref(), Some("Desculpe, não consegui processar sua pergunta."));
    assert!(r.data.is_some());
}

#[test]
fn prompt_without_tags_says_none_three_times() {
    let prompt = build_prompt(&request(&[], &[], &[]));
    assert_eq!(
        prompt,
        format!(
            "Analise esta imagem do grupo \"Gatos\" e sugira UMA tag descritiva e relevante.\n\nContexto:\n- Nome da imagem: cat.png\n- Grupo: Gatos\n- Tags aprovadas: Nenhuma\n- Tags rejeitadas: Nenhuma\n- Tags pendentes: Nenhuma{}",
            INSTRUCTIONS
        )
    );
}

#[test]
fn prompt_with_tags_lists_them_and_notes_all() {
    let prompt = build_prompt(&request(&["fofo", "gato"], &["cão"], &[]));
    assert_eq!(
        prompt,
        format!(
            "Analise esta imagem do grupo \"Gatos\" e sugira UMA tag descritiva e relevante.\n\nContexto:\n- Nome da imagem: cat.png\n- Grupo: Gatos\n- Tags aprovadas: fofo, gato\n- Tags rejeitadas: cão\n- Tags pendentes: Nenhuma\n\nTags já existentes (NÃO repita estas): fofo, gato, cão{}",
            INSTRUCTIONS
        )
    );
}

#[test]
fn a_key_of_white_space_is_not_usable() {
    assert!(key_is_usable("a key"));
    assert!(key_is_usable("  k  "));
    assert!(!key_is_usable(""));
    assert!(!key_is_usable("   "));
    assert!(!key_is_usable("\t\n"));
}

#[test]
fn data_url_carries_the_encoded_image() {
    assert_eq!(data_url("aGk="), "data:image/jpeg;base64,aGk=");
    assert_eq!(image_data_url(b"hi").as_deref(), Some("data:image/jpeg;base64,aGk="));
    assert_eq!(image_data_url(b"").as_deref(), Some("data:image/jpeg;base64,"));
    assert_eq!(
        image_data_url(&[0xff, 0xd8, 0xff, 0xe0]).as_deref(),
        Some("data:image/jpeg;base64,/9j/4A==")
    );
}

#[test]
fn suggestion_answer_wants_some_text() {
    let r = suggestion_answer(Some("fofo".to_string()));
    assert!(r.success);
    assert_eq!(r.suggestion.as_deref(), Some("fofo"));
    assert!(r.error.is_none());
    for empty in [Some(String::new()), None] {
        let r = suggestion_answer(empty);
        assert!(!r.success);
        assert!(r.suggestion.is_none());
        assert_eq!(
            r.error.as_deref(),
            Some("OpenAI returned an empty or invalid response. Please try again.")
        );
    }
}

#[test]
fn suggestion_response_trims_the_answer() {
    let (status, r) = suggestion_response(SuggestionOutcome::Answered(Some("  fofo \n".to_string())));
    assert_eq!(status, 200);
    assert!(r.success);
    assert_eq!(r.suggestion.as_deref(), Some("fofo"));
    assert!(r.error.is_none());
    let (status, r) = suggestion_response(SuggestionOutcome::Answered(Some("  \n".to_string())));
    assert_eq!(status, 200);
    assert!(!r.success);
    assert!(r.suggestion.is_none());
    let (status, r) = suggestion_response(SuggestionOutcome::Answered(None));
    assert_eq!(status, 200);
    assert!(!r.success);
    assert_eq!(
        r.error.as_deref(),
        Some("OpenAI returned an empty or invalid response. Please try again.")
    );
}

#[test]
fn suggestion_response_for_failures_has_status_and_words() {
    let (status, r) = suggestion_response(SuggestionOutcome::KeyEmpty);
    assert_eq!(status, 400);
    assert!(!r.success);
    assert_eq!(
        r.error.as_deref(),
        Some("OpenAI API key is empty. Please configure OPENAI_API_KEY environment variable.")
    );
    let (status, r) = suggestion_response(SuggestionOutcome::KeyMissing);
    assert_eq!(status, 400);
    assert_eq!(
        r.error.as_deref(),
        Some("OpenAI API key not configured. Please set OPENAI_API_KEY environment variable.")
    );
    let (status, r) = suggestion_response(SuggestionOutcome::ImageFailed("404".to_string()));
    assert_eq!(status, 400);
    assert_eq!(r.error.as_deref(), Some("Failed to process image: 404"));
    let (status, r) = suggestion_response(SuggestionOutcome::ConnectionFailed("down".to_string()));
    assert_eq!(status, 500);
    assert_eq!(r.error.as_deref(), Some("Connection error: down"));
    let (status, r) = suggestion_response(SuggestionOutcome::Unreadable("eof".to_string()));
    assert_eq!(status, 500);
    assert_eq!(r.error.as_deref(), Some("JSON parse error: eof"));
    let (status, r) = suggestion_response(SuggestionOutcome::Refused(
        "429 Too Many Requests".to_string(),
        "slow down".to_string(),
    ));
    assert_eq!(status, 500);
    assert!(!r.success);
    assert!(r.suggestion.is_none());
    assert_eq!(
        r.error.as_deref(),
        Some("OpenAI API error (status: 429 Too Many Requests): slow down")
    );
}
