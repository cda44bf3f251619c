use opc_commands::personality::{
    apply_code_style_choices, apply_communication_choices, auto_learn_start, convert_indent_style, extract_code_blocks,
    AutoLearnStart,
    extract_samples_from_messages, personality_from_bootstrap, personality_from_payload, personality_info,
    pick_naming_convention, ChatMessage, CodingStyleChoices, CommunicationChoices, DetailLevel,
    ExplanationDepth, IndentStyle, MessageRole, NamingConvention, NamingPattern, NamingPatternType,
    PersonalityCreateBootstrapPayload, PersonalityCreatePayload, ProfileCommentStyle, ProfileIndentStyle,
    Tone,
};

fn np(kind: NamingPatternType, count: u32) -> NamingPattern {
    NamingPattern { pattern_type: kind, count }
}

#[test]
fn code_block_with_language_is_extracted() {
    let text = "intro\n```rust\nfn main() {\n    let x = 1;\n}\n```\noutro";
    let blocks = extract_code_blocks(text);
    assert_eq!(blocks.len(), 1);
    assert_eq!(blocks[0].0, "fn main() {\n    let x = 1;\n}");
    assert_eq!(blocks[0].1, "rust");
}

#[test]
fn code_block_without_language_is_unknown() {
    let text = "```\na = 1\nb = 2\n```";
    let blocks = extract_code_blocks(text);
    assert_eq!(blocks.len(), 1);
    assert_eq!(blocks[0].0, "a = 1\nb = 2");
    assert_eq!(blocks[0].1, "unknown");
}

#[test]
fn short_code_block_is_skipped() {
    let text = "```python\nprint(1)\n\n```";
    assert!(extract_code_blocks(text).is_empty());
}

#[test]
fn unclosed_code_block_is_skipped() {
    let text = "```js\nlet a = 1;\nlet b = 2;\n";
    assert!(extract_code_blocks(text).is_empty());
}

#[test]
fn indented_fences_and_crlf_lines() {
    let text = "  ```go \r\nx := 1\r\ny := 2\r\n   ```\r\n```sh\nls\npwd\n```";
    let blocks = extract_code_blocks(text);
    assert_eq!(blocks.len(), 2);
    assert_eq!(blocks[0].0, "x := 1\ny := 2");
    assert_eq!(blocks[0].1, "go");
    assert_eq!(blocks[1].0, "ls\npwd");
    assert_eq!(blocks[1].1, "sh");
}

#[test]
fn samples_take_code_from_all_and_text_from_users() {
    let messages = vec![
        ChatMessage { role: MessageRole::User, content: "hello".to_string(), created_at: 10 },
        ChatMessage {
            role: MessageRole::Assistant,
            content: "```c\nint a;\nint b;\n```".to_string(),
            created_at: 20,
        },
    ];
    let (code, msgs) = extract_samples_from_messages(&messages);
    assert_eq!(code.len(), 1);
    assert_eq!(code[0].code, "int a;\nint b;");
    assert_eq!(code[0].language, "c");
    assert_eq!(code[0].timestamp, 20);
    assert_eq!(msgs.len(), 1);
    assert_eq!(msgs[0].content, "hello");
    assert_eq!(msgs[0].role, "user");
    assert_eq!(msgs[0].timestamp, 10);
}

#[test]
fn naming_picks_most_frequent() {
    let ps = vec![
        np(NamingPatternType::Snake, 3),
        np(NamingPatternType::Camel, 5),
        np(NamingPatternType::Snake, 1),
    ];
    assert_eq!(pick_naming_convention(&ps), NamingConvention::CamelCase);
}

#[test]
fn naming_tie_prefers_snake_then_camel() {
    let ps = vec![np(NamingPatternType::Pascal, 4), np(NamingPatternType::Snake, 4)];
    assert_eq!(pick_naming_convention(&ps), NamingConvention::SnakeCase);
    let qs = vec![np(NamingPatternType::Kebab, 2), np(NamingPatternType::Camel, 2)];
    assert_eq!(pick_naming_convention(&qs), NamingConvention::CamelCase);
}

#[test]
fn naming_without_counts_is_mixed() {
    assert_eq!(pick_naming_convention(&vec![]), NamingConvention::Mixed);
    assert_eq!(pick_naming_convention(&vec![np(NamingPatternType::Snake, 0)]), NamingConvention::Mixed);
}

#[test]
fn indent_conversion() {
    assert_eq!(convert_indent_style(&IndentStyle::Tabs), ProfileIndentStyle::Tabs);
    assert_eq!(convert_indent_style(&IndentStyle::Spaces(2)), ProfileIndentStyle::TwoSpaces);
    assert_eq!(convert_indent_style(&IndentStyle::Spaces(1)), ProfileIndentStyle::TwoSpaces);
    assert_eq!(convert_indent_style(&IndentStyle::Spaces(4)), ProfileIndentStyle::FourSpaces);
}

#[test]
fn code_style_update_records_changed_fields() {
    let mut profile = CodingStyleChoices {
        naming_convention: NamingConvention::SnakeCase,
        indentation_style: ProfileIndentStyle::Tabs,
        comment_style: ProfileCommentStyle::Moderate,
    };
    let new = CodingStyleChoices {
        naming_convention: NamingConvention::CamelCase,
        indentation_style: ProfileIndentStyle::Tabs,
        comment_style: ProfileCommentStyle::DocBlock,
    };
    let mut fields = vec!["earlier".to_string()];
    apply_code_style_choices(&mut profile, new, &mut fields);
    assert_eq!(profile, new);
    assert_eq!(
        fields,
        vec![
            "earlier".to_string(),
            "coding_style.naming_convention=CamelCase".to_string(),
            "coding_style.comment_style=DocBlock".to_string(),
        ]
    );
    let mut again: Vec<String> = Vec::new();
    apply_code_style_choices(&mut profile, new, &mut again);
    assert!(again.is_empty());
}

#[test]
fn communication_update_records_changed_fields() {
    let mut profile = CommunicationChoices {
        tone: Tone::Neutral,
        detail_level: DetailLevel::Moderate,
        explanation_depth: ExplanationDepth::Standard,
    };
    let new = CommunicationChoices {
        tone: Tone::Formal,
        detail_level: DetailLevel::Comprehensive,
        explanation_depth: ExplanationDepth::Standard,
    };
    let mut fields: Vec<String> = Vec::new();
    apply_communication_choices(&mut profile, new, &mut fields);
    assert_eq!(profile, new);
    assert_eq!(
        fields,
        vec!["communication.tone=Formal".to_string(), "communication.detail_level=Comprehensive".to_string()]
    );
}

#[test]
fn create_payload_defaults() {
    let p = personality_from_payload(
        PersonalityCreatePayload {
            name: "coder".to_string(),
            content: "soul".to_string(),
            description: None,
            version: None,
        },
        42,
    );
    assert_eq!(p.name, "coder");
    assert_eq!(p.version, "1.0.0");
    assert_eq!(p.description, "");
    assert_eq!(p.content, "soul");
    assert_eq!(p.identity, "");
    assert_eq!(p.user, "");
    assert_eq!(p.created_at, 42);
    let q = personality_from_payload(
        PersonalityCreatePayload {
            name: "b".to_string(),
            content: String::new(),
            description: Some("d".to_string()),
            version: Some("2.1".to_string()),
        },
        1,
    );
    assert_eq!(q.version, "2.1");
    assert_eq!(q.description, "d");
}

#[test]
fn bootstrap_payload_fills_documents() {
    let p = personality_from_bootstrap(
        PersonalityCreateBootstrapPayload {
            name: "boot".to_string(),
            soul: Some("S".to_string()),
            identity: None,
            user: Some("U".to_string()),
        },
        7,
    );
    assert_eq!(p.version, "1.0.0");
    assert_eq!(p.description, "");
    assert_eq!(p.content, "S");
    assert_eq!(p.identity, "");
    assert_eq!(p.user, "U");
}

#[test]
fn personality_list_entries() {
    let loaded = personality_info(
        "a".to_string(),
        Some(("a".to_string(), "1.2".to_string(), "desc".to_string())),
        Some("a"),
    );
    assert_eq!(loaded.name, "a");
    assert_eq!(loaded.version, "1.2");
    assert_eq!(loaded.description, "desc");
    assert!(loaded.is_active);
    let broken = personality_info("b".to_string(), None, Some("a"));
    assert_eq!(broken.name, "b");
    assert_eq!(broken.version, "?");
    assert_eq!(broken.description, "");
    assert!(!broken.is_active);
    assert!(!personality_info("c".to_string(), None, None).is_active);
}

#[test]
fn extracted_blocks_have_languages_and_use_two_fences_each() {
    let text = "```\na\nb\n```\n```x\n\n```\n```py\nc\nd\n```\n```";
    let blocks = extract_code_blocks(text);
    let fences = text.lines().filter(|l| l.trim_start().starts_with("```")).count();
    assert_eq!(blocks.len(), 2);
    assert!(2 * blocks.len() <= fences);
    assert!(blocks.iter().all(|(_, lang)| !lang.is_empty() && lang == lang.trim()));
    assert_eq!(blocks[0].1, "unknown");
    assert_eq!(blocks[1].1, "py");
}

#[test]
fn code_block_language_is_trimmed_and_code_holds_no_fence() {
    let text = "```  python  \nx = 1\n\ny = 2\n```\n```\nonly one line\n```\n```sh\necho a\necho b\n```";
    let blocks = extract_code_blocks(text);
    assert_eq!(blocks.len(), 2);
    assert_eq!(blocks[0], ("x = 1\n\ny = 2".to_string(), "python".to_string()));
    assert_eq!(blocks[1], ("echo a\necho b".to_string(), "sh".to_string()));
    let fences = text.lines().filter(|l| l.trim_start().starts_with("```")).count();
    assert!(2 * blocks.len() <= fences);
    for (code, lang) in &blocks {
        assert!(!lang.is_empty() && lang.trim() == lang);
        assert!(code.lines().filter(|l| !l.trim().is_empty()).count() >= 2);
        assert!(code.lines().all(|l| !l.trim_start().starts_with("```")));
    }
}

#[test]
fn auto_learn_start_decides_from_samples() {
    let (start, code, msgs) = auto_learn_start(&vec![]);
    assert_eq!(start, AutoLearnStart::NoMessages);
    assert!(code.is_empty() && msgs.is_empty());
    assert_eq!(start.message(), "Conversation has no messages to learn from");

    let reply = ChatMessage { role: MessageRole::Assistant, content: "plain answer".to_string(), created_at: 7 };
    let (start, _, _) = auto_learn_start(&vec![reply]);
    assert_eq!(start, AutoLearnStart::NoSamples);
    assert_eq!(start.message(), "No usable code or message samples found in conversation");

    let ask = ChatMessage { role: MessageRole::User, content: "please review".to_string(), created_at: 8 };
    let (start, code, msgs) = auto_learn_start(&vec![ask]);
    assert_eq!(start, AutoLearnStart::Learn);
    assert!(code.is_empty());
    assert_eq!(msgs.len(), 1);
    assert_eq!(msgs[0].content, "please review");
    assert_eq!(start.message(), "");
}
