use template_resolver::catalog::canonical_name;
use template_resolver::catalog::display_list;
use template_resolver::catalog::display_variant;
use template_resolver::catalog::parse;
use template_resolver::catalog::ParseError;
use template_resolver::catalog::PromptTemplateType;

fn all_variants() -> Vec<PromptTemplateType> {
    vec![
        PromptTemplateType::Llama2Chat,
        PromptTemplateType::MistralInstruct,
        PromptTemplateType::MistralLite,
        PromptTemplateType::OpenChat,
        PromptTemplateType::CodeLlama,
        PromptTemplateType::CodeLlamaSuper,
        PromptTemplateType::HumanAssistant,
        PromptTemplateType::VicunaChat,
        PromptTemplateType::Vicuna11Chat,
        PromptTemplateType::VicunaLlava,
        PromptTemplateType::ChatML,
        PromptTemplateType::Baichuan2,
        PromptTemplateType::WizardCoder,
        PromptTemplateType::Zephyr,
        PromptTemplateType::StableLMZephyr,
        PromptTemplateType::IntelNeural,
        PromptTemplateType::DeepseekChat,
        PromptTemplateType::DeepseekCoder,
        PromptTemplateType::SolarInstruct,
        PromptTemplateType::Phi2Chat,
        PromptTemplateType::Phi2Instruct,
        PromptTemplateType::GemmaInstruct,
    ]
}

#[test]
fn parse_accepts_every_alias() {
    let cases = vec![
        ("llama-2-chat", PromptTemplateType::Llama2Chat),
        ("mistral-instruct", PromptTemplateType::MistralInstruct),
        ("mistrallite", PromptTemplateType::MistralLite),
        ("codellama-instruct", PromptTemplateType::CodeLlama),
        ("codellama-super-instruct", PromptTemplateType::CodeLlamaSuper),
        ("belle-llama-2-chat", PromptTemplateType::HumanAssistant),
        ("human-assistant", PromptTemplateType::HumanAssistant),
        ("vicuna-1.0-chat", PromptTemplateType::VicunaChat),
        ("vicuna-1.1-chat", PromptTemplateType::Vicuna11Chat),
        ("vicuna-llava", PromptTemplateType::VicunaLlava),
        ("chatml", PromptTemplateType::ChatML),
        ("openchat", PromptTemplateType::OpenChat),
        ("baichuan-2", PromptTemplateType::Baichuan2),
        ("wizard-coder", PromptTemplateType::WizardCoder),
        ("zephyr", PromptTemplateType::Zephyr),
        ("stablelm-zephyr", PromptTemplateType::StableLMZephyr),
        ("intel-neural", PromptTemplateType::IntelNeural),
        ("deepseek-chat", PromptTemplateType::DeepseekChat),
        ("deepseek-coder", PromptTemplateType::DeepseekCoder),
        ("solar-instruct", PromptTemplateType::SolarInstruct),
        ("phi-2-chat", PromptTemplateType::Phi2Chat),
        ("phi-2-instruct", PromptTemplateType::Phi2Instruct),
        ("gemma-instruct", PromptTemplateType::GemmaInstruct),
    ];
    for (alias, expected) in cases {
        assert_eq!(parse(alias), Ok(expected), "alias {}", alias);
    }
}

#[test]
fn parse_rejects_unknown_string_with_input() {
    match parse("not-a-template") {
        Err(ParseError::Unrecognized(s)) => assert_eq!(s, "not-a-template"),
        Ok(t) => panic!("unexpectedly parsed: {:?}", t),
    }
}

#[test]
fn parse_rejects_empty_string() {
    match parse("") {
        Err(ParseError::Unrecognized(s)) => assert_eq!(s, ""),
        Ok(t) => panic!("unexpectedly parsed: {:?}", t),
    }
}

#[test]
fn parse_is_case_sensitive() {
    assert!(matches!(parse("ChatML"), Err(ParseError::Unrecognized(_))));
    assert!(matches!(parse("LLAMA-2-CHAT"), Err(ParseError::Unrecognized(_))));
}

#[test]
fn display_list_is_fixed_and_ordered() {
    let list = display_list();
    assert_eq!(list.len(), 20);
    assert_eq!(list[0], "llama-2-chat");
    assert_eq!(list[1], "mistral-instruct");
    assert_eq!(list[6], "human-assistant");
    assert_eq!(list[19], "gemma-instruct");
}

#[test]
fn display_entries_round_trip() {
    for (i, name) in display_list().iter().enumerate() {
        let parsed = parse(name).unwrap_or_else(|_| panic!("entry {} did not parse", i));
        assert_eq!(canonical_name(parsed), *name, "entry {}", i);
        assert_eq!(parsed, display_variant(i));
    }
}

#[test]
fn canonical_names_round_trip_for_all_variants() {
    for v in all_variants() {
        assert_eq!(parse(canonical_name(v)), Ok(v), "variant {:?}", v);
    }
}

#[test]
fn canonical_names_are_pairwise_distinct() {
    let variants = all_variants();
    for a in &variants {
        for b in &variants {
            if a != b {
                assert_ne!(canonical_name(*a), canonical_name(*b));
            }
        }
    }
}

#[test]
fn phi_variants_absent_from_display_list() {
    let list = display_list();
    assert!(!list.contains(&"phi-2-chat"));
    assert!(!list.contains(&"phi-2-instruct"));
    assert_eq!(parse("phi-2-chat"), Ok(PromptTemplateType::Phi2Chat));
    assert_eq!(parse("phi-2-instruct"), Ok(PromptTemplateType::Phi2Instruct));
}

#[test]
fn legacy_alias_shares_variant_with_canonical() {
    assert_eq!(parse("belle-llama-2-chat"), parse("human-assistant"));
    assert_eq!(
        canonical_name(parse("belle-llama-2-chat").unwrap()),
        "human-assistant"
    );
}
