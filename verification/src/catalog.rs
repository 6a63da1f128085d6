//! The template catalog: the closed set of supported prompt-template
//! identifiers, the alias table that maps accepted input strings to variants,
//! and the canonical name of each variant.

use vstd::prelude::*;

verus! {

/// A supported chat-formatting convention. The set is closed: values are
/// constructed only by parsing an accepted alias or by interactive selection.
#[derive(Clone, Copy, Debug, PartialEq, Eq, Structural)]
pub enum PromptTemplateType {
    Llama2Chat,
    MistralInstruct,
    MistralLite,
    OpenChat,
    CodeLlama,
    CodeLlamaSuper,
    HumanAssistant,
    VicunaChat,
    Vicuna11Chat,
    VicunaLlava,
    ChatML,
    Baichuan2,
    WizardCoder,
    Zephyr,
    StableLMZephyr,
    IntelNeural,
    DeepseekChat,
    DeepseekCoder,
    SolarInstruct,
    Phi2Chat,
    Phi2Instruct,
    GemmaInstruct,
}

/// A rejected template name: the input matched no accepted alias.
/// The unrecognized input is carried along for diagnostics.
#[derive(Debug, PartialEq, Eq)]
pub enum ParseError {
    Unrecognized(String),
}

/// The alias table as a mathematical function. It is many-to-one:
/// `belle-llama-2-chat` is a legacy alias for the same variant as
/// `human-assistant`. The order of comparisons is immaterial because the
/// alias strings are pairwise distinct.
pub open spec fn spec_parse(s: Seq<char>) -> Option<PromptTemplateType> {
    if s == "llama-2-chat"@ {
        Some(PromptTemplateType::Llama2Chat)
    } else if s == "mistral-instruct"@ {
        Some(PromptTemplateType::MistralInstruct)
    } else if s == "mistrallite"@ {
        Some(PromptTemplateType::MistralLite)
    } else if s == "codellama-instruct"@ {
        Some(PromptTemplateType::CodeLlama)
    } else if s == "codellama-super-instruct"@ {
        Some(PromptTemplateType::CodeLlamaSuper)
    } else if s == "belle-llama-2-chat"@ {
        Some(PromptTemplateType::HumanAssistant)
    } else if s == "human-assistant"@ {
        Some(PromptTemplateType::HumanAssistant)
    } else if s == "vicuna-1.0-chat"@ {
        Some(PromptTemplateType::VicunaChat)
    } else if s == "vicuna-1.1-chat"@ {
        Some(PromptTemplateType::Vicuna11Chat)
    } else if s == "vicuna-llava"@ {
        Some(PromptTemplateType::VicunaLlava)
    } else if s == "chatml"@ {
        Some(PromptTemplateType::ChatML)
    } else if s == "openchat"@ {
        Some(PromptTemplateType::OpenChat)
    } else if s == "baichuan-2"@ {
        Some(PromptTemplateType::Baichuan2)
    } else if s == "wizard-coder"@ {
        Some(PromptTemplateType::WizardCoder)
    } else if s == "zephyr"@ {
        Some(PromptTemplateType::Zephyr)
    } else if s == "stablelm-zephyr"@ {
        Some(PromptTemplateType::StableLMZephyr)
    } else if s == "intel-neural"@ {
        Some(PromptTemplateType::IntelNeural)
    } else if s == "deepseek-chat"@ {
        Some(PromptTemplateType::DeepseekChat)
    } else if s == "deepseek-coder"@ {
        Some(PromptTemplateType::DeepseekCoder)
    } else if s == "solar-instruct"@ {
        Some(PromptTemplateType::SolarInstruct)
    } else if s == "phi-2-chat"@ {
        Some(PromptTemplateType::Phi2Chat)
    } else if s == "phi-2-instruct"@ {
        Some(PromptTemplateType::Phi2Instruct)
    } else if s == "gemma-instruct"@ {
        Some(PromptTemplateType::GemmaInstruct)
    } else {
        None
    }
}

/// The canonical lowercase-hyphenated name of each variant, one per variant.
/// Every canonical name is itself an accepted alias, so parsing a canonical
/// name always recovers the variant (`lemma_canonical_round_trip`).
pub open spec fn spec_canonical_name(t: PromptTemplateType) -> Seq<char> {
    match t {
        PromptTemplateType::Llama2Chat => "llama-2-chat"@,
        PromptTemplateType::MistralInstruct => "mistral-instruct"@,
        PromptTemplateType::MistralLite => "mistrallite"@,
        PromptTemplateType::OpenChat => "openchat"@,
        PromptTemplateType::CodeLlama => "codellama-instruct"@,
        PromptTemplateType::CodeLlamaSuper => "codellama-super-instruct"@,
        PromptTemplateType::HumanAssistant => "human-assistant"@,
        PromptTemplateType::VicunaChat => "vicuna-1.0-chat"@,
        PromptTemplateType::Vicuna11Chat => "vicuna-1.1-chat"@,
        PromptTemplateType::VicunaLlava => "vicuna-llava"@,
        PromptTemplateType::ChatML => "chatml"@,
        PromptTemplateType::Baichuan2 => "baichuan-2"@,
        PromptTemplateType::WizardCoder => "wizard-coder"@,
        PromptTemplateType::Zephyr => "zephyr"@,
        PromptTemplateType::StableLMZephyr => "stablelm-zephyr"@,
        PromptTemplateType::IntelNeural => "intel-neural"@,
        PromptTemplateType::DeepseekChat => "deepseek-chat"@,
        PromptTemplateType::DeepseekCoder => "deepseek-coder"@,
        PromptTemplateType::SolarInstruct => "solar-instruct"@,
        PromptTemplateType::Phi2Chat => "phi-2-chat"@,
        PromptTemplateType::Phi2Instruct => "phi-2-instruct"@,
        PromptTemplateType::GemmaInstruct => "gemma-instruct"@,
    }
}

/// String equality by content, via owned copies. Verified against vstd's
/// specifications for `str::to_owned` and `String` equality.
fn str_eq(a: &str, b: &str) -> (r: bool)
    ensures
        r == (a@ == b@),
{
    let x: String = a.to_owned();
    let y: String = b.to_owned();
    x == y
}

/// Deterministic, case-sensitive exact match of `input` against the fixed
/// alias table. Succeeds exactly on the accepted aliases; any other string
/// is rejected with `ParseError::Unrecognized` carrying the input.
pub fn parse(input: &str) -> (r: Result<PromptTemplateType, ParseError>)
    ensures
        spec_parse(input@) matches Some(t) ==> r == Ok::<PromptTemplateType, ParseError>(t),
        spec_parse(input@) is None ==> (r matches Err(ParseError::Unrecognized(u)) && u@
            == input@),
{
    if str_eq(input, "llama-2-chat") {
        Ok(PromptTemplateType::Llama2Chat)
    } else if str_eq(input, "mistral-instruct") {
        Ok(PromptTemplateType::MistralInstruct)
    } else if str_eq(input, "mistrallite") {
        Ok(PromptTemplateType::MistralLite)
    } else if str_eq(input, "codellama-instruct") {
        Ok(PromptTemplateType::CodeLlama)
    } else if str_eq(input, "codellama-super-instruct") {
        Ok(PromptTemplateType::CodeLlamaSuper)
    } else if str_eq(input, "belle-llama-2-chat") {
        Ok(PromptTemplateType::HumanAssistant)
    } else if str_eq(input, "human-assistant") {
        Ok(PromptTemplateType::HumanAssistant)
    } else if str_eq(input, "vicuna-1.0-chat") {
        Ok(PromptTemplateType::VicunaChat)
    } else if str_eq(input, "vicuna-1.1-chat") {
        Ok(PromptTemplateType::Vicuna11Chat)
    } else if str_eq(input, "vicuna-llava") {
        Ok(PromptTemplateType::VicunaLlava)
    } else if str_eq(input, "chatml") {
        Ok(PromptTemplateType::ChatML)
    } else if str_eq(input, "openchat") {
        Ok(PromptTemplateType::OpenChat)
    } else if str_eq(input, "baichuan-2") {
        Ok(PromptTemplateType::Baichuan2)
    } else if str_eq(input, "wizard-coder") {
        Ok(PromptTemplateType::WizardCoder)
    } else if str_eq(input, "zephyr") {
        Ok(PromptTemplateType::Zephyr)
    } else if str_eq(input, "stablelm-zephyr") {
        Ok(PromptTemplateType::StableLMZephyr)
    } else if str_eq(input, "intel-neural") {
        Ok(PromptTemplateType::IntelNeural)
    } else if str_eq(input, "deepseek-chat") {
        Ok(PromptTemplateType::DeepseekChat)
    } else if str_eq(input, "deepseek-coder") {
        Ok(PromptTemplateType::DeepseekCoder)
    } else if str_eq(input, "solar-instruct") {
        Ok(PromptTemplateType::SolarInstruct)
    } else if str_eq(input, "phi-2-chat") {
        Ok(PromptTemplateType::Phi2Chat)
    } else if str_eq(input, "phi-2-instruct") {
        Ok(PromptTemplateType::Phi2Instruct)
    } else if str_eq(input, "gemma-instruct") {
        Ok(PromptTemplateType::GemmaInstruct)
    } else {
        Err(ParseError::Unrecognized(input.to_owned()))
    }
}

/// The canonical name of a variant. Total and injective
/// (`lemma_canonical_injective`).
pub fn canonical_name(t: PromptTemplateType) -> (r: &'static str)
    ensures
        r@ == spec_canonical_name(t),
{
    match t {
        PromptTemplateType::Llama2Chat => "llama-2-chat",
        PromptTemplateType::MistralInstruct => "mistral-instruct",
        PromptTemplateType::MistralLite => "mistrallite",
        PromptTemplateType::OpenChat => "openchat",
        PromptTemplateType::CodeLlama => "codellama-instruct",
        PromptTemplateType::CodeLlamaSuper => "codellama-super-instruct",
        PromptTemplateType::HumanAssistant => "human-assistant",
        PromptTemplateType::VicunaChat => "vicuna-1.0-chat",
        PromptTemplateType::Vicuna11Chat => "vicuna-1.1-chat",
        PromptTemplateType::VicunaLlava => "vicuna-llava",
        PromptTemplateType::ChatML => "chatml",
        PromptTemplateType::Baichuan2 => "baichuan-2",
        PromptTemplateType::WizardCoder => "wizard-coder",
        PromptTemplateType::Zephyr => "zephyr",
        PromptTemplateType::StableLMZephyr => "stablelm-zephyr",
        PromptTemplateType::IntelNeural => "intel-neural",
        PromptTemplateType::DeepseekChat => "deepseek-chat",
        PromptTemplateType::DeepseekCoder => "deepseek-coder",
        PromptTemplateType::SolarInstruct => "solar-instruct",
        PromptTemplateType::Phi2Chat => "phi-2-chat",
        PromptTemplateType::Phi2Instruct => "phi-2-instruct",
        PromptTemplateType::GemmaInstruct => "gemma-instruct",
    }
}

/// The fixed, stable-ordered list of selectable template names shown to the
/// operator. Order is significant: interactive selection is by position.
/// Two variants, `Phi2Chat` and `Phi2Instruct`, are deliberately absent and
/// are reachable only by direct input of their canonical names.
pub open spec fn spec_display_list() -> Seq<Seq<char>> {
    seq![
        "llama-2-chat"@,
        "mistral-instruct"@,
        "mistrallite"@,
        "codellama-instruct"@,
        "codellama-super-instruct"@,
        "openchat"@,
        "human-assistant"@,
        "vicuna-1.0-chat"@,
        "vicuna-1.1-chat"@,
        "vicuna-llava"@,
        "chatml"@,
        "baichuan-2"@,
        "wizard-coder"@,
        "zephyr"@,
        "stablelm-zephyr"@,
        "intel-neural"@,
        "deepseek-chat"@,
        "deepseek-coder"@,
        "solar-instruct"@,
        "gemma-instruct"@,
    ]
}

/// The variant standing at position `i` of the display list
/// (`lemma_display_entry`: its canonical name is exactly the entry there).
pub open spec fn spec_display_variant(i: int) -> PromptTemplateType {
    if i == 0 {
        PromptTemplateType::Llama2Chat
    } else if i == 1 {
        PromptTemplateType::MistralInstruct
    } else if i == 2 {
        PromptTemplateType::MistralLite
    } else if i == 3 {
        PromptTemplateType::CodeLlama
    } else if i == 4 {
        PromptTemplateType::CodeLlamaSuper
    } else if i == 5 {
        PromptTemplateType::OpenChat
    } else if i == 6 {
        PromptTemplateType::HumanAssistant
    } else if i == 7 {
        PromptTemplateType::VicunaChat
    } else if i == 8 {
        PromptTemplateType::Vicuna11Chat
    } else if i == 9 {
        PromptTemplateType::VicunaLlava
    } else if i == 10 {
        PromptTemplateType::ChatML
    } else if i == 11 {
        PromptTemplateType::Baichuan2
    } else if i == 12 {
        PromptTemplateType::WizardCoder
    } else if i == 13 {
        PromptTemplateType::Zephyr
    } else if i == 14 {
        PromptTemplateType::StableLMZephyr
    } else if i == 15 {
        PromptTemplateType::IntelNeural
    } else if i == 16 {
        PromptTemplateType::DeepseekChat
    } else if i == 17 {
        PromptTemplateType::DeepseekCoder
    } else if i == 18 {
        PromptTemplateType::SolarInstruct
    } else {
        PromptTemplateType::GemmaInstruct
    }
}

/// The selectable template names, in display order.
pub fn display_list() -> (r: Vec<&'static str>)
    ensures
        r.deep_view() == spec_display_list(),
        r@.len() == spec_display_list().len(),
{
    let mut names: Vec<&'static str> = Vec::new();
    names.push("llama-2-chat");
    names.push("mistral-instruct");
    names.push("mistrallite");
    names.push("codellama-instruct");
    names.push("codellama-super-instruct");
    names.push("openchat");
    names.push("human-assistant");
    names.push("vicuna-1.0-chat");
    names.push("vicuna-1.1-chat");
    names.push("vicuna-llava");
    names.push("chatml");
    names.push("baichuan-2");
    names.push("wizard-coder");
    names.push("zephyr");
    names.push("stablelm-zephyr");
    names.push("intel-neural");
    names.push("deepseek-chat");
    names.push("deepseek-coder");
    names.push("solar-instruct");
    names.push("gemma-instruct");
    proof {
        assert(names.deep_view() =~= spec_display_list());
    }
    names
}

/// The variant at position `i` of the display list.
pub fn display_variant(i: usize) -> (t: PromptTemplateType)
    requires
        i < spec_display_list().len(),
    ensures
        t == spec_display_variant(i as int),
{
    if i == 0 {
        PromptTemplateType::Llama2Chat
    } else if i == 1 {
        PromptTemplateType::MistralInstruct
    } else if i == 2 {
        PromptTemplateType::MistralLite
    } else if i == 3 {
        PromptTemplateType::CodeLlama
    } else if i == 4 {
        PromptTemplateType::CodeLlamaSuper
    } else if i == 5 {
        PromptTemplateType::OpenChat
    } else if i == 6 {
        PromptTemplateType::HumanAssistant
    } else if i == 7 {
        PromptTemplateType::VicunaChat
    } else if i == 8 {
        PromptTemplateType::Vicuna11Chat
    } else if i == 9 {
        PromptTemplateType::VicunaLlava
    } else if i == 10 {
        PromptTemplateType::ChatML
    } else if i == 11 {
        PromptTemplateType::Baichuan2
    } else if i == 12 {
        PromptTemplateType::WizardCoder
    } else if i == 13 {
        PromptTemplateType::Zephyr
    } else if i == 14 {
        PromptTemplateType::StableLMZephyr
    } else if i == 15 {
        PromptTemplateType::IntelNeural
    } else if i == 16 {
        PromptTemplateType::DeepseekChat
    } else if i == 17 {
        PromptTemplateType::DeepseekCoder
    } else if i == 18 {
        PromptTemplateType::SolarInstruct
    } else {
        PromptTemplateType::GemmaInstruct
    }
}

/// Law: every canonical name is itself an accepted alias, so parsing the
/// canonical name of any variant returns exactly that variant. In
/// particular every variant reachable through the display list round-trips.
/// Law: every canonical name is itself an accepted alias, so parsing the
/// canonical name of any variant returns exactly that variant. In
/// particular every variant reachable through the display list round-trips.
/// The proof pins down the length and a distinguishing character of each
/// alias string: each differs from every other in length, in its first
/// character, or (for the two vicuna chat versions) in the character that
/// carries the version number.
pub proof fn lemma_canonical_round_trip(t: PromptTemplateType)
    ensures
        spec_parse(spec_canonical_name(t)) == Some(t),
{
    reveal_strlit("llama-2-chat");
    reveal_strlit("mistral-instruct");
    reveal_strlit("mistrallite");
    reveal_strlit("codellama-instruct");
    reveal_strlit("codellama-super-instruct");
    reveal_strlit("belle-llama-2-chat");
    reveal_strlit("human-assistant");
    reveal_strlit("vicuna-1.0-chat");
    reveal_strlit("vicuna-1.1-chat");
    reveal_strlit("vicuna-llava");
    reveal_strlit("chatml");
    reveal_strlit("openchat");
    reveal_strlit("baichuan-2");
    reveal_strlit("wizard-coder");
    reveal_strlit("zephyr");
    reveal_strlit("stablelm-zephyr");
    reveal_strlit("intel-neural");
    reveal_strlit("deepseek-chat");
    reveal_strlit("deepseek-coder");
    reveal_strlit("solar-instruct");
    reveal_strlit("phi-2-chat");
    reveal_strlit("phi-2-instruct");
    reveal_strlit("gemma-instruct");
    assert("llama-2-chat"@.len() == 12 && "llama-2-chat"@[0] == 'l');
    assert("mistral-instruct"@.len() == 16 && "mistral-instruct"@[0] == 'm');
    assert("mistrallite"@.len() == 11 && "mistrallite"@[0] == 'm');
    assert("codellama-instruct"@.len() == 18 && "codellama-instruct"@[0] == 'c');
    assert("codellama-super-instruct"@.len() == 24 && "codellama-super-instruct"@[0] == 'c');
    assert("belle-llama-2-chat"@.len() == 18 && "belle-llama-2-chat"@[0] == 'b');
    assert("human-assistant"@.len() == 15 && "human-assistant"@[0] == 'h');
    assert("vicuna-1.0-chat"@.len() == 15 && "vicuna-1.0-chat"@[0] == 'v');
    assert("vicuna-1.1-chat"@.len() == 15 && "vicuna-1.1-chat"@[0] == 'v');
    assert("vicuna-1.0-chat"@[9] == '0' && "vicuna-1.1-chat"@[9] == '1');
    assert("vicuna-llava"@.len() == 12 && "vicuna-llava"@[0] == 'v');
    assert("chatml"@.len() == 6 && "chatml"@[0] == 'c');
    assert("openchat"@.len() == 8 && "openchat"@[0] == 'o');
    assert("baichuan-2"@.len() == 10 && "baichuan-2"@[0] == 'b');
    assert("wizard-coder"@.len() == 12 && "wizard-coder"@[0] == 'w');
    assert("zephyr"@.len() == 6 && "zephyr"@[0] == 'z');
    assert("stablelm-zephyr"@.len() == 15 && "stablelm-zephyr"@[0] == 's');
    assert("intel-neural"@.len() == 12 && "intel-neural"@[0] == 'i');
    assert("deepseek-chat"@.len() == 13 && "deepseek-chat"@[0] == 'd');
    assert("deepseek-coder"@.len() == 14 && "deepseek-coder"@[0] == 'd');
    assert("solar-instruct"@.len() == 14 && "solar-instruct"@[0] == 's');
    assert("phi-2-chat"@.len() == 10 && "phi-2-chat"@[0] == 'p');
    assert("phi-2-instruct"@.len() == 14 && "phi-2-instruct"@[0] == 'p');
    assert("gemma-instruct"@.len() == 14 && "gemma-instruct"@[0] == 'g');
}

/// Law: the canonical-name mapping is injective — distinct variants never
/// share a canonical name.
pub proof fn lemma_canonical_injective(a: PromptTemplateType, b: PromptTemplateType)
    requires
        spec_canonical_name(a) == spec_canonical_name(b),
    ensures
        a == b,
{
    lemma_canonical_round_trip(a);
    lemma_canonical_round_trip(b);
}

/// Law: each display-list entry is the canonical name of the variant at its
/// position, and parsing that entry recovers the same variant. Position 0
/// therefore names the default selection.
pub proof fn lemma_display_entry(i: int)
    requires
        0 <= i < spec_display_list().len(),
    ensures
        spec_display_list()[i] == spec_canonical_name(spec_display_variant(i)),
        spec_parse(spec_display_list()[i]) == Some(spec_display_variant(i)),
{
    lemma_canonical_round_trip(spec_display_variant(i));
}

} // verus!
