//! The models of DeepSeek.

use crate::model;
use crate::model::{ModelInfo, ModelInfoView};
use crate::text;
use vstd::prelude::*;

verus! {

/// The larger model; it reasons.
pub open spec fn pro_model() -> ModelInfoView {
    ModelInfoView {
        id: "deepseek-v4-pro"@,
        provider: "deepseek"@,
        display_name: "DeepSeek V4 Pro"@,
        context_window: 1_000_000,
        supports_tools: true,
        supports_reasoning: true,
        aliases: seq!["deepseek-chat"@],
        max_output_tokens: Some(32000),
    }
}

/// The faster model; it does not reason.
pub open spec fn flash_model() -> ModelInfoView {
    ModelInfoView {
        id: "deepseek-v4-flash"@,
        provider: "deepseek"@,
        display_name: "DeepSeek V4 Flash"@,
        context_window: 1_000_000,
        supports_tools: true,
        supports_reasoning: false,
        aliases: seq!["deepseek-reasoner"@],
        max_output_tokens: Some(32000),
    }
}

/// The models that the provider knows.
pub fn deepseek_models() -> (r: Vec<ModelInfo>)
    ensures
        model::infos(r@) == seq![pro_model(), flash_model()],
{
    let mut pro_aliases: Vec<String> = Vec::new();
    pro_aliases.push(text::owned("deepseek-chat"));
    let mut flash_aliases: Vec<String> = Vec::new();
    flash_aliases.push(text::owned("deepseek-reasoner"));
    let pro = ModelInfo {
        id: text::owned("deepseek-v4-pro"),
        provider: text::owned("deepseek"),
        display_name: text::owned("DeepSeek V4 Pro"),
        context_window: 1_000_000,
        supports_tools: true,
        supports_reasoning: true,
        aliases: pro_aliases,
        max_output_tokens: Some(32000),
    };
    let flash = ModelInfo {
        id: text::owned("deepseek-v4-flash"),
        provider: text::owned("deepseek"),
        display_name: text::owned("DeepSeek V4 Flash"),
        context_window: 1_000_000,
        supports_tools: true,
        supports_reasoning: false,
        aliases: flash_aliases,
        max_output_tokens: Some(32000),
    };
    assert(pro@.aliases =~= pro_model().aliases);
    assert(flash@.aliases =~= flash_model().aliases);
    let mut out: Vec<ModelInfo> = Vec::new();
    out.push(pro);
    out.push(flash);
    assert(model::infos(out@) =~= seq![pro_model(), flash_model()]);
    out
}

/// Whether a model, by its name in lower case, reasons and wants its reasoning back: one
/// of the fourth generation or with a telling name, unless it is a fast one.
pub open spec fn reasons(lower: Seq<char>) -> bool {
    !text::occurs(lower, "flash"@) && (text::occurs(lower, "deepseek-v4"@) || text::occurs(
        lower,
        "reasoner"@,
    ) || text::occurs(lower, "-reasoning"@) || text::occurs(lower, "-thinking"@))
}

/// Decides by a name in lower case whether the model reasons.
pub fn is_reasoning_name(lower: &str) -> (r: bool)
    ensures
        r == reasons(lower@),
{
    if text::contains(lower, "flash") {
        return false;
    }
    text::contains(lower, "deepseek-v4") || text::contains(lower, "reasoner") || text::contains(
        lower,
        "-reasoning",
    ) || text::contains(lower, "-thinking")
}

/// Whether a model gives reasoning content.
pub fn requires_reasoning_content(model: &str) -> (r: bool)
    ensures
        r == reasons(text::lowercase(model@)),
{
    let lower = text::to_lowercase(model);
    is_reasoning_name(lower.as_str())
}

/// Whether reasoning has to be sent back to a model.
pub fn should_replay_reasoning(model: &str) -> (r: bool)
    ensures
        r == reasons(text::lowercase(model@)),
{
    requires_reasoning_content(model)
}

/// A fast model never reasons. Any other one reasons where its name says that it is of the
/// fourth generation, a reasoner, or made for reasoning or thinking, and nowhere else.
pub proof fn law_names_tell_reasoning(lower: Seq<char>)
    ensures
        text::occurs(lower, "flash"@) ==> !reasons(lower),
        !text::occurs(lower, "flash"@) && text::occurs(lower, "deepseek-v4"@) ==> reasons(lower),
        !text::occurs(lower, "flash"@) && text::occurs(lower, "reasoner"@) ==> reasons(lower),
        !text::occurs(lower, "flash"@) && text::occurs(lower, "-reasoning"@) ==> reasons(lower),
        !text::occurs(lower, "flash"@) && text::occurs(lower, "-thinking"@) ==> reasons(lower),
        reasons(lower) ==> text::occurs(lower, "deepseek-v4"@) || text::occurs(lower, "reasoner"@)
            || text::occurs(lower, "-reasoning"@) || text::occurs(lower, "-thinking"@),
{
}

/// The two models: their ids and aliases lead to different models of the same provider, both
/// call tools, and only the larger one reasons.
pub proof fn law_models_are_told_apart()
    ensures
        pro_model().id == "deepseek-v4-pro"@,
        flash_model().id == "deepseek-v4-flash"@,
        pro_model().provider == "deepseek"@,
        flash_model().provider == "deepseek"@,
        pro_model().aliases == seq!["deepseek-chat"@],
        flash_model().aliases == seq!["deepseek-reasoner"@],
        pro_model().supports_tools,
        flash_model().supports_tools,
        pro_model().supports_reasoning,
        !flash_model().supports_reasoning,
        pro_model().context_window == 1_000_000,
        flash_model().context_window == 1_000_000,
        pro_model().max_output_tokens == Some(32000u64),
        flash_model().max_output_tokens == Some(32000u64),
{
}

/// The models of the provider are named so that the name of each leads to it, both take
/// tools, and only the larger one reasons.
pub proof fn law_models_of_the_provider()
    ensures
        pro_model().id == "deepseek-v4-pro"@,
        flash_model().id == "deepseek-v4-flash"@,
        pro_model().provider == "deepseek"@,
        flash_model().provider == "deepseek"@,
        pro_model().aliases == seq!["deepseek-chat"@],
        flash_model().aliases == seq!["deepseek-reasoner"@],
        pro_model().supports_tools,
        flash_model().supports_tools,
        pro_model().supports_reasoning,
        !flash_model().supports_reasoning,
        pro_model().context_window == 1_000_000,
        flash_model().context_window == 1_000_000,
        pro_model().max_output_tokens == Some(32000u64),
        flash_model().max_output_tokens == Some(32000u64),
        reasons(pro_model().id),
        !reasons(flash_model().id),
{
    reveal_strlit("deepseek-v4-pro");
    reveal_strlit("deepseek-v4-flash");
    reveal_strlit("deepseek-v4");
    reveal_strlit("flash");
    let pro = "deepseek-v4-pro"@;
    let flash = "deepseek-v4-flash"@;
    assert(pro.subrange(0, 0int + "deepseek-v4"@.len()) =~= "deepseek-v4"@);
    assert(text::occurs(pro, "deepseek-v4"@));
    assert(flash.subrange(12, 12int + "flash"@.len()) =~= "flash"@);
    assert(text::occurs(flash, "flash"@));
    assert forall|i: int| 0 <= i <= pro.len() - "flash"@.len() implies #[trigger] pro.subrange(
        i,
        i + "flash"@.len(),
    ) != "flash"@ by {
        assert(pro.subrange(i, i + "flash"@.len())[0] == pro[i]);
        assert("flash"@[0] == 'f');
    }
    assert(!text::occurs(pro, "flash"@));
}

} // verus!
