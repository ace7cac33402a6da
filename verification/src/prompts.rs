//! The prompts: which there are, and what one says.
//!
//! One prompt is registered, `analyze-health`, which shows the client a
//! reading of the machine's load and asks for a judgement.
//! [`handle_get_prompt`] checks the name and says which [`Call`] is to be
//! made; [`health_prompt`] turns the reading into the prompt.

use crate::capability::plan_view;
use crate::capability::Call;
use crate::capability::CallView;
use crate::capability::StatsView;
use crate::capability::SystemStats;
use crate::json::empty_array;
use crate::json::empty_object;
use crate::json::text;
use crate::json::Json;
use crate::json::JsonView;
use crate::text::str_eq;
use crate::tools::stats_report;
use crate::tools::stats_text;
use vstd::prelude::*;
use vstd::string::StringExecFns;

verus! {

/// The list of the registered prompts.
pub open spec fn prompts_listing() -> JsonView {
    empty_object().with(
        "prompts"@,
        empty_array().and(
            empty_object().with("name"@, text("analyze-health"@)).with(
                "description"@,
                text("Analyze system health based on current stats"@),
            ).with("arguments"@, empty_array()),
        ),
    )
}

/// Lists the registered prompts. The list is the same at every call.
pub fn handle_list_prompts() -> (r: Json)
    ensures
        r@ == prompts_listing(),
{
    let prompt = Json::object().with("name", Json::text("analyze-health")).with(
        "description",
        Json::text("Analyze system health based on current stats"),
    ).with("arguments", Json::array());
    Json::object().with("prompts", Json::array().and(prompt))
}

/// What getting the prompt `name` comes to: the call to make, or why there
/// is none. The arguments play no part.
pub open spec fn plan_prompt(name: Seq<char>) -> Result<CallView, Seq<char>> {
    if name == "analyze-health"@ {
        Ok(CallView::AnalyzeHealth)
    } else {
        Err("Prompt not found: "@ + name)
    }
}

/// Checks the name of a prompt, and says which call is to be made.
pub fn handle_get_prompt(name: &str, _arguments: Option<&Json>) -> (r: Result<Call, String>)
    ensures
        plan_view(r) == plan_prompt(name@),
{
    if str_eq(name, "analyze-health") {
        Ok(Call::AnalyzeHealth)
    } else {
        Err(String::from_str("Prompt not found: ").concat(name))
    }
}

/// What the health prompt says to the model for a reading of the load.
pub open spec fn health_text(stats: StatsView) -> Seq<char> {
    "Here are the current system statistics:\n\n"@ + stats_text(stats)
        + "\n\nPlease analyze if the development environment is healthy or if there are any resource constraints I should be aware of."@
}

/// The health prompt: a description, and one message from the user.
pub open spec fn health_prompt_of(stats: StatsView) -> JsonView {
    empty_object().with("description"@, text("Analyze system health"@)).with(
        "messages"@,
        empty_array().and(
            empty_object().with("role"@, text("user"@)).with(
                "content"@,
                empty_object().with("type"@, text("text"@)).with("text"@, text(health_text(stats))),
            ),
        ),
    )
}

/// The health prompt for a reading of the machine's load.
pub fn health_prompt(stats: &SystemStats) -> (r: Json)
    ensures
        r@ == health_prompt_of(stats@),
{
    let report = stats_report(stats);
    let mut said = String::from_str("Here are the current system statistics:\n\n");
    said.append(report.as_str());
    said.append(
        "\n\nPlease analyze if the development environment is healthy or if there are any resource constraints I should be aware of.",
    );
    let content = Json::object().with("type", Json::text("text")).with(
        "text",
        Json::text(said.as_str()),
    );
    let message = Json::object().with("role", Json::text("user")).with("content", content);
    Json::object().with("description", Json::text("Analyze system health")).with(
        "messages",
        Json::array().and(message),
    )
}

} // verus!
