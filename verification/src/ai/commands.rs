//! The stand-in for the model router: it answers every request itself,
//! choosing the shape of the answer by what the prompt asks for.

use vstd::prelude::*;
use vstd::string::*;
use crate::ai::types::{AiRequest, AiResponse, ConsensusResult};
use crate::project::types::ProjectContext;
use crate::text::{
    concat2, concat3, has_substring, lowercase, str_contains, str_eq, to_lowercase,
};
use crate::types::TauriResult;

verus! {

/// Confidence of the stand-in's answers, in thousandths.
pub const MOCK_CONFIDENCE: u32 = 920;

/// Cost of one token of the stand-in, in billionths of a currency unit.
pub const MOCK_COST_PER_TOKEN: u64 = 370;

/// Time the stand-in claims to have taken, in milliseconds.
pub const MOCK_RESPONSE_TIME: u64 = 800;

/// The explanation given for a prompt that reads `prompt` in lower case.
pub open spec fn explanation_body(lower_prompt: Seq<char>) -> Seq<char> {
    if has_substring(lower_prompt, "rust"@) {
        "Rust is a systems programming language focused on safety and performance. It provides zero-cost abstractions and memory safety without garbage collection."@
    } else if has_substring(lower_prompt, "typescript"@) {
        "TypeScript adds static typing to JavaScript, helping catch errors at compile time and improving code maintainability in large projects."@
    } else {
        "I'd be happy to explain this concept in detail. The key aspects to understand are the underlying principles and how they apply to your specific use case."@
    }
}

/// The answer to a prompt that asks for an explanation.
pub open spec fn explanation_text(prompt: Seq<char>, project_type: Seq<char>) -> Seq<char> {
    "Based on your "@ + project_type + " project, here's an explanation:\n\n"@ + explanation_body(
        lowercase(prompt),
    ) + "\n\nThis response takes into account your project structure and dependencies."@
}

/// Answers a prompt that asks for an explanation.
pub fn generate_explanation_response(prompt: &str, context: &ProjectContext) -> (r: String)
    ensures
        r@ == explanation_text(prompt@, context.project_type@),
{
    let lower = to_lowercase(prompt);
    let body = if str_contains(lower.as_str(), "rust") {
        "Rust is a systems programming language focused on safety and performance. It provides zero-cost abstractions and memory safety without garbage collection."
    } else if str_contains(lower.as_str(), "typescript") {
        "TypeScript adds static typing to JavaScript, helping catch errors at compile time and improving code maintainability in large projects."
    } else {
        "I'd be happy to explain this concept in detail. The key aspects to understand are the underlying principles and how they apply to your specific use case."
    };
    let start = concat3(
        "Based on your ",
        context.project_type.as_str(),
        " project, here's an explanation:\n\n",
    );
    concat3(
        start.as_str(),
        body,
        "\n\nThis response takes into account your project structure and dependencies.",
    )
}

/// The sample of code shown for a project of the type `project_type`.
pub open spec fn code_sample(project_type: Seq<char>) -> Seq<char> {
    if project_type == "rust"@ {
        "```rust\n// Example implementation\nfn example_function() -> Result<String, Box<dyn std::error::Error>> {\n    Ok(\"Hello from Rust!\".to_string())\n}\n```"@
    } else if project_type == "typescript"@ {
        "```typescript\n// Example implementation\nfunction exampleFunction(): Promise<string> {\n    return Promise.resolve(\"Hello from TypeScript!\");\n}\n```"@
    } else {
        "```\n// Example implementation\nfunction exampleFunction() {\n    return \"Hello from the code!\"; \n}\n```"@
    }
}

/// The answer to a prompt that asks for code.
pub open spec fn code_text(project_type: Seq<char>) -> Seq<char> {
    "Here's a code implementation for your "@ + project_type + " project:\n\n"@ + code_sample(
        project_type,
    )
        + "\n\nThis follows best practices for your project type and includes proper error handling."@
}

/// Answers a prompt that asks for code.
pub fn generate_code_response(prompt: &str, context: &ProjectContext) -> (r: String)
    ensures
        r@ == code_text(context.project_type@),
{
    let sample = if str_eq(context.project_type.as_str(), "rust") {
        "```rust\n// Example implementation\nfn example_function() -> Result<String, Box<dyn std::error::Error>> {\n    Ok(\"Hello from Rust!\".to_string())\n}\n```"
    } else if str_eq(context.project_type.as_str(), "typescript") {
        "```typescript\n// Example implementation\nfunction exampleFunction(): Promise<string> {\n    return Promise.resolve(\"Hello from TypeScript!\");\n}\n```"
    } else {
        "```\n// Example implementation\nfunction exampleFunction() {\n    return \"Hello from the code!\"; \n}\n```"
    };
    let start = concat3(
        "Here's a code implementation for your ",
        context.project_type.as_str(),
        " project:\n\n",
    );
    concat3(
        start.as_str(),
        sample,
        "\n\nThis follows best practices for your project type and includes proper error handling.",
    )
}

/// The answer to a prompt that asks for help with a fault.
pub open spec fn debug_text(prompt: Seq<char>) -> Seq<char> {
    "Let's debug this issue step by step:\n\n1. **Identify the Problem**: "@ + (if has_substring(
        lowercase(prompt),
        "error"@,
    ) {
        "The error suggests a specific issue that we can trace"@
    } else {
        "We need to understand the unexpected behavior"@
    })
        + "\n2. **Check Common Causes**: Review logs, dependencies, and recent changes\n3. **Systematic Testing**: Isolate the issue with minimal test cases\n4. **Apply Fix**: Implement the solution with proper error handling\n\nWould you like me to analyze any specific error messages or stack traces?"@
}

/// Answers a prompt that asks for help with a fault.
pub fn generate_debug_response(prompt: &str, context: &ProjectContext) -> (r: String)
    ensures
        r@ == debug_text(prompt@),
{
    let lower = to_lowercase(prompt);
    let problem = if str_contains(lower.as_str(), "error") {
        "The error suggests a specific issue that we can trace"
    } else {
        "We need to understand the unexpected behavior"
    };
    concat3(
        "Let's debug this issue step by step:\n\n1. **Identify the Problem**: ",
        problem,
        "\n2. **Check Common Causes**: Review logs, dependencies, and recent changes\n3. **Systematic Testing**: Isolate the issue with minimal test cases\n4. **Apply Fix**: Implement the solution with proper error handling\n\nWould you like me to analyze any specific error messages or stack traces?",
    )
}

/// The advice on speed for a project of the type `project_type`.
pub open spec fn optimization_tips(project_type: Seq<char>) -> Seq<char> {
    if project_type == "rust"@ {
        "\u{2022} Use `cargo clippy` for performance suggestions\n\u{2022} Consider `Arc<T>` for shared ownership\n\u{2022} Profile with `cargo bench` for bottlenecks"@
    } else if project_type == "typescript"@ {
        "\u{2022} Use proper TypeScript strict mode\n\u{2022} Implement lazy loading for large modules\n\u{2022} Consider using Web Workers for CPU-intensive tasks"@
    } else {
        "\u{2022} Profile the application to identify bottlenecks\n\u{2022} Optimize database queries and API calls\n\u{2022} Implement caching strategies"@
    }
}

/// The answer to a prompt that asks for more speed.
pub open spec fn optimization_text(project_type: Seq<char>) -> Seq<char> {
    "Here are optimization strategies for your "@ + project_type + " project:\n\n"@
        + optimization_tips(project_type)
        + "\n\nPerformance optimization should be driven by measurements and profiling data."@
}

/// Answers a prompt that asks for more speed.
pub fn generate_optimization_response(prompt: &str, context: &ProjectContext) -> (r: String)
    ensures
        r@ == optimization_text(context.project_type@),
{
    let tips = if str_eq(context.project_type.as_str(), "rust") {
        "\u{2022} Use `cargo clippy` for performance suggestions\n\u{2022} Consider `Arc<T>` for shared ownership\n\u{2022} Profile with `cargo bench` for bottlenecks"
    } else if str_eq(context.project_type.as_str(), "typescript") {
        "\u{2022} Use proper TypeScript strict mode\n\u{2022} Implement lazy loading for large modules\n\u{2022} Consider using Web Workers for CPU-intensive tasks"
    } else {
        "\u{2022} Profile the application to identify bottlenecks\n\u{2022} Optimize database queries and API calls\n\u{2022} Implement caching strategies"
    };
    let start = concat3(
        "Here are optimization strategies for your ",
        context.project_type.as_str(),
        " project:\n\n",
    );
    concat3(
        start.as_str(),
        tips,
        "\n\nPerformance optimization should be driven by measurements and profiling data.",
    )
}

/// The answer to any other prompt.
pub open spec fn general_text(prompt: Seq<char>, project_type: Seq<char>) -> Seq<char> {
    "I understand you're asking about: \""@ + prompt + "\"\n\nFor your "@ + project_type
        + " project, I can help with:\n\u{2022} Code implementation and best practices\n\u{2022} Debugging and troubleshooting\n\u{2022} Performance optimization\n\u{2022} Architecture decisions\n\u{2022} Library recommendations\n\nCould you provide more specific details about what you'd like to accomplish?"@
}

/// Answers any other prompt.
pub fn generate_general_response(prompt: &str, context: &ProjectContext) -> (r: String)
    ensures
        r@ == general_text(prompt@, context.project_type@),
{
    let start = concat3("I understand you're asking about: \"", prompt, "\"\n\nFor your ");
    concat3(
        start.as_str(),
        context.project_type.as_str(),
        " project, I can help with:\n\u{2022} Code implementation and best practices\n\u{2022} Debugging and troubleshooting\n\u{2022} Performance optimization\n\u{2022} Architecture decisions\n\u{2022} Library recommendations\n\nCould you provide more specific details about what you'd like to accomplish?",
    )
}

/// The estimate of the number of tokens in a text of `bytes` bytes: a
/// quarter of the bytes, at least 1, at most the largest 32-bit number.
pub open spec fn token_estimate(bytes: nat) -> u32 {
    if bytes / 4 < 1 {
        1
    } else if bytes / 4 > u32::MAX {
        u32::MAX
    } else {
        (bytes / 4) as u32
    }
}

/// Estimates the number of tokens in `text`.
pub fn estimate_tokens(text: &str) -> (n: u32)
    ensures
        n == token_estimate(text.spec_bytes().len()),
{
    let quarter: usize = text.as_bytes().len() / 4;
    if quarter < 1 {
        1
    } else if quarter > u32::MAX as usize {
        u32::MAX
    } else {
        quarter as u32
    }
}

/// What a prompt asks for.
#[derive(Debug, Clone, Copy, PartialEq, Eq, Structural)]
pub enum PromptKind {
    Explanation,
    Code,
    Debugging,
    Optimization,
    General,
}

/// What a prompt that reads `lower_prompt` in lower case asks for; the first
/// of the kinds whose words occur in it.
pub open spec fn prompt_kind(lower_prompt: Seq<char>) -> PromptKind {
    if has_substring(lower_prompt, "explain"@) || has_substring(lower_prompt, "what"@) {
        PromptKind::Explanation
    } else if has_substring(lower_prompt, "code"@) || has_substring(lower_prompt, "function"@)
        || has_substring(lower_prompt, "implement"@) {
        PromptKind::Code
    } else if has_substring(lower_prompt, "debug"@) || has_substring(lower_prompt, "error"@)
        || has_substring(lower_prompt, "fix"@) {
        PromptKind::Debugging
    } else if has_substring(lower_prompt, "optimize"@) || has_substring(
        lower_prompt,
        "performance"@,
    ) {
        PromptKind::Optimization
    } else {
        PromptKind::General
    }
}

/// What a prompt already in lower case asks for.
pub fn classify_prompt(lower_prompt: &str) -> (k: PromptKind)
    ensures
        k == prompt_kind(lower_prompt@),
{
    if str_contains(lower_prompt, "explain") || str_contains(lower_prompt, "what") {
        PromptKind::Explanation
    } else if str_contains(lower_prompt, "code") || str_contains(lower_prompt, "function")
        || str_contains(lower_prompt, "implement") {
        PromptKind::Code
    } else if str_contains(lower_prompt, "debug") || str_contains(lower_prompt, "error")
        || str_contains(lower_prompt, "fix") {
        PromptKind::Debugging
    } else if str_contains(lower_prompt, "optimize") || str_contains(lower_prompt, "performance") {
        PromptKind::Optimization
    } else {
        PromptKind::General
    }
}

/// The text the stand-in answers the prompt `prompt` with in a project of
/// the type `project_type`.
pub open spec fn mock_text(prompt: Seq<char>, project_type: Seq<char>) -> Seq<char> {
    match prompt_kind(lowercase(prompt)) {
        PromptKind::Explanation => explanation_text(prompt, project_type),
        PromptKind::Code => code_text(project_type),
        PromptKind::Debugging => debug_text(prompt),
        PromptKind::Optimization => optimization_text(project_type),
        PromptKind::General => general_text(prompt, project_type),
    }
}

/// The prompt with the project put before it, as it is priced.
pub open spec fn contextual_text(project_type: Seq<char>, root_path: Seq<char>, prompt: Seq<char>) -> Seq<
    char,
> {
    "Project Type: "@ + project_type + "\nProject Path: "@ + root_path + "\nUser Query: "@ + prompt
        + "\n\nPlease provide a helpful response."@
}

/// The prompt with the project put before it.
pub fn contextual_prompt(context: &ProjectContext, prompt: &str) -> (r: String)
    ensures
        r@ == contextual_text(context.project_type@, context.root_path@, prompt@),
{
    let a = concat3("Project Type: ", context.project_type.as_str(), "\nProject Path: ");
    let b = concat3(a.as_str(), context.root_path.as_str(), "\nUser Query: ");
    concat3(b.as_str(), prompt, "\n\nPlease provide a helpful response.")
}

/// The consensus `r` is the stand-in's answer to `request` in the project
/// `context`, priced by the text `priced`.
pub open spec fn is_mock_consensus(
    request: AiRequest,
    priced: Seq<char>,
    context: ProjectContext,
    r: ConsensusResult,
) -> bool {
    &&& r.best_response.request_id@ == request.id@
    &&& r.best_response.provider@ == "syntari-ai-consensus"@
    &&& r.best_response.content@ == mock_text(request.prompt@, context.project_type@)
    &&& r.best_response.confidence == MOCK_CONFIDENCE
    &&& r.best_response.cost == token_estimate(vstd::utf8::encode_utf8(priced).len())
        * MOCK_COST_PER_TOKEN
    &&& r.best_response.response_time == MOCK_RESPONSE_TIME
    &&& r.alternative_responses@.len() == 0
    &&& r.confidence_score == MOCK_CONFIDENCE
    &&& r.total_cost == r.best_response.cost
    &&& r.reasoning@ == "Multi-model consensus with cost optimization and quality assurance"@
}

/// The stand-in's answer to `request` in the project `context`. It always
/// succeeds.
pub fn create_smart_mock_response(
    request: &AiRequest,
    contextual_prompt: &str,
    context: &ProjectContext,
) -> (r: Result<ConsensusResult, String>)
    ensures
        r matches Ok(c) && is_mock_consensus(*request, contextual_prompt@, *context, c),
{
    let lower = to_lowercase(request.prompt.as_str());
    let content = match classify_prompt(lower.as_str()) {
        PromptKind::Explanation => generate_explanation_response(request.prompt.as_str(), context),
        PromptKind::Code => generate_code_response(request.prompt.as_str(), context),
        PromptKind::Debugging => generate_debug_response(request.prompt.as_str(), context),
        PromptKind::Optimization => generate_optimization_response(
            request.prompt.as_str(),
            context,
        ),
        PromptKind::General => generate_general_response(request.prompt.as_str(), context),
    };
    let tokens = estimate_tokens(contextual_prompt);
    let cost: u64 = (tokens as u64) * MOCK_COST_PER_TOKEN;
    let best = AiResponse::new(
        request.id.as_str(),
        "syntari-ai-consensus",
        content.as_str(),
    ).with_confidence(MOCK_CONFIDENCE).with_cost(cost).with_response_time(MOCK_RESPONSE_TIME);
    Ok(
        ConsensusResult::single_response(
            best,
            "Multi-model consensus with cost optimization and quality assurance",
        ),
    )
}

/// The project a request is answered for: the open one, or an unknown
/// project at `/tmp/unknown` where none is open.
pub fn answering_context(current: Option<ProjectContext>) -> (c: ProjectContext)
    ensures
        match current {
            Some(p) => c == p,
            None => c.root_path@ == "/tmp/unknown"@ && c.project_type@ == "unknown"@
                && c.open_files@.len() == 0 && c.dependencies@.len() == 0 && c.git_branch is None
                && c.active_framework is None,
        },
{
    match current {
        Some(p) => p,
        None => ProjectContext::new("/tmp/unknown", "unknown"),
    }
}

/// Answers a request in the usual envelope. The answer is the stand-in's,
/// priced by the prompt with the project put before it.
pub fn generate_ai_response(request: &AiRequest, current: Option<ProjectContext>) -> (r: TauriResult<
    ConsensusResult,
>)
    ensures
        r.well_formed(),
        r.success,
        r.data matches Some(c) && {
            let context_type = match current {
                Some(p) => p.project_type@,
                None => "unknown"@,
            };
            let context_root = match current {
                Some(p) => p.root_path@,
                None => "/tmp/unknown"@,
            };
            &&& c.best_response.request_id@ == request.id@
            &&& c.best_response.provider@ == "syntari-ai-consensus"@
            &&& c.best_response.content@ == mock_text(request.prompt@, context_type)
            &&& c.best_response.confidence == MOCK_CONFIDENCE
            &&& c.best_response.response_time == MOCK_RESPONSE_TIME
            &&& c.alternative_responses@.len() == 0
            &&& c.confidence_score == MOCK_CONFIDENCE
            &&& c.total_cost == c.best_response.cost
            &&& c.best_response.cost == token_estimate(
                vstd::utf8::encode_utf8(
                    contextual_text(context_type, context_root, request.prompt@),
                ).len(),
            ) * MOCK_COST_PER_TOKEN
        },
{
    let context = answering_context(current);
    let priced = contextual_prompt(&context, request.prompt.as_str());
    match create_smart_mock_response(request, priced.as_str(), &context) {
        Ok(c) => TauriResult::success(c),
        Err(e) => TauriResult::error(
            concat2("AI response generation failed: ", e.as_str()).as_str(),
        ),
    }
}

} // verus!
