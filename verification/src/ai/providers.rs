//! The providers that can be plugged in.

use vstd::prelude::*;

verus! {

/// The provider of the GPT family.
#[derive(Debug, Clone, Copy, PartialEq, Eq, Structural)]
pub struct OpenAiProvider;

/// The provider of the Sonnet family.
#[derive(Debug, Clone, Copy, PartialEq, Eq, Structural)]
pub struct ClaudeProvider;

/// The provider of the Gemini family.
#[derive(Debug, Clone, Copy, PartialEq, Eq, Structural)]
pub struct GeminiProvider;

impl OpenAiProvider {
    /// The provider.
    pub fn new() -> (p: Self)
        ensures
            p == OpenAiProvider,
    {
        OpenAiProvider
    }
}

impl ClaudeProvider {
    /// The provider.
    pub fn new() -> (p: Self)
        ensures
            p == ClaudeProvider,
    {
        ClaudeProvider
    }
}

impl GeminiProvider {
    /// The provider.
    pub fn new() -> (p: Self)
        ensures
            p == GeminiProvider,
    {
        GeminiProvider
    }
}

} // verus!
