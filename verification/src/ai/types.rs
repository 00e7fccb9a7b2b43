//! The records exchanged with model providers. Amounts of money are whole
//! billionths of a currency unit, confidences and temperatures whole
//! thousandths.

use vstd::prelude::*;
use vstd::string::*;
use crate::project::types::ProjectContext;
use crate::types::{current_timestamp, generate_id};

verus! {

/// A model provider.
#[derive(Debug)]
pub struct AiProvider {
    pub id: String,
    pub name: String,
    pub provider_type: String,
    pub is_available: bool,
    /// Cost of one token, in billionths of a currency unit.
    pub cost_per_token: u64,
    /// Typical latency in milliseconds.
    pub latency: u64,
    pub specialties: Vec<String>,
}

impl AiProvider {
    /// An available provider without cost, latency or specialties.
    pub fn new(id: &str, name: &str, provider_type: &str) -> (p: Self)
        ensures
            p.id@ == id@,
            p.name@ == name@,
            p.provider_type@ == provider_type@,
            p.is_available,
            p.cost_per_token == 0,
            p.latency == 0,
            p.specialties@.len() == 0,
    {
        AiProvider {
            id: String::from_str(id),
            name: String::from_str(name),
            provider_type: String::from_str(provider_type),
            is_available: true,
            cost_per_token: 0,
            latency: 0,
            specialties: Vec::new(),
        }
    }

    /// The same provider at the cost `cost_per_token` per token.
    pub fn with_cost(self, cost_per_token: u64) -> (p: Self)
        ensures
            p == (AiProvider { cost_per_token, ..self }),
    {
        AiProvider { cost_per_token, ..self }
    }

    /// The same provider with the latency `latency`.
    pub fn with_latency(self, latency: u64) -> (p: Self)
        ensures
            p == (AiProvider { latency, ..self }),
    {
        AiProvider { latency, ..self }
    }

    /// The same provider with the specialties `specialties`.
    pub fn with_specialties(self, specialties: Vec<String>) -> (p: Self)
        ensures
            p == (AiProvider { specialties, ..self }),
    {
        AiProvider { specialties, ..self }
    }

    /// The same provider, available or not.
    pub fn with_availability(self, is_available: bool) -> (p: Self)
        ensures
            p == (AiProvider { is_available, ..self }),
    {
        AiProvider { is_available, ..self }
    }
}

/// A request to a model.
#[derive(Debug)]
pub struct AiRequest {
    pub id: String,
    pub prompt: String,
    pub context: Option<ProjectContext>,
    pub provider: Option<String>,
    pub max_tokens: Option<u32>,
    /// Sampling temperature in thousandths.
    pub temperature: Option<u32>,
    /// When the request was made, in seconds since the Unix epoch.
    pub timestamp: u64,
}

impl AiRequest {
    /// A request made now, with the prompt alone.
    pub fn new(id: &str, prompt: &str) -> (r: Self)
        ensures
            r.id@ == id@,
            r.prompt@ == prompt@,
            r.context is None,
            r.provider is None,
            r.max_tokens is None,
            r.temperature is None,
    {
        AiRequest {
            id: String::from_str(id),
            prompt: String::from_str(prompt),
            context: None,
            provider: None,
            max_tokens: None,
            temperature: None,
            timestamp: current_timestamp(),
        }
    }

    /// The same request about the project `context`.
    pub fn with_context(self, context: ProjectContext) -> (r: Self)
        ensures
            r == (AiRequest { context: Some(context), ..self }),
    {
        AiRequest { context: Some(context), ..self }
    }

    /// The same request to the provider `provider`.
    pub fn with_provider(self, provider: &str) -> (r: Self)
        ensures
            r.provider matches Some(p) && p@ == provider@,
            r == (AiRequest { provider: r.provider, ..self }),
    {
        AiRequest { provider: Some(String::from_str(provider)), ..self }
    }

    /// The same request for at most `max_tokens` tokens.
    pub fn with_max_tokens(self, max_tokens: u32) -> (r: Self)
        ensures
            r == (AiRequest { max_tokens: Some(max_tokens), ..self }),
    {
        AiRequest { max_tokens: Some(max_tokens), ..self }
    }

    /// The same request at the temperature `temperature`.
    pub fn with_temperature(self, temperature: u32) -> (r: Self)
        ensures
            r == (AiRequest { temperature: Some(temperature), ..self }),
    {
        AiRequest { temperature: Some(temperature), ..self }
    }
}

/// The answer of a model.
#[derive(Debug)]
pub struct AiResponse {
    pub id: String,
    pub request_id: String,
    pub provider: String,
    pub content: String,
    /// Confidence in thousandths.
    pub confidence: u32,
    /// Cost in billionths of a currency unit.
    pub cost: u64,
    /// Time taken in milliseconds.
    pub response_time: u64,
    /// When the answer was made, in seconds since the Unix epoch.
    pub timestamp: u64,
}

impl AiResponse {
    /// An answer made now, under a fresh identifier, without confidence,
    /// cost or time.
    pub fn new(request_id: &str, provider: &str, content: &str) -> (r: Self)
        ensures
            r.request_id@ == request_id@,
            r.provider@ == provider@,
            r.content@ == content@,
            r.confidence == 0,
            r.cost == 0,
            r.response_time == 0,
            r.id@.len() == 36,
    {
        AiResponse {
            id: generate_id(),
            request_id: String::from_str(request_id),
            provider: String::from_str(provider),
            content: String::from_str(content),
            confidence: 0,
            cost: 0,
            response_time: 0,
            timestamp: current_timestamp(),
        }
    }

    /// The same answer with the confidence `confidence`.
    pub fn with_confidence(self, confidence: u32) -> (r: Self)
        ensures
            r == (AiResponse { confidence, ..self }),
    {
        AiResponse { confidence, ..self }
    }

    /// The same answer at the cost `cost`.
    pub fn with_cost(self, cost: u64) -> (r: Self)
        ensures
            r == (AiResponse { cost, ..self }),
    {
        AiResponse { cost, ..self }
    }

    /// The same answer with the time `response_time`.
    pub fn with_response_time(self, response_time: u64) -> (r: Self)
        ensures
            r == (AiResponse { response_time, ..self }),
    {
        AiResponse { response_time, ..self }
    }
}

/// The answer chosen among those of several models.
#[derive(Debug)]
pub struct ConsensusResult {
    pub best_response: AiResponse,
    pub alternative_responses: Vec<AiResponse>,
    /// Confidence in thousandths.
    pub confidence_score: u32,
    /// Cost in billionths of a currency unit.
    pub total_cost: u64,
    pub reasoning: String,
}

impl ConsensusResult {
    /// The consensus of one answer: its confidence and its cost.
    pub fn single_response(response: AiResponse, reasoning: &str) -> (r: Self)
        ensures
            r.best_response == response,
            r.alternative_responses@.len() == 0,
            r.confidence_score == response.confidence,
            r.total_cost == response.cost,
            r.reasoning@ == reasoning@,
    {
        let confidence = response.confidence;
        let cost = response.cost;
        ConsensusResult {
            best_response: response,
            alternative_responses: Vec::new(),
            confidence_score: confidence,
            total_cost: cost,
            reasoning: String::from_str(reasoning),
        }
    }

    /// The same consensus with the alternatives `alternatives`.
    pub fn with_alternatives(self, alternatives: Vec<AiResponse>) -> (r: Self)
        ensures
            r == (ConsensusResult { alternative_responses: alternatives, ..self }),
    {
        ConsensusResult { alternative_responses: alternatives, ..self }
    }
}

/// What a provider's interface answers.
#[derive(Debug)]
pub struct AiApiResponse {
    pub content: String,
    /// Confidence in thousandths.
    pub confidence: u32,
    /// Cost in billionths of a currency unit.
    pub cost: u64,
    pub response_time: u64,
}

impl AiApiResponse {
    /// An answer with the text alone.
    pub fn new(content: &str) -> (r: Self)
        ensures
            r.content@ == content@,
            r.confidence == 0,
            r.cost == 0,
            r.response_time == 0,
    {
        AiApiResponse { content: String::from_str(content), confidence: 0, cost: 0, response_time: 0 }
    }
}

/// A library known to the documentation service.
#[derive(Debug)]
pub struct Context7LibraryResult {
    pub id: String,
    pub name: String,
    pub description: Option<String>,
    pub documentation_coverage: Option<u32>,
    pub trust_score: Option<u32>,
}

/// Documentation fetched from the documentation service.
#[derive(Debug)]
pub struct Context7DocsResult {
    pub library_id: String,
    pub content: String,
    pub tokens_used: u32,
    pub topic_focused: Option<String>,
}

} // verus!
