//! The data the client exchanges with the backend, held as plain values.
//!
//! Money and measured quantities arrive from the backend as decimal
//! numbers; they are held here in fixed-point form (hundredths or tenths of
//! a unit) so that the state they sit in stays plain. Timestamps are held
//! as Unix seconds.
use vstd::prelude::*;
use std::collections::HashMap;

verus! {

/// Food item from pantry.
#[derive(Debug, PartialEq, Eq)]
pub struct FoodItem {
    pub id: String,
    pub name: String,
    pub category: String,
    /// Expiration day in `YYYY-MM-DD` form, where one is known.
    pub expiration_date: Option<String>,
    pub quantity: i32,
}

impl Clone for FoodItem {
    fn clone(&self) -> (r: Self)
        ensures
            r == *self,
    {
        FoodItem {
            id: self.id.clone(),
            name: self.name.clone(),
            category: self.category.clone(),
            expiration_date: match &self.expiration_date {
                Some(s) => Some(s.clone()),
                None => None,
            },
            quantity: self.quantity,
        }
    }
}

/// Chat message request.
#[derive(Debug, PartialEq, Eq)]
pub struct ChatRequest {
    pub prompt: String,
    pub model: Option<String>,
}

impl ChatRequest {
    /// Assemble the request body for one chat prompt.
    pub fn new(prompt: &str, model: Option<&str>) -> (r: Self)
        ensures
            r.prompt@ == prompt@,
            match model {
                Some(m) => r.model matches Some(s) && s@ == m@,
                None => r.model is None,
            },
    {
        ChatRequest {
            prompt: prompt.to_owned(),
            model: match model {
                Some(m) => Some(m.to_owned()),
                None => None,
            },
        }
    }
}

/// Memory chat request.
#[derive(Debug)]
pub struct MemoryChatRequest {
    pub message: String,
    pub session_id: String,
    pub use_perplexity: Option<bool>,
    pub use_bielik: Option<bool>,
    pub agent_states: Option<HashMap<String, bool>>,
}

impl MemoryChatRequest {
    /// Assemble the request body for one memory-chat message; no agent
    /// states are sent.
    pub fn new(
        message: &str,
        session_id: &str,
        use_perplexity: Option<bool>,
        use_bielik: Option<bool>,
    ) -> (r: Self)
        ensures
            r.message@ == message@,
            r.session_id@ == session_id@,
            r.use_perplexity == use_perplexity,
            r.use_bielik == use_bielik,
            r.agent_states is None,
    {
        MemoryChatRequest {
            message: message.to_owned(),
            session_id: session_id.to_owned(),
            use_perplexity,
            use_bielik,
            agent_states: None,
        }
    }
}

/// Chat message response.
#[derive(Debug, PartialEq, Eq)]
pub struct ChatResponse {
    pub response: String,
    pub model: String,
}

/// Chat message.
#[derive(Debug, PartialEq, Eq)]
pub struct ChatMessage {
    pub content: String,
    pub is_user: bool,
    /// When the message was added, in Unix seconds.
    pub timestamp: i64,
    pub agent: Option<String>,
}

/// OCR result from receipt.
#[derive(Debug, PartialEq, Eq)]
pub struct OCRResult {
    pub items: Vec<OCRItem>,
    /// Receipt total, in hundredths of the currency unit.
    pub total: i64,
    pub store_name: Option<String>,
    pub date: Option<String>,
}

/// OCR detected item.
#[derive(Debug, PartialEq, Eq)]
pub struct OCRItem {
    pub name: String,
    /// Detected quantity, in hundredths of a unit.
    pub quantity: i64,
    /// Item price, in hundredths of the currency unit.
    pub price: i64,
    pub category: Option<String>,
}

/// Weather data.
#[derive(Debug, PartialEq, Eq)]
pub struct WeatherData {
    /// Temperature, in tenths of a degree Celsius.
    pub temperature: i64,
    pub description: String,
    pub humidity: i32,
    /// Wind speed, in tenths of a kilometre per hour.
    pub wind_speed: i64,
    pub location: String,
}

/// Pantry product.
#[derive(Debug, PartialEq, Eq)]
pub struct PantryProduct {
    pub id: i32,
    pub name: String,
    pub unified_category: String,
}

} // verus!
