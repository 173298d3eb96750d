//! The web-search tool's definition and its value types.  The search
//! itself is outbound HTTP and runs in the host; the types here carry
//! its inputs and results as plain values.

use vstd::prelude::*;

verus! {

use crate::registry::ToolSpec;
use crate::tools::ToolError;

/// Arguments of a web search.
#[derive(Debug)]
pub struct WebSearchInput {
    pub query: String,
    pub num_results: Option<usize>,
}

/// One search hit.
#[derive(Debug)]
pub struct SearchResult {
    pub title: String,
    pub link: String,
    pub snippet: String,
}

/// All hits of one search.
#[derive(Debug)]
pub struct WebSearchOutput {
    pub results: Vec<SearchResult>,
}

/// What can go wrong during a web search.
#[derive(Debug)]
pub enum WebSearchError {
    MissingApiKey,
    NetworkError { message: String },
    ApiError { message: String },
    ParseError { message: String },
}

impl WebSearchError {
    /// Folds a search error into the uniform tool-error taxonomy, as
    /// the pipeline reports it.
    pub fn into_tool_error(self) -> (r: ToolError)
        ensures
            self is MissingApiKey ==> (r matches ToolError::Other { message } && message@
                == "Missing API key for Brave Search. Please set BRAVE_SEARCH_API_KEY environment variable."@),
            self matches WebSearchError::NetworkError { message: m } ==> (
            r matches ToolError::NetworkError { message } && message@ == m@),
            self matches WebSearchError::ApiError { message: m } ==> (
            r matches ToolError::Other { message } && message@ == "API Error: "@ + m@),
            self matches WebSearchError::ParseError { message: m } ==> (
            r matches ToolError::Other { message } && message@ == "Response Parse Error: "@ + m@),
    {
        match self {
            WebSearchError::MissingApiKey => ToolError::Other {
                message: String::from_str(
                    "Missing API key for Brave Search. Please set BRAVE_SEARCH_API_KEY environment variable.",
                ),
            },
            WebSearchError::NetworkError { message } => ToolError::NetworkError { message },
            WebSearchError::ApiError { message } => {
                let mut s = String::from_str("API Error: ");
                s.append(message.as_str());
                ToolError::Other { message: s }
            },
            WebSearchError::ParseError { message } => {
                let mut s = String::from_str("Response Parse Error: ");
                s.append(message.as_str());
                ToolError::Other { message: s }
            },
        }
    }
}

/// Searches the web through the Brave Search API.
#[derive(Debug)]
pub struct WebSearchTool;

impl WebSearchTool {
    /// The registry entry this tool defines: its exact name,
    /// description and parameter schema.
    pub open spec fn describes(t: ToolSpec) -> bool {
        &&& t.name@ == "web_search"@
        &&& t.description@ == "Searches the web for a given query using the Brave Search API. Requires BRAVE_SEARCH_API_KEY environment variable to be set. Args: {\"query\": string, \"num_results\": integer (optional, default 5)}"@
        &&& t.parameters@ == "{\"type\":\"object\",\"properties\":{\"query\":{\"type\":\"string\",\"description\":\"The search query.\"},\"num_results\":{\"type\":\"integer\",\"description\":\"The maximum number of results to return (default: 5).\"}},\"required\":[\"query\"]}"@
    }

    pub fn name(&self) -> (r: String)
        ensures
            r@ == "web_search"@,
    {
        String::from_str("web_search")
    }

    pub fn description(&self) -> (r: String)
        ensures
            r@
                == "Searches the web for a given query using the Brave Search API. Requires BRAVE_SEARCH_API_KEY environment variable to be set. Args: {\"query\": string, \"num_results\": integer (optional, default 5)}"@,
    {
        String::from_str(
            "Searches the web for a given query using the Brave Search API. Requires BRAVE_SEARCH_API_KEY environment variable to be set. Args: {\"query\": string, \"num_results\": integer (optional, default 5)}",
        )
    }

    pub fn parameters_schema(&self) -> (r: Result<String, String>)
        ensures
            r matches Ok(s) ==> s@
                == "{\"type\":\"object\",\"properties\":{\"query\":{\"type\":\"string\",\"description\":\"The search query.\"},\"num_results\":{\"type\":\"integer\",\"description\":\"The maximum number of results to return (default: 5).\"}},\"required\":[\"query\"]}"@,
            r is Ok,
    {
        Ok(
            String::from_str(
                "{\"type\":\"object\",\"properties\":{\"query\":{\"type\":\"string\",\"description\":\"The search query.\"},\"num_results\":{\"type\":\"integer\",\"description\":\"The maximum number of results to return (default: 5).\"}},\"required\":[\"query\"]}",
            ),
        )
    }
}

} // verus!
