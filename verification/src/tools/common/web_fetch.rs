//! The web fetch tool: a page as markdown, or a search of the web.
//!
//! Talking to the service is the caller's part. The tool reads its input,
//! says which request to make, and words what came back.

use vstd::prelude::*;
use vstd::string::StringExecFns;
use crate::json::{
    array_of_strings, as_elements, bool_member, entry_views, get_bool, get_optional_str,
    get_optional_strings, get_optional_u64, get_present, get_str, is_object, json_elements,
    json_is_object, json_of_object, json_of_string, json_of_strings, json_of_u64, json_parsed,
    number, object, optional_string_member, optional_strings_member, optional_u64_member, parse,
    present_member, put, string, string_member, text_or_empty, to_text,
};
use crate::llm::types::{
    lemma_deep_view_push, CustomTool, CustomToolView, ToolDefinition, ToolDefinitionView,
    ToolInputSchema, ToolInputSchemaView,
};
use crate::text::{concat, concat3, cut_to, decimal, truncate_chars, usize_to_string};
use crate::tools::tool::{Tool, ToolInfo, ToolInfoView, ToolResult, ToolResultDataView, ToolResultView};

verus! {

/// Default timeout in milliseconds.
pub const DEFAULT_TIMEOUT_MS: u64 = 60000;

/// Maximum output length in characters.
pub const MAX_OUTPUT_LENGTH: usize = 100000;

/// How much of a page's HTML is shown, in characters.
pub const MAX_HTML_PREVIEW: usize = 5000;

/// The service's address for scraping.
pub const FIRECRAWL_SCRAPE_URL: &'static str = "https://api.firecrawl.dev/v2/scrape";

/// The service's address for searching.
pub const FIRECRAWL_SEARCH_URL: &'static str = "https://api.firecrawl.dev/v2/search";

/// The tool's short description.
pub const WEB_FETCH_DESCRIPTION: &'static str =
    "Fetch and scrape web pages into LLM-ready markdown, or search the web.";

/// The description of the tool for the model.
pub const WEB_FETCH_DEFINITION_DESCRIPTION: &'static str =
    "Fetches web pages and converts them to clean markdown using Firecrawl. Can either scrape a specific URL or search the web. Use 'url' parameter to scrape a page, or 'query' parameter to search. Returns LLM-ready markdown content.";

/// The properties of the tool's input, as JSON text.
pub const WEB_FETCH_PROPERTIES: &'static str =
    "{\"url\":{\"type\":\"string\",\"description\":\"The URL to scrape and convert to markdown\"},\"query\":{\"type\":\"string\",\"description\":\"Search query to find web pages (use instead of url for searching)\"},\"formats\":{\"type\":\"array\",\"items\":{\"type\":\"string\"},\"description\":\"Output formats: 'markdown', 'html', 'links' (default: ['markdown'])\"},\"limit\":{\"type\":\"number\",\"description\":\"Number of search results to return (default 5, only for search mode)\"},\"description\":{\"type\":\"string\",\"description\":\"Clear, concise description of what this fetch does in 5-10 words, in active voice.\"}}";

/// What the tool is to do.
#[derive(Debug)]
pub enum FetchPlan {
    /// Scrape the page at `url` in the formats given.
    Scrape { url: String, formats: Vec<String> },
    /// Search the web for `query`, for up to `limit` results.
    Search { query: String, limit: u32 },
    /// Neither a page nor a query is named.
    Nothing,
}

/// The model of a [`FetchPlan`].
pub ghost enum FetchPlanView {
    Scrape { url: Seq<char>, formats: Seq<Seq<char>> },
    Search { query: Seq<char>, limit: u32 },
    Nothing,
}

impl DeepView for FetchPlan {
    type V = FetchPlanView;

    open spec fn deep_view(&self) -> FetchPlanView {
        match self {
            FetchPlan::Scrape { url, formats } => FetchPlanView::Scrape {
                url: url@,
                formats: formats.deep_view(),
            },
            FetchPlan::Search { query, limit } => FetchPlanView::Search {
                query: query@,
                limit: *limit,
            },
            FetchPlan::Nothing => FetchPlanView::Nothing,
        }
    }
}

/// Input for the web fetch tool.
#[derive(Debug)]
pub struct WebFetchInput {
    /// The URL to scrape.
    pub url: Option<String>,
    /// The search query.
    pub query: Option<String>,
    /// The formats to return.
    pub formats: Option<Vec<String>>,
    /// The number of search results.
    pub limit: Option<u32>,
    /// What this fetch does, in a few words.
    pub description: Option<String>,
}

/// The model of a [`WebFetchInput`].
pub ghost struct WebFetchInputView {
    pub url: Option<Seq<char>>,
    pub query: Option<Seq<char>>,
    pub formats: Option<Seq<Seq<char>>>,
    pub limit: Option<u32>,
    pub description: Option<Seq<char>>,
}

impl DeepView for WebFetchInput {
    type V = WebFetchInputView;

    open spec fn deep_view(&self) -> WebFetchInputView {
        WebFetchInputView {
            url: self.url.deep_view(),
            query: self.query.deep_view(),
            formats: self.formats.deep_view(),
            limit: self.limit,
            description: self.description.deep_view(),
        }
    }
}

/// The number of results that a search asks for: five unless told otherwise,
/// and never more than ten.
pub open spec fn search_limit(limit: Option<u32>) -> u32 {
    match limit {
        Some(l) => if l < 10 {
            l
        } else {
            10
        },
        None => 5,
    }
}

/// What the tool is to do for an input: scrape where a page is named, else
/// search where a query is named.
pub open spec fn fetch_plan(input: WebFetchInputView) -> FetchPlanView {
    match input.url {
        Some(url) => FetchPlanView::Scrape {
            url,
            formats: match input.formats {
                Some(f) => f,
                None => seq!["markdown"@],
            },
        },
        None => match input.query {
            Some(query) => FetchPlanView::Search { query, limit: search_limit(input.limit) },
            None => FetchPlanView::Nothing,
        },
    }
}

/// What is said where neither a page nor a query is named.
pub open spec fn nothing_to_fetch() -> ToolResultView {
    ToolResultView {
        content: ToolResultDataView::Text("Either 'url' or 'query' parameter is required"@),
        is_error: true,
    }
}

/// What a page gave.
#[derive(Debug)]
pub struct ScrapeData {
    pub markdown: Option<String>,
    pub html: Option<String>,
    pub metadata: Option<ScrapeMetadata>,
}

/// What is known about a page.
#[derive(Debug)]
pub struct ScrapeMetadata {
    pub title: Option<String>,
    pub description: Option<String>,
    pub source_url: Option<String>,
}

/// One result of a search.
#[derive(Debug)]
pub struct SearchResult {
    pub title: Option<String>,
    pub url: String,
    pub description: Option<String>,
}

/// The model of a [`ScrapeMetadata`].
pub ghost struct ScrapeMetadataView {
    pub title: Option<Seq<char>>,
    pub description: Option<Seq<char>>,
    pub source_url: Option<Seq<char>>,
}

impl DeepView for ScrapeMetadata {
    type V = ScrapeMetadataView;

    open spec fn deep_view(&self) -> ScrapeMetadataView {
        ScrapeMetadataView {
            title: self.title.deep_view(),
            description: self.description.deep_view(),
            source_url: self.source_url.deep_view(),
        }
    }
}

/// The model of a [`ScrapeData`].
pub ghost struct ScrapeDataView {
    pub markdown: Option<Seq<char>>,
    pub html: Option<Seq<char>>,
    pub metadata: Option<ScrapeMetadataView>,
}

impl DeepView for ScrapeData {
    type V = ScrapeDataView;

    open spec fn deep_view(&self) -> ScrapeDataView {
        ScrapeDataView {
            markdown: self.markdown.deep_view(),
            html: self.html.deep_view(),
            metadata: self.metadata.deep_view(),
        }
    }
}

/// The model of a [`SearchResult`].
pub ghost struct SearchResultView {
    pub title: Option<Seq<char>>,
    pub url: Seq<char>,
    pub description: Option<Seq<char>>,
}

impl DeepView for SearchResult {
    type V = SearchResultView;

    open spec fn deep_view(&self) -> SearchResultView {
        SearchResultView {
            title: self.title.deep_view(),
            url: self.url@,
            description: self.description.deep_view(),
        }
    }
}

/// The heading of a page: its title, description and source, each where it
/// is known, and a rule.
pub open spec fn metadata_text(metadata: Option<ScrapeMetadataView>) -> Seq<char> {
    match metadata {
        Some(m) => (match m.title {
            Some(t) => "# "@ + t + "\n\n"@,
            None => Seq::empty(),
        }) + (match m.description {
            Some(d) => "> "@ + d + "\n\n"@,
            None => Seq::empty(),
        }) + (match m.source_url {
            Some(s) => "Source: "@ + s + "\n\n"@,
            None => Seq::empty(),
        }) + "---\n\n"@,
        None => Seq::empty(),
    }
}

/// The body of a page: its markdown, or else the start of its HTML under a
/// notice.
pub open spec fn body_text(markdown: Option<Seq<char>>, html: Option<Seq<char>>) -> Seq<char> {
    match markdown {
        Some(m) => m,
        None => match html {
            Some(h) => "(HTML content returned, markdown not available)\n\n"@ + cut_to(
                h,
                MAX_HTML_PREVIEW as nat,
                "..."@,
            ),
            None => Seq::empty(),
        },
    }
}

/// What is shown of a page, cut to the maximum output length.
pub open spec fn scrape_text(data: ScrapeDataView) -> Seq<char> {
    cut_to(
        metadata_text(data.metadata) + body_text(data.markdown, data.html),
        MAX_OUTPUT_LENGTH as nat,
        "\n\n... (content truncated)"@,
    )
}

/// What is shown of one result of a search, the `number`-th.
pub open spec fn result_text(number: nat, result: SearchResultView) -> Seq<char> {
    "## "@ + decimal(number) + ". "@ + (match result.title {
        Some(t) => t,
        None => "No title"@,
    }) + "\n"@ + "URL: "@ + result.url + "\n"@ + (match result.description {
        Some(d) => "\n"@ + d + "\n"@,
        None => Seq::empty(),
    }) + "\n"@
}

/// What is shown of the first `count` results.
pub open spec fn results_text(results: Seq<SearchResultView>, count: int) -> Seq<char>
    decreases count,
{
    if count <= 0 {
        Seq::empty()
    } else {
        results_text(results, count - 1) + result_text(count as nat, results[count - 1])
    }
}

/// What is shown of a search.
pub open spec fn search_text(query: Seq<char>, results: Option<Seq<SearchResultView>>) -> Seq<
    char,
> {
    "# Search Results for: "@ + query + "\n\n"@ + match results {
        Some(found) => "Found "@ + decimal(found.len()) + " results:\n\n"@ + results_text(
            found,
            found.len() as int,
        ),
        None => "No results found.\n"@,
    }
}

/// What the tool says it will do with an input.
pub open spec fn web_fetch_info(input: serde_json::Value) -> ToolInfoView {
    let url = string_member(input, "url"@);
    let query = string_member(input, "query"@);
    ToolInfoView {
        name: "WebFetch"@,
        action_description: match string_member(input, "description"@) {
            Some(d) => d,
            None => match url {
                Some(u) => "Fetch: "@ + u,
                None => match query {
                    Some(q) => "Search: "@ + q,
                    None => "WebFetch"@,
                },
            },
        },
        details: match url {
            Some(u) => Some("URL: "@ + u),
            None => match query {
                Some(q) => Some("Query: "@ + q),
                None => None,
            },
        },
    }
}

/// The declaration of the web fetch tool.
pub open spec fn web_fetch_definition() -> ToolDefinitionView {
    ToolDefinitionView::Custom(
        CustomToolView {
            name: "WebFetch"@,
            description: Some(WEB_FETCH_DEFINITION_DESCRIPTION@),
            input_schema: ToolInputSchemaView {
                schema_type: "object"@,
                properties: json_parsed(WEB_FETCH_PROPERTIES@),
                required: Some(Seq::empty()),
            },
            tool_type: None,
        },
    )
}

/// What is shown of one result of a search, the `number`-th.
pub fn format_result(number: usize, result: &SearchResult) -> (r: String)
    ensures
        r@ == result_text(number as nat, result.deep_view()),
{
    let mut head = "## ".to_string();
    head.append(usize_to_string(number).as_str());
    head.append(". ");
    match &result.title {
        Some(title) => {
            head.append(title.as_str());
        },
        None => {
            head.append("No title");
        },
    }
    head.append("\n");
    let mut rest = "URL: ".to_string();
    rest.append(result.url.as_str());
    rest.append("\n");
    let mut tail = String::new();
    match &result.description {
        Some(description) => {
            tail.append("\n");
            tail.append(description.as_str());
            tail.append("\n");
        },
        None => {},
    }
    tail.append("\n");
    let out = concat3(head.as_str(), rest.as_str(), tail.as_str());
    proof {
        assert(out@ =~= result_text(number as nat, result.deep_view()));
    }
    out
}

/// Web fetch tool: the key for the service.
#[derive(Debug)]
pub struct WebFetchTool {
    api_key: String,
}

impl WebFetchTool {
    /// The key for the service.
    pub closed spec fn key(self) -> Seq<char> {
        self.api_key@
    }

    /// A web fetch tool with an explicit API key.
    pub fn with_api_key(api_key: &str) -> (r: WebFetchTool)
        ensures
            r.key() == api_key@,
    {
        WebFetchTool { api_key: api_key.to_string() }
    }

    /// The value of the `Authorization` header.
    pub fn authorization_header(&self) -> (r: String)
        ensures
            r@ == "Bearer "@ + self.key(),
    {
        concat("Bearer ", self.api_key.as_str())
    }

    /// Says what to do for an input.
    pub fn plan(&self, input: WebFetchInput) -> (r: FetchPlan)
        ensures
            r.deep_view() == fetch_plan(input.deep_view()),
    {
        match input.url {
            Some(url) => {
                let formats = match input.formats {
                    Some(f) => f,
                    None => {
                        let mut f: Vec<String> = Vec::new();
                        f.push("markdown".to_string());
                        proof {
                            assert(f.deep_view() =~= seq!["markdown"@]);
                        }
                        f
                    },
                };
                FetchPlan::Scrape { url, formats }
            },
            None => match input.query {
                Some(query) => {
                    let limit = match input.limit {
                        Some(l) => if l < 10 {
                            l
                        } else {
                            10
                        },
                        None => 5,
                    };
                    FetchPlan::Search { query, limit }
                },
                None => FetchPlan::Nothing,
            },
        }
    }

    /// The result where neither a page nor a query is named.
    pub fn nothing_result(&self) -> (r: ToolResult)
        ensures
            r.deep_view() == nothing_to_fetch(),
    {
        ToolResult::error("Either 'url' or 'query' parameter is required")
    }

    /// What is shown of a page.
    pub fn scrape(&self, data: &ScrapeData) -> (r: String)
        ensures
            r@ == scrape_text(data.deep_view()),
    {
        let mut output = String::new();
        match &data.metadata {
            Some(metadata) => {
                match &metadata.title {
                    Some(title) => {
                        output.append("# ");
                        output.append(title.as_str());
                        output.append("\n\n");
                    },
                    None => {},
                }
                match &metadata.description {
                    Some(description) => {
                        output.append("> ");
                        output.append(description.as_str());
                        output.append("\n\n");
                    },
                    None => {},
                }
                match &metadata.source_url {
                    Some(source) => {
                        output.append("Source: ");
                        output.append(source.as_str());
                        output.append("\n\n");
                    },
                    None => {},
                }
                output.append("---\n\n");
            },
            None => {},
        }
        proof {
            assert(output@ =~= metadata_text(data.metadata.deep_view()));
        }
        match &data.markdown {
            Some(markdown) => {
                output.append(markdown.as_str());
            },
            None => match &data.html {
                Some(html) => {
                    output.append("(HTML content returned, markdown not available)\n\n");
                    let preview = truncate_chars(html.clone(), MAX_HTML_PREVIEW, "...");
                    output.append(preview.as_str());
                },
                None => {},
            },
        }
        proof {
            assert(output@ =~= metadata_text(data.metadata.deep_view()) + body_text(
                data.markdown.deep_view(),
                data.html.deep_view(),
            ));
        }
        truncate_chars(output, MAX_OUTPUT_LENGTH, "\n\n... (content truncated)")
    }

    /// What is shown of a search.
    pub fn search(&self, query: &str, results: &Option<Vec<SearchResult>>) -> (r: String)
        ensures
            r@ == search_text(query@, results.deep_view()),
    {
        let mut output = "# Search Results for: ".to_string();
        output.append(query);
        output.append("\n\n");
        match results {
            Some(found) => {
                output.append("Found ");
                output.append(usize_to_string(found.len()).as_str());
                output.append(" results:\n\n");
                let ghost head = output@;
                let mut i: usize = 0;
                proof {
                    assert(head + results_text(found.deep_view(), 0) =~= head);
                }
                while i < found.len()
                    invariant
                        0 <= i <= found.len(),
                        output@ == head + results_text(found.deep_view(), i as int),
                    decreases found.len() - i,
                {
                    let shown = format_result(i + 1, &found[i]);
                    output.append(shown.as_str());
                    proof {
                        assert(found.deep_view()[i as int] == found[i as int].deep_view());
                        assert(output@ =~= head + results_text(found.deep_view(), i + 1));
                    }
                    i += 1;
                }
            },
            None => {
                output.append("No results found.\n");
            },
        }
        output
    }

    /// The result of a scrape: what the page shows, or the error.
    pub fn scrape_result(&self, outcome: &Result<String, String>) -> (r: ToolResult)
        ensures
            r.deep_view() == match outcome {
                Ok(output) => ToolResultView {
                    content: ToolResultDataView::Text(output@),
                    is_error: false,
                },
                Err(message) => ToolResultView {
                    content: ToolResultDataView::Text("Scrape failed: "@ + message@),
                    is_error: true,
                },
            },
    {
        match outcome {
            Ok(output) => ToolResult::success(output.as_str()),
            Err(message) => ToolResult::error(concat("Scrape failed: ", message.as_str()).as_str()),
        }
    }

    /// The result of a search: what it shows, or the error.
    pub fn search_result(&self, outcome: &Result<String, String>) -> (r: ToolResult)
        ensures
            r.deep_view() == match outcome {
                Ok(output) => ToolResultView {
                    content: ToolResultDataView::Text(output@),
                    is_error: false,
                },
                Err(message) => ToolResultView {
                    content: ToolResultDataView::Text("Search failed: "@ + message@),
                    is_error: true,
                },
            },
    {
        match outcome {
            Ok(output) => ToolResult::success(output.as_str()),
            Err(message) => ToolResult::error(concat("Search failed: ", message.as_str()).as_str()),
        }
    }
}

impl Tool for WebFetchTool {
    fn name(&self) -> (r: String)
        ensures
            r@ == "WebFetch"@,
    {
        "WebFetch".to_string()
    }

    fn description(&self) -> (r: String)
        ensures
            r@ == WEB_FETCH_DESCRIPTION@,
    {
        WEB_FETCH_DESCRIPTION.to_string()
    }

    fn definition(&self) -> (r: ToolDefinition)
        ensures
            r.deep_view() == web_fetch_definition(),
    {
        let required: Vec<String> = Vec::new();
        proof {
            assert(required.deep_view() =~= Seq::empty());
        }
        ToolDefinition::Custom(
            CustomTool {
                name: "WebFetch".to_string(),
                description: Some(WEB_FETCH_DEFINITION_DESCRIPTION.to_string()),
                input_schema: ToolInputSchema {
                    schema_type: "object".to_string(),
                    properties: parse(WEB_FETCH_PROPERTIES),
                    required: Some(required),
                },
                tool_type: None,
            },
        )
    }

    fn get_info(&self, input: &serde_json::Value) -> (r: ToolInfo)
        ensures
            r.deep_view() == web_fetch_info(*input),
    {
        let url = get_str(input, "url");
        let query = get_str(input, "query");
        let action = match get_str(input, "description") {
            Some(d) => d,
            None => match &url {
                Some(u) => concat("Fetch: ", u.as_str()),
                None => match &query {
                    Some(q) => concat("Search: ", q.as_str()),
                    None => "WebFetch".to_string(),
                },
            },
        };
        let details = match &url {
            Some(u) => Some(concat("URL: ", u.as_str())),
            None => match &query {
                Some(q) => Some(concat("Query: ", q.as_str())),
                None => None,
            },
        };
        ToolInfo { name: "WebFetch".to_string(), action_description: action, details }
    }

    fn requires_permission(&self) -> (r: bool)
        ensures
            !r,
    {
        false
    }
}

/// The input that a JSON value describes. Every member may be left out.
pub open spec fn web_fetch_input_of(input: serde_json::Value) -> Option<WebFetchInputView> {
    match (
        optional_string_member(input, "url"@),
        optional_string_member(input, "query"@),
        optional_strings_member(input, "formats"@),
        optional_u64_member(input, "limit"@),
        optional_string_member(input, "description"@),
    ) {
        (Some(url), Some(query), Some(formats), Some(limit), Some(description)) => match limit {
            Some(n) => if n <= u32::MAX {
                Some(WebFetchInputView { url, query, formats, limit: Some(n as u32), description })
            } else {
                None
            },
            None => Some(WebFetchInputView { url, query, formats, limit: None, description }),
        },
        _ => None,
    }
}

/// What is said of an input that describes no fetch.
pub open spec fn invalid_web_fetch_input() -> Seq<char> {
    "Invalid web fetch input: expected `url` or `query`, strings, and optionally `formats`, `limit` and `description`"@
}

/// The body of a request to scrape a page.
pub open spec fn scrape_request(url: Seq<char>, formats: Seq<Seq<char>>) -> Seq<char> {
    text_or_empty(
        json_of_object(
            seq![("url"@, json_of_string(url)), ("formats"@, json_of_strings(formats))],
        ),
    )
}

/// The body of a request to search the web.
pub open spec fn search_request(query: Seq<char>, limit: u32) -> Seq<char> {
    text_or_empty(
        json_of_object(
            seq![("query"@, json_of_string(query)), ("limit"@, json_of_u64(limit as u64))],
        ),
    )
}

/// What is known about a page, as a JSON value describes it.
pub open spec fn scrape_metadata_of(value: serde_json::Value) -> Option<ScrapeMetadataView> {
    match (
        optional_string_member(value, "title"@),
        optional_string_member(value, "description"@),
        optional_string_member(value, "sourceURL"@),
    ) {
        (Some(title), Some(description), Some(source_url)) => if json_is_object(value) {
            Some(ScrapeMetadataView { title, description, source_url })
        } else {
            None
        },
        _ => None,
    }
}

/// What a page gave, as a JSON value describes it.
pub open spec fn scrape_data_of(value: serde_json::Value) -> Option<ScrapeDataView> {
    match (optional_string_member(value, "markdown"@), optional_string_member(value, "html"@)) {
        (Some(markdown), Some(html)) => if !json_is_object(value) {
            None
        } else {
            match present_member(value, "metadata"@) {
                None => Some(ScrapeDataView { markdown, html, metadata: None }),
                Some(m) => match scrape_metadata_of(m) {
                    Some(metadata) => Some(
                        ScrapeDataView { markdown, html, metadata: Some(metadata) },
                    ),
                    None => None,
                },
            }
        },
        _ => None,
    }
}

/// One result of a search, as a JSON value describes it.
pub open spec fn search_result_of(value: serde_json::Value) -> Option<SearchResultView> {
    match (
        optional_string_member(value, "title"@),
        string_member(value, "url"@),
        optional_string_member(value, "description"@),
    ) {
        (Some(title), Some(url), Some(description)) => if json_is_object(value) {
            Some(SearchResultView { title, url, description })
        } else {
            None
        },
        _ => None,
    }
}

/// The results that JSON values describe, if each describes one.
pub open spec fn search_results_of(values: Seq<serde_json::Value>) -> Option<Seq<SearchResultView>>
    decreases values.len(),
{
    if values.len() == 0 {
        Some(Seq::empty())
    } else {
        match (search_results_of(values.drop_last()), search_result_of(values.last())) {
            (Some(rest), Some(result)) => Some(rest.push(result)),
            _ => None,
        }
    }
}

/// What is said of an answer that does not have the service's shape.
pub open spec fn unreadable_answer() -> Seq<char> {
    "Failed to parse response"@
}

/// What is said of an answer with a status that is no success.
pub open spec fn service_error(status_text: Seq<char>, body: Seq<char>) -> Seq<char> {
    "Firecrawl API error ("@ + status_text + "): "@ + body
}

/// What is said where the service reports a failure: its error, or that the
/// error is not known.
pub open spec fn reported_failure(what: Seq<char>, value: serde_json::Value) -> Seq<char> {
    "Firecrawl "@ + what + " failed: "@ + match optional_string_member(value, "error"@) {
        Some(Some(e)) => e,
        _ => "Unknown error"@,
    }
}

/// What comes of the service's answer to a scrape: what is shown of the
/// page, or the error.
pub open spec fn scrape_outcome(success: bool, status_text: Seq<char>, body: Seq<char>) -> Result<
    Seq<char>,
    Seq<char>,
> {
    if !success {
        Err(service_error(status_text, body))
    } else {
        match json_parsed(body) {
            None => Err(unreadable_answer()),
            Some(value) => match (bool_member(value, "success"@), optional_string_member(
                value,
                "error"@,
            )) {
                (Some(ok), Some(_)) => if !ok {
                    Err(reported_failure("scrape"@, value))
                } else {
                    match present_member(value, "data"@) {
                        None => Err("No data in response"@),
                        Some(d) => match scrape_data_of(d) {
                            Some(data) => Ok(scrape_text(data)),
                            None => Err(unreadable_answer()),
                        },
                    }
                },
                _ => Err(unreadable_answer()),
            },
        }
    }
}

/// The results under `web`, which may be left out.
pub open spec fn optional_results(value: serde_json::Value) -> Option<Option<Seq<SearchResultView>>> {
    match present_member(value, "web"@) {
        None => Some(None),
        Some(m) => match json_elements(m) {
            Some(values) => match search_results_of(values) {
                Some(results) => Some(Some(results)),
                None => None,
            },
            None => None,
        },
    }
}

/// What comes of the service's answer to a search for `query`: what is shown
/// of the results, or the error.
pub open spec fn search_outcome(
    query: Seq<char>,
    success: bool,
    status_text: Seq<char>,
    body: Seq<char>,
) -> Result<Seq<char>, Seq<char>> {
    if !success {
        Err(service_error(status_text, body))
    } else {
        match json_parsed(body) {
            None => Err(unreadable_answer()),
            Some(value) => match (bool_member(value, "success"@), optional_string_member(
                value,
                "error"@,
            )) {
                (Some(ok), Some(_)) => if !ok {
                    Err(reported_failure("search"@, value))
                } else {
                    match present_member(value, "data"@) {
                        None => Err("No data in response"@),
                        Some(d) => match optional_results(d) {
                            Some(results) => if json_is_object(d) {
                                Ok(search_text(query, results))
                            } else {
                                Err(unreadable_answer())
                            },
                            None => Err(unreadable_answer()),
                        },
                    }
                },
                _ => Err(unreadable_answer()),
            },
        }
    }
}

/// The model of what came of an answer.
pub open spec fn outcome_view(outcome: Result<String, String>) -> Result<Seq<char>, Seq<char>> {
    match outcome {
        Ok(s) => Ok(s@),
        Err(e) => Err(e@),
    }
}

/// Where the first values describe no results, the whole does not either.
pub proof fn lemma_results_prefix(values: Seq<serde_json::Value>, n: int)
    requires
        0 <= n <= values.len(),
        search_results_of(values.take(n)) is None,
    ensures
        search_results_of(values) is None,
    decreases values.len() - n,
{
    if n < values.len() {
        assert(values.take(n + 1).drop_last() =~= values.take(n));
        lemma_results_prefix(values, n + 1);
    } else {
        assert(values.take(n) =~= values);
    }
}

/// Reads what is known about a page.
pub fn parse_scrape_metadata(value: &serde_json::Value) -> (r: Option<ScrapeMetadata>)
    ensures
        r.deep_view() == scrape_metadata_of(*value),
{
    match (
        get_optional_str(value, "title"),
        get_optional_str(value, "description"),
        get_optional_str(value, "sourceURL"),
    ) {
        (Ok(title), Ok(description), Ok(source_url)) => {
            if is_object(value) {
                Some(ScrapeMetadata { title, description, source_url })
            } else {
                None
            }
        },
        _ => None,
    }
}

/// Reads what a page gave.
pub fn parse_scrape_data(value: &serde_json::Value) -> (r: Option<ScrapeData>)
    ensures
        r.deep_view() == scrape_data_of(*value),
{
    match (get_optional_str(value, "markdown"), get_optional_str(value, "html")) {
        (Ok(markdown), Ok(html)) => {
            if !is_object(value) {
                return None;
            }
            match get_present(value, "metadata") {
                None => Some(ScrapeData { markdown, html, metadata: None }),
                Some(m) => match parse_scrape_metadata(&m) {
                    Some(metadata) => Some(ScrapeData { markdown, html, metadata: Some(metadata) }),
                    None => None,
                },
            }
        },
        _ => None,
    }
}

/// Reads one result of a search.
pub fn parse_search_result(value: &serde_json::Value) -> (r: Option<SearchResult>)
    ensures
        r.deep_view() == search_result_of(*value),
{
    match (
        get_optional_str(value, "title"),
        get_str(value, "url"),
        get_optional_str(value, "description"),
    ) {
        (Ok(title), Some(url), Ok(description)) => {
            if is_object(value) {
                Some(SearchResult { title, url, description })
            } else {
                None
            }
        },
        _ => None,
    }
}

/// Reads the results of a search.
pub fn parse_search_results(values: &Vec<serde_json::Value>) -> (r: Option<Vec<SearchResult>>)
    ensures
        r.deep_view() == search_results_of(values@),
{
    let mut out: Vec<SearchResult> = Vec::new();
    let mut i: usize = 0;
    proof {
        assert(out.deep_view() =~= Seq::empty());
    }
    while i < values.len()
        invariant
            0 <= i <= values.len(),
            search_results_of(values@.take(i as int)) == Some(out.deep_view()),
        decreases values.len() - i,
    {
        proof {
            let next = values@.take(i + 1);
            assert(next.drop_last() =~= values@.take(i as int));
            assert(next.last() == values[i as int]);
        }
        match parse_search_result(&values[i]) {
            Some(result) => {
                let ghost before = out;
                out.push(result);
                proof {
                    lemma_deep_view_push(before, out, out[out.len() - 1]);
                }
            },
            None => {
                proof {
                    lemma_results_prefix(values@, i + 1);
                }
                return None;
            },
        }
        i += 1;
    }
    proof {
        assert(values@.take(values.len() as int) =~= values@);
    }
    Some(out)
}

fn failure_message(what: &str, value: &serde_json::Value, error: Option<String>) -> (r: String)
    requires
        optional_string_member(*value, "error"@) == Some(error.deep_view()),
    ensures
        r@ == reported_failure(what@, *value),
{
    let shown = match error {
        Some(e) => e,
        None => "Unknown error".to_string(),
    };
    let head = concat3("Firecrawl ", what, " failed: ");
    concat(head.as_str(), shown.as_str())
}

impl WebFetchTool {
    /// Reads the input of the tool.
    pub fn parse_input(&self, input: &serde_json::Value) -> (r: Result<WebFetchInput, String>)
        ensures
            match r {
                Ok(parsed) => web_fetch_input_of(*input) == Some(parsed.deep_view()),
                Err(message) => web_fetch_input_of(*input) is None && message@
                    == invalid_web_fetch_input(),
            },
    {
        let parsed = match (
            get_optional_str(input, "url"),
            get_optional_str(input, "query"),
            get_optional_strings(input, "formats"),
            get_optional_u64(input, "limit"),
            get_optional_str(input, "description"),
        ) {
            (Ok(url), Ok(query), Ok(formats), Ok(limit), Ok(description)) => match limit {
                Some(n) => {
                    if n <= 0xffff_ffff {
                        Some(
                            WebFetchInput { url, query, formats, limit: Some(n as u32), description },
                        )
                    } else {
                        None
                    }
                },
                None => Some(WebFetchInput { url, query, formats, limit: None, description }),
            },
            _ => None,
        };
        match parsed {
            Some(input) => Ok(input),
            None => Err(
                "Invalid web fetch input: expected `url` or `query`, strings, and optionally `formats`, `limit` and `description`".to_string(),
            ),
        }
    }

    /// The body of a request to scrape a page.
    pub fn scrape_request_body(&self, url: &str, formats: &Vec<String>) -> (r: String)
        ensures
            r@ == scrape_request(url@, formats.deep_view()),
    {
        let mut entries: Vec<(String, serde_json::Value)> = Vec::new();
        proof {
            assert(entry_views(entries@) =~= Seq::empty());
        }
        put(&mut entries, "url", string(url));
        put(&mut entries, "formats", array_of_strings(formats));
        proof {
            assert(entry_views(entries@) =~= seq![
                ("url"@, json_of_string(url@)),
                ("formats"@, json_of_strings(formats.deep_view())),
            ]);
        }
        to_text(&object(entries))
    }

    /// The body of a request to search the web.
    pub fn search_request_body(&self, query: &str, limit: u32) -> (r: String)
        ensures
            r@ == search_request(query@, limit),
    {
        let mut entries: Vec<(String, serde_json::Value)> = Vec::new();
        proof {
            assert(entry_views(entries@) =~= Seq::empty());
        }
        put(&mut entries, "query", string(query));
        put(&mut entries, "limit", number(limit as u64));
        proof {
            assert(entry_views(entries@) =~= seq![
                ("query"@, json_of_string(query@)),
                ("limit"@, json_of_u64(limit as u64)),
            ]);
        }
        to_text(&object(entries))
    }

    /// Turns the service's answer to a scrape into what is shown of the
    /// page, or into the error.
    pub fn read_scrape(&self, success: bool, status_text: &str, body: &str) -> (r: Result<
        String,
        String,
    >)
        ensures
            outcome_view(r) == scrape_outcome(success, status_text@, body@),
    {
        if !success {
            let head = concat3("Firecrawl API error (", status_text, "): ");
            return Err(concat(head.as_str(), body));
        }
        let value = match parse(body) {
            Some(value) => value,
            None => {
                return Err("Failed to parse response".to_string());
            },
        };
        match (get_bool(&value, "success"), get_optional_str(&value, "error")) {
            (Some(ok), Ok(error)) => {
                if !ok {
                    return Err(failure_message("scrape", &value, error));
                }
                match get_present(&value, "data") {
                    None => Err("No data in response".to_string()),
                    Some(d) => match parse_scrape_data(&d) {
                        Some(data) => Ok(self.scrape(&data)),
                        None => Err("Failed to parse response".to_string()),
                    },
                }
            },
            _ => Err("Failed to parse response".to_string()),
        }
    }

    /// Turns the service's answer to a search into what is shown of the
    /// results, or into the error.
    pub fn read_search(&self, query: &str, success: bool, status_text: &str, body: &str) -> (r: Result<
        String,
        String,
    >)
        ensures
            outcome_view(r) == search_outcome(query@, success, status_text@, body@),
    {
        if !success {
            let head = concat3("Firecrawl API error (", status_text, "): ");
            return Err(concat(head.as_str(), body));
        }
        let value = match parse(body) {
            Some(value) => value,
            None => {
                return Err("Failed to parse response".to_string());
            },
        };
        match (get_bool(&value, "success"), get_optional_str(&value, "error")) {
            (Some(ok), Ok(error)) => {
                if !ok {
                    return Err(failure_message("search", &value, error));
                }
                match get_present(&value, "data") {
                    None => Err("No data in response".to_string()),
                    Some(d) => {
                        let results = match get_present(&d, "web") {
                            None => None,
                            Some(m) => match as_elements(&m) {
                                Some(values) => match parse_search_results(&values) {
                                    Some(results) => Some(results),
                                    None => {
                                        return Err("Failed to parse response".to_string());
                                    },
                                },
                                None => {
                                    return Err("Failed to parse response".to_string());
                                },
                            },
                        };
                        if !is_object(&d) {
                            return Err("Failed to parse response".to_string());
                        }
                        Ok(self.search(query, &results))
                    },
                }
            },
            _ => Err("Failed to parse response".to_string()),
        }
    }
}

} // verus!
