use vstd::prelude::*;

use crate::text::{decimal, decimal_string, join, join_strings};

verus! {

/// What can go wrong in a command, before or after the request it makes.
#[derive(Debug, PartialEq, Eq)]
pub enum CliError {
    /// The HTTP client could not be set up.
    HttpClient,
    /// The request to `url` could not be sent or got no answer.
    Request { url: String },
    /// The answer's body is not JSON.
    InvalidJson,
    /// The API answered 429 or 403.
    RateLimited,
    /// The API answered 404 for `path`.
    NotFound { path: String },
    /// The API answered another status outside 200-299; `reason` is the
    /// status's canonical reason phrase, where it has one.
    Api { status: u16, reason: Option<String> },
    /// `facets list` was given a type it does not know.
    UnknownFacetType { facet_type: String },
    /// The product lookup answered with status 0, or none.
    ProductNotFound { barcode: String },
    /// The product lookup answered without a `product` member.
    NoProductData { barcode: String },
}

/// The facet types that `facets list` accepts, in the order the error
/// message lists them.
pub open spec fn valid_facet_types() -> Seq<Seq<char>> {
    seq![
        "categories"@,
        "labels"@,
        "ingredients"@,
        "brands"@,
        "countries"@,
        "additives"@,
        "allergens"@,
        "packaging"@,
    ]
}

/// The facet types that `facets list` accepts.
pub fn facet_types() -> (r: Vec<String>)
    ensures
        r@.map_values(|s: String| s@) == valid_facet_types(),
{
    let r = vec![
        String::from_str("categories"),
        String::from_str("labels"),
        String::from_str("ingredients"),
        String::from_str("brands"),
        String::from_str("countries"),
        String::from_str("additives"),
        String::from_str("allergens"),
        String::from_str("packaging"),
    ];
    assert(r@.map_values(|s: String| s@) =~= valid_facet_types());
    r
}

/// The reason phrase written after an HTTP status code.
pub open spec fn reason_text(reason: Option<String>) -> Seq<char> {
    match reason {
        Some(r) => r@,
        None => "<unknown status code>"@,
    }
}

/// The message that an error is reported with.
pub open spec fn message(e: CliError) -> Seq<char> {
    match e {
        CliError::HttpClient => "failed to build HTTP client"@,
        CliError::Request { url } => "request to "@ + url@ + " failed"@,
        CliError::InvalidJson => "failed to parse JSON response"@,
        CliError::RateLimited => "rate limit exceeded"@,
        CliError::NotFound { path } => "not found: "@ + path@,
        CliError::Api { status, reason } => "API error: HTTP "@ + decimal(status as nat) + " "@
            + reason_text(reason),
        CliError::UnknownFacetType { facet_type } => "unknown facet type: \""@ + facet_type@
            + "\" \u{2014} valid: "@ + join(valid_facet_types(), ", "@),
        CliError::ProductNotFound { barcode } => "product not found: "@ + barcode@,
        CliError::NoProductData { barcode } => "no product data: "@ + barcode@,
    }
}

impl CliError {
    /// The message this error is reported with.
    pub fn message(&self) -> (r: String)
        ensures
            r@ == message(*self),
    {
        match self {
            CliError::HttpClient => String::from_str("failed to build HTTP client"),
            CliError::Request { url } => {
                let mut s = String::from_str("request to ");
                s.append(url.as_str());
                s.append(" failed");
                s
            },
            CliError::InvalidJson => String::from_str("failed to parse JSON response"),
            CliError::RateLimited => String::from_str("rate limit exceeded"),
            CliError::NotFound { path } => {
                let mut s = String::from_str("not found: ");
                s.append(path.as_str());
                s
            },
            CliError::Api { status, reason } => {
                let mut s = String::from_str("API error: HTTP ");
                let code = decimal_string(*status as u64);
                s.append(code.as_str());
                s.append(" ");
                match reason {
                    Some(r) => s.append(r.as_str()),
                    None => s.append("<unknown status code>"),
                }
                s
            },
            CliError::UnknownFacetType { facet_type } => {
                let mut s = String::from_str("unknown facet type: \"");
                s.append(facet_type.as_str());
                s.append("\" \u{2014} valid: ");
                let valid = join_strings(&facet_types(), ", ");
                s.append(valid.as_str());
                s
            },
            CliError::ProductNotFound { barcode } => {
                let mut s = String::from_str("product not found: ");
                s.append(barcode.as_str());
                s
            },
            CliError::NoProductData { barcode } => {
                let mut s = String::from_str("no product data: ");
                s.append(barcode.as_str());
                s
            },
        }
    }
}

} // verus!
