use vstd::prelude::*;

verus! {

/// The command line: global flags and the command to run.
pub struct Cli {
    /// Force compact JSON output.
    pub json: bool,
    /// Return only these fields (the comma-separated `--fields` list, split).
    pub fields: Vec<String>,
    pub command: Commands,
}

pub enum Commands {
    /// Product lookup and search.
    Products { command: ProductsCommand },
    /// Browse facet dimensions.
    Facets { command: FacetsCommand },
}

pub enum ProductsCommand {
    /// Look up a single product by barcode.
    Get {
        /// Barcode string (e.g. 3017624010701).
        barcode: String,
    },
    /// Search or filter the product database.
    Search {
        /// Full-text search query (routes to v1 /cgi/search.pl).
        query: Option<String>,
        /// Filter by category tag (e.g. en:chocolates).
        category: Option<String>,
        /// Filter by nutrition grade (a-e).
        nutrition_grade: Option<String>,
        /// Filter by eco-score grade (a-e).
        ecoscore_grade: Option<String>,
        /// Filter by label tag (e.g. en:organic).
        label: Option<String>,
        /// Filter by ingredient tag (e.g. en:salt).
        ingredient: Option<String>,
        /// Filter by allergen tag (e.g. en:gluten).
        allergen: Option<String>,
        /// Sort results by field (e.g. last_modified_t, unique_scans_n).
        sort_by: Option<String>,
        /// Page number.
        page: u32,
        /// Items per page.
        page_size: u32,
        /// Fetch all pages and return a flat array.
        all: bool,
    },
}

pub enum FacetsCommand {
    /// List all entries in a facet dimension.
    List {
        /// One of: categories, labels, ingredients, brands, countries, additives, allergens, packaging.
        facet_type: String,
    },
}

} // verus!
