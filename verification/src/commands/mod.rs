pub mod facets;
pub mod products;
