//! Turn an encyclopedia into a traversable semantic network: validated
//! article locators, lazily loaded page entities, pattern-based extraction of
//! titles and outbound links, and a directed graph grown by expanding pages.
//!
//! Fetching itself is a collaborator's concern: every operation that needs
//! page text takes it as a plain value, so the whole library is ordinary,
//! verified computation.

pub mod extract;
pub mod graph;
pub mod locator;
pub mod page;

pub use graph::{GraphError, WikipediaGraph};
pub use locator::{WikipediaUrl, WikipediaUrlInvalidError};
pub use page::{Page, PageModel, TitleError};
