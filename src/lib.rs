//! Renders puzzle tasks (pairs of colour grids) into standalone HTML
//! documents: one page per task and an index page over all tasks.
pub mod text;
pub mod grid;
pub mod model;
pub mod palette;
pub mod page;
pub mod order;
pub mod site;
pub mod laws;
