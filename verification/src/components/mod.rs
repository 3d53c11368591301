//! The stock components.

pub mod label;
pub mod list;
pub mod stock;
pub mod utils;

pub use label::{Label, LabelPropsBuilder};
pub use list::{List, ListPropsBuilder};
pub use stock::StockComponent;
