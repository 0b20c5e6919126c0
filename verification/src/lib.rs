//! Focus flags and focus traits for terminal widgets.

mod adapter;
pub mod area;
pub mod flag;
pub mod laws;
mod navigation;
pub mod text;
pub mod traits;

pub use crate::adapter::{ContainerAdapter, FocusAdapter};
pub use crate::flag::{ContainerFlag, FlagStore, FocusFlag};
pub use crate::navigation::Navigation;
pub use crate::traits::{FocusContainer, HasFocus};
