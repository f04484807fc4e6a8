//! The names that most callers want in scope.

pub use crate::clipboard::Clipboard;
pub use crate::error;
pub use crate::menu_item::Type as MenuItemType;
pub use crate::nw::{is_nw, try_nw};
pub use crate::options::OptionsExt;
pub use crate::result;
pub use crate::tray::Options as TrayOptions;
pub use crate::value::{Dict, Handle, Value};
pub use crate::window;
pub use crate::window::Window;
