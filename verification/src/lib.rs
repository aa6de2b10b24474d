//! A small clipboard library: an open/set/close owner guarding the single
//! system clipboard, a UTF-16 codec for the null-terminated buffers the
//! clipboard protocol carries, and character-substitution tables that dress
//! text up in Unicode lookalikes before it is placed on the clipboard.

pub mod codec;
pub mod error;
pub mod owner;
pub mod table;

pub use codec::Lpwstr;
pub use error::Error;
pub use owner::Clipboard;
pub use owner::OsClipboard;
pub use table::Blackletter;
pub use table::FullWidth;
pub use table::Lookup;
pub use table::Mono;
pub use table::Smol;
pub use table::Translate;
