//! Small convenience operations for built-in types: discarding a value,
//! inspecting an absent optional, converting filesystem paths to text, and
//! selectively permitting failures of unit-returning operations.

pub mod discard;
pub mod inspect_none;
pub mod option_inspect_none;
pub mod path;
pub mod permit;

pub use discard::Discard;
pub use inspect_none::InspectNone;
pub use option_inspect_none::OptionInspectNone;
pub use path::PathToString;
pub use permit::Permit;
