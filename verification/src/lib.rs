//! Synthesizes plausible fake identities — a first name, an optional middle
//! name, a last name and a date of birth — and derives display strings and
//! randomized, "leetified" usernames from them.

pub mod dates;
pub mod identity;
pub mod names;
pub mod randomness;
pub mod text;

pub use identity::Person;
pub use dates::Timestamp;
pub use dates::whole_years_between;
pub use text::leetify_char;
pub use text::leetify_string;
pub use text::repeat_last_char;
