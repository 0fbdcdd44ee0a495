//! Greetings: a name goes in, a formatted salutation comes out.
//!
//! Every function here is total. The contracts are stated over the
//! characters of the strings (`Seq<char>`), so a caller learns the exact
//! text that comes back.

pub mod greeting;
pub mod line;
pub mod name;

pub use greeting::greet;
pub use greeting::GREETING;
pub use line::labelled_line;
pub use name::greet_either;
