//! Published solutions to check the library against.

pub mod vincenty1975;
