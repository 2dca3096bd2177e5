//! The basic message: free text from one party to the other.

pub mod message;
