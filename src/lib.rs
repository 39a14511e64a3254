pub mod endpoint;
pub mod output;
pub mod supervisor;
