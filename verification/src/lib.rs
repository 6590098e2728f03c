pub mod text;
pub mod traits;
pub mod token_reader;
pub mod maybe_parsed_token;
pub mod big_int;
pub mod programming_languages;
pub mod arguments;
pub mod error;
pub mod main_state;
pub mod source_file_reader;
