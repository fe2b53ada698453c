//! A single-exchange JSON handler: the input document carries a string
//! field `name`, and the output document carries one field `name_twice`
//! holding the name, a space, and the name again.

mod handler;
mod json;
mod transform;

pub use handler::lemma_repeatable;
pub use handler::process;
pub use handler::process_spec;
pub use handler::HandlerError;
pub use json::json_object_one;
pub use json::json_parses;
pub use json::json_string_field;
pub use json::plain_json;
pub use json::plain_json_char;
pub use json::plain_object_encoding;
pub use transform::double_name;
pub use transform::doubled;
