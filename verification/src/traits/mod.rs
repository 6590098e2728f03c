pub mod ast_node;
pub mod expression;
pub mod token;
pub mod virtual_machine;
