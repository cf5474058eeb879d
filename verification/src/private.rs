//! Support items that exist for call-site sugar rather than for direct use.

pub mod message_builder;

pub use message_builder::MessageBuilder;
