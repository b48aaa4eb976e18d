//! Adapters to messaging platforms.
pub mod feishu_adapter;
