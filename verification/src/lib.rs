pub mod command_laws;
pub mod config;
pub mod config_laws;
pub mod config_load_laws;
pub mod config_parts;
pub mod config_roles;
pub mod config_routing;
pub mod config_types;
pub mod decode;
pub mod exec;
pub mod exec_events;
pub mod exec_registry;
pub mod hook_laws;
pub mod hook_payload_laws;
pub mod hooks;
pub mod ids;
pub mod json;
pub mod json_text;
pub mod log_dirs;
pub mod memory_items;
pub mod memory_laws;
pub mod memory_prompts;
pub mod memory_select;
pub mod memory_store;
pub mod memory_text_laws;
pub mod memory_use_laws;
pub mod model_info_laws;
pub mod model_url;
pub mod models_laws;
pub mod models_manager;
pub mod omap;
pub mod order;
pub mod protocol;
pub mod remote_models;
pub mod repair_laws;
pub mod sanitize;
pub mod schema;
pub mod schema_laws;
pub mod text;
pub mod text_laws;
pub mod time;
pub mod tool_defs;
pub mod tool_laws;
pub mod tool_list;
pub mod tool_offer_laws;
pub mod tool_place_laws;
pub mod tool_text;
pub mod tool_writing_laws;
pub mod tools;
