//! Verified core of a document parsing service: text helpers, version
//! handling, environment diagnostics and task bookkeeping.

pub mod text;
pub mod mineru_stderr;
pub mod object_keys;
pub mod env_types;
pub mod env_status;
pub mod env_report;
pub mod error;
pub mod version;
pub mod deps;
pub mod dep_report;
pub mod env_probe;
pub mod task_state;
pub mod cancel_registry;
pub mod resources;
pub mod memory;
pub mod pool;
pub mod shutdown;
pub mod formats;
pub mod mineru;
pub mod text_ops;
pub mod markitdown;
pub mod sections;
pub mod digest;
pub mod utf8_facts;
pub mod md_links;
pub mod upload_target;
pub mod dir_check;
pub mod env_text;
pub mod storage;
pub mod image_paths;
pub mod url_signing;
pub mod service;
pub mod document_files;
pub mod cuda;
pub mod optimizer;
pub mod venv_setup;
pub mod image_select;
pub mod search;
pub mod pipeline;
